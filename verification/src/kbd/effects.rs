//! The lighting effects: what each one paints on every tick.

use vstd::prelude::*;
use vstd::string::StringExecFns;
use crate::kbd::board::KeyColour;
use crate::kbd::board::KeyboardData;
use crate::kbd::board::KEYS;
use crate::kbd::board::colour_bytes;
use crate::kbd::board::uniform_frame;

verus! {

/// Position of the last key: a gradient runs from key 0 to this key.
pub const LAST_KEY: usize = 89;

/// Why an effect could not be made from a name and a parameter vector.
#[derive(Clone, Copy, PartialEq, Eq, Structural, Debug)]
pub enum EffectError {
    /// No effect is registered under the name.
    UnknownEffectName,
    /// The parameter vector has the wrong length for the effect.
    InvalidParameters,
}

/// What an effect stores to be made again: its name and its parameters.
#[derive(Clone, PartialEq, Eq, Debug)]
pub struct EffectSave {
    pub args: Vec<u8>,
    pub name: String,
}

/// The colour that the bytes `args[at]`, `args[at + 1]`, `args[at + 2]` encode.
pub open spec fn colour_at(args: Seq<u8>, at: int) -> KeyColour {
    KeyColour { r: args[at], g: args[at + 1], b: args[at + 2] }
}

/// The value at step `i` of `n` on the straight line from `a` to `b`,
/// rounded towards `a`.
pub open spec fn lerp(a: u8, b: u8, i: int, n: int) -> int {
    if b >= a {
        a + (b - a) * i / n
    } else {
        a - (a - b) * i / n
    }
}

/// The colour at step `i` of `n` on the straight line from `from` to `to`.
pub open spec fn lerp_colour(from: KeyColour, to: KeyColour, i: int, n: int) -> KeyColour {
    KeyColour {
        r: lerp(from.r, to.r, i, n) as u8,
        g: lerp(from.g, to.g, i, n) as u8,
        b: lerp(from.b, to.b, i, n) as u8,
    }
}

/// The frame that runs in a straight line from `from` at key 0 to `to` at
/// the last key.
pub open spec fn gradient_frame(from: KeyColour, to: KeyColour) -> Seq<KeyColour> {
    Seq::new(KEYS as nat, |i: int| lerp_colour(from, to, i, LAST_KEY as int))
}

/// The gradient frame moved by `shift` keys, wrapping round at the last key.
pub open spec fn wave_frame(from: KeyColour, to: KeyColour, shift: int) -> Seq<KeyColour> {
    Seq::new(
        KEYS as nat,
        |i: int| lerp_colour(from, to, (i + shift) % (KEYS as int), LAST_KEY as int),
    )
}

/// Ticks in which a breathing effect goes from dark to full, for a duration
/// parameter `d`: `d` itself, and 1 for 0.
pub open spec fn breath_half_period(d: u8) -> int {
    if d == 0 {
        1
    } else {
        d as int
    }
}

/// Brightness of a breathing effect at `phase`, from 0 to the half period:
/// it rises by one each tick up to the half period and then falls again.
pub open spec fn breath_level(d: u8, phase: int) -> int {
    let half = breath_half_period(d);
    let t = phase % (2 * half);
    if t <= half {
        t
    } else {
        2 * half - t
    }
}

/// `colour` dimmed to the brightness that a breathing effect has at `phase`.
pub open spec fn breath_colour(colour: KeyColour, d: u8, phase: int) -> KeyColour {
    let half = breath_half_period(d);
    let level = breath_level(d, phase);
    KeyColour {
        r: (colour.r * level / half) as u8,
        g: (colour.g * level / half) as u8,
        b: (colour.b * level / half) as u8,
    }
}

/// A step on a line stays between the line's ends, and the ends are hit.
pub proof fn lemma_lerp_bounds(a: u8, b: u8, i: int, n: int)
    requires
        0 <= i <= n,
        0 < n,
    ensures
        a <= b ==> a <= lerp(a, b, i, n) <= b,
        b <= a ==> b <= lerp(a, b, i, n) <= a,
        lerp(a, b, 0, n) == a,
        lerp(a, b, n, n) == b,
{
    let d: int = if b >= a { b - a } else { a - b };
    assert(0 <= d * i / n <= d) by (nonlinear_arith)
        requires
            0 <= i <= n,
            0 < n,
            0 <= d,
    ;
    assert(d * 0 / n == 0) by (nonlinear_arith)
        requires
            0 < n,
    ;
    assert(d * n / n == d) by (nonlinear_arith)
        requires
            0 < n,
    ;
}

/// A dimmed channel is never brighter than the channel itself; it is 0 at
/// level 0 and the channel itself at the full level.
pub proof fn lemma_dim_bounds(c: u8, level: int, half: int)
    requires
        0 <= level <= half,
        0 < half,
    ensures
        0 <= c * level / half <= c,
        c * 0 / half == 0,
        c * half / half == c,
{
    let c: int = c as int;
    assert(0 <= c * level / half <= c) by (nonlinear_arith)
        requires
            0 <= level <= half,
            0 < half,
            0 <= c,
    ;
    assert(c * 0 / half == 0) by (nonlinear_arith)
        requires
            0 < half,
    ;
    assert(c * half / half == c) by (nonlinear_arith)
        requires
            0 < half,
    ;
}

/// The brightness of a breathing effect lies between 0 and the half period.
pub proof fn lemma_breath_level_bounds(d: u8, phase: int)
    requires
        0 <= phase,
    ensures
        0 <= breath_level(d, phase) <= breath_half_period(d),
{
}

fn lerp_channel(a: u8, b: u8, i: usize) -> (v: u8)
    requires
        i <= LAST_KEY,
    ensures
        v == lerp(a, b, i as int, LAST_KEY as int),
{
    proof {
        lemma_lerp_bounds(a, b, i as int, LAST_KEY as int);
    }
    if b >= a {
        let d: u32 = (b - a) as u32;
        assert(d * i <= 255 * 89) by (nonlinear_arith)
            requires
                d <= 255,
                i <= 89,
        ;
        let step: u32 = d * (i as u32) / (LAST_KEY as u32);
        a + (step as u8)
    } else {
        let d: u32 = (a - b) as u32;
        assert(d * i <= 255 * 89) by (nonlinear_arith)
            requires
                d <= 255,
                i <= 89,
        ;
        let step: u32 = d * (i as u32) / (LAST_KEY as u32);
        a - (step as u8)
    }
}

fn lerp_key(from: KeyColour, to: KeyColour, i: usize) -> (c: KeyColour)
    requires
        i <= LAST_KEY,
    ensures
        c == lerp_colour(from, to, i as int, LAST_KEY as int),
{
    KeyColour {
        r: lerp_channel(from.r, to.r, i),
        g: lerp_channel(from.g, to.g, i),
        b: lerp_channel(from.b, to.b, i),
    }
}

fn wave_board(from: KeyColour, to: KeyColour, shift: u8) -> (board: KeyboardData)
    ensures
        board@ == wave_frame(from, to, shift as int),
{
    let mut board = KeyboardData::new();
    let mut i: usize = 0;
    while i < KEYS
        invariant
            i <= KEYS,
            forall|j: int|
                0 <= j < i ==> board@[j] == lerp_colour(
                    from,
                    to,
                    (j + shift) % (KEYS as int),
                    LAST_KEY as int,
                ),
        decreases KEYS - i,
    {
        let at: usize = (i + shift as usize) % KEYS;
        board.set_key_at(i, lerp_key(from, to, at));
        i = i + 1;
    }
    assert(board@ =~= wave_frame(from, to, shift as int));
    board
}

fn dim_channel(c: u8, level: u16, half: u16) -> (v: u8)
    requires
        level <= half,
        0 < half,
    ensures
        v == c * level / (half as int),
{
    proof {
        lemma_dim_bounds(c, level as int, half as int);
    }
    assert(c * level <= 255 * 65535) by (nonlinear_arith)
        requires
            c <= 255,
            level <= 65535,
    ;
    let v: u32 = (c as u32) * (level as u32) / (half as u32);
    v as u8
}

fn breath_half(d: u8) -> (half: u16)
    ensures
        half == breath_half_period(d),
{
    if d == 0 {
        1
    } else {
        d as u16
    }
}

fn breath_board(colour: KeyColour, d: u8, phase: u16) -> (board: KeyboardData)
    ensures
        board@ == uniform_frame(breath_colour(colour, d, phase as int)),
{
    let half: u16 = breath_half(d);
    let t: u16 = phase % (2 * half);
    let level: u16 = if t <= half {
        t
    } else {
        2 * half - t
    };
    let mut board = KeyboardData::new();
    board.set_kbd_colour(
        dim_channel(colour.r, level, half),
        dim_channel(colour.g, level, half),
        dim_channel(colour.b, level, half),
    );
    board
}

/// A unit of animation: made from a parameter vector, it paints one full
/// frame per tick.
pub trait Effect: Sized {
    /// The name under which the effect is registered and persisted.
    spec fn spec_name() -> Seq<char>;

    /// Whether a parameter vector has the shape that the effect takes.
    spec fn accepts(args: Seq<u8>) -> bool;

    /// The parameter vector that the effect was made from.
    spec fn params(&self) -> Seq<u8>;

    /// The frame that the effect shows now.
    spec fn frame(&self) -> Seq<KeyColour>;

    /// The effect one tick later.
    spec fn ticked(&self) -> Self;

    /// The effect as it is made from a parameter vector that it accepts.
    spec fn initial(args: Seq<u8>) -> Self;

    /// Makes the effect from its parameters, in its first phase.  A vector
    /// of the wrong length is refused.
    fn new(args: Vec<u8>) -> (made: Result<Self, EffectError>)
        ensures
            made is Ok <==> Self::accepts(args@),
            made matches Ok(effect) ==> effect == Self::initial(args@) && effect.params() == args@,
            made matches Err(e) ==> e == EffectError::InvalidParameters,
    ;

    /// Moves the animation on by one tick and paints the new frame.
    fn update(&mut self) -> (board: KeyboardData)
        ensures
            *final(self) == old(self).ticked(),
            board@ == final(self).frame(),
    ;

    /// The parameters that the effect was made from.
    fn get_varargs(&self) -> (args: Vec<u8>)
        ensures
            args@ == self.params(),
    ;

    /// The effect's registered name.
    fn get_name() -> (name: &'static str)
        ensures
            name@ == Self::spec_name(),
    ;

    /// An independent copy, in the same phase.
    fn clone_box(&self) -> (copy: Self)
        ensures
            copy == *self,
    ;

    /// Name and parameters, from which the effect can be made again.
    fn save(&self) -> (saved: EffectSave)
        ensures
            saved.name@ == Self::spec_name(),
            saved.args@ == self.params(),
    ;

    /// The frame that the effect shows now, as bytes.
    fn get_state(&self) -> (bytes: Vec<u8>)
        ensures
            bytes@ == colour_bytes(self.frame()),
    ;
}

/// Every key in one fixed colour.
#[derive(Clone, Copy, PartialEq, Eq, Structural, Debug)]
pub struct Static {
    pub colour: KeyColour,
}

impl Effect for Static {
    open spec fn spec_name() -> Seq<char> {
        "Static"@
    }

    open spec fn accepts(args: Seq<u8>) -> bool {
        args.len() == 3
    }

    open spec fn params(&self) -> Seq<u8> {
        seq![self.colour.r, self.colour.g, self.colour.b]
    }

    open spec fn frame(&self) -> Seq<KeyColour> {
        uniform_frame(self.colour)
    }

    open spec fn ticked(&self) -> Self {
        *self
    }

    open spec fn initial(args: Seq<u8>) -> Self {
        Static { colour: colour_at(args, 0) }
    }

    fn new(args: Vec<u8>) -> (made: Result<Self, EffectError>) {
        if args.len() != 3 {
            return Err(EffectError::InvalidParameters);
        }
        let effect = Static { colour: KeyColour { r: args[0], g: args[1], b: args[2] } };
        assert(effect.params() =~= args@);
        Ok(effect)
    }

    fn update(&mut self) -> (board: KeyboardData) {
        let mut board = KeyboardData::new();
        board.set_kbd_colour(self.colour.r, self.colour.g, self.colour.b);
        board
    }

    fn get_varargs(&self) -> (args: Vec<u8>) {
        let mut args: Vec<u8> = Vec::new();
        args.push(self.colour.r);
        args.push(self.colour.g);
        args.push(self.colour.b);
        assert(args@ =~= self.params());
        args
    }

    fn get_name() -> (name: &'static str) {
        "Static"
    }

    fn clone_box(&self) -> (copy: Self) {
        *self
    }

    fn save(&self) -> (saved: EffectSave) {
        EffectSave { args: self.get_varargs(), name: String::from_str(Self::get_name()) }
    }

    fn get_state(&self) -> (bytes: Vec<u8>) {
        let mut board = KeyboardData::new();
        board.set_kbd_colour(self.colour.r, self.colour.g, self.colour.b);
        board.get_curr_state()
    }
}

/// A fixed gradient from one colour at the first key to another at the last.
#[derive(Clone, Copy, PartialEq, Eq, Structural, Debug)]
pub struct StaticGradient {
    pub from: KeyColour,
    pub to: KeyColour,
}

impl Effect for StaticGradient {
    open spec fn spec_name() -> Seq<char> {
        "Static Gradient"@
    }

    open spec fn accepts(args: Seq<u8>) -> bool {
        args.len() == 6
    }

    open spec fn params(&self) -> Seq<u8> {
        seq![self.from.r, self.from.g, self.from.b, self.to.r, self.to.g, self.to.b]
    }

    open spec fn frame(&self) -> Seq<KeyColour> {
        gradient_frame(self.from, self.to)
    }

    open spec fn ticked(&self) -> Self {
        *self
    }

    open spec fn initial(args: Seq<u8>) -> Self {
        StaticGradient { from: colour_at(args, 0), to: colour_at(args, 3) }
    }

    fn new(args: Vec<u8>) -> (made: Result<Self, EffectError>) {
        if args.len() != 6 {
            return Err(EffectError::InvalidParameters);
        }
        let effect = StaticGradient {
            from: KeyColour { r: args[0], g: args[1], b: args[2] },
            to: KeyColour { r: args[3], g: args[4], b: args[5] },
        };
        assert(effect.params() =~= args@);
        Ok(effect)
    }

    fn update(&mut self) -> (board: KeyboardData) {
        let board = wave_board(self.from, self.to, 0);
        assert(board@ =~= self.frame());
        board
    }

    fn get_varargs(&self) -> (args: Vec<u8>) {
        let mut args: Vec<u8> = Vec::new();
        args.push(self.from.r);
        args.push(self.from.g);
        args.push(self.from.b);
        args.push(self.to.r);
        args.push(self.to.g);
        args.push(self.to.b);
        assert(args@ =~= self.params());
        args
    }

    fn get_name() -> (name: &'static str) {
        "Static Gradient"
    }

    fn clone_box(&self) -> (copy: Self) {
        *self
    }

    fn save(&self) -> (saved: EffectSave) {
        EffectSave { args: self.get_varargs(), name: String::from_str(Self::get_name()) }
    }

    fn get_state(&self) -> (bytes: Vec<u8>) {
        let board = wave_board(self.from, self.to, 0);
        assert(board@ =~= self.frame());
        board.get_curr_state()
    }
}

/// The gradient of [`StaticGradient`], moving one key further each tick.
#[derive(Clone, Copy, PartialEq, Eq, Structural, Debug)]
pub struct WaveGradient {
    pub from: KeyColour,
    pub to: KeyColour,
    /// How many keys the gradient has moved.
    pub shift: u8,
}

impl Effect for WaveGradient {
    open spec fn spec_name() -> Seq<char> {
        "Wave Gradient"@
    }

    open spec fn accepts(args: Seq<u8>) -> bool {
        args.len() == 6
    }

    open spec fn params(&self) -> Seq<u8> {
        seq![self.from.r, self.from.g, self.from.b, self.to.r, self.to.g, self.to.b]
    }

    open spec fn frame(&self) -> Seq<KeyColour> {
        wave_frame(self.from, self.to, self.shift as int)
    }

    open spec fn ticked(&self) -> Self {
        WaveGradient {
            from: self.from,
            to: self.to,
            shift: if self.shift >= LAST_KEY {
                0
            } else {
                (self.shift + 1) as u8
            },
        }
    }

    open spec fn initial(args: Seq<u8>) -> Self {
        WaveGradient { from: colour_at(args, 0), to: colour_at(args, 3), shift: 0 }
    }

    fn new(args: Vec<u8>) -> (made: Result<Self, EffectError>) {
        if args.len() != 6 {
            return Err(EffectError::InvalidParameters);
        }
        let effect = WaveGradient {
            from: KeyColour { r: args[0], g: args[1], b: args[2] },
            to: KeyColour { r: args[3], g: args[4], b: args[5] },
            shift: 0,
        };
        assert(effect.params() =~= args@);
        Ok(effect)
    }

    fn update(&mut self) -> (board: KeyboardData) {
        if self.shift >= LAST_KEY as u8 {
            self.shift = 0;
        } else {
            self.shift = self.shift + 1;
        }
        wave_board(self.from, self.to, self.shift)
    }

    fn get_varargs(&self) -> (args: Vec<u8>) {
        let mut args: Vec<u8> = Vec::new();
        args.push(self.from.r);
        args.push(self.from.g);
        args.push(self.from.b);
        args.push(self.to.r);
        args.push(self.to.g);
        args.push(self.to.b);
        assert(args@ =~= self.params());
        args
    }

    fn get_name() -> (name: &'static str) {
        "Wave Gradient"
    }

    fn clone_box(&self) -> (copy: Self) {
        *self
    }

    fn save(&self) -> (saved: EffectSave) {
        EffectSave { args: self.get_varargs(), name: String::from_str(Self::get_name()) }
    }

    fn get_state(&self) -> (bytes: Vec<u8>) {
        wave_board(self.from, self.to, self.shift).get_curr_state()
    }
}

/// One colour whose brightness rises and falls.
#[derive(Clone, Copy, PartialEq, Eq, Structural, Debug)]
pub struct BreathSingle {
    pub colour: KeyColour,
    /// Ticks from dark to full brightness; 0 counts as 1.
    pub duration: u8,
    /// Ticks since the effect was last dark.
    pub phase: u16,
}

impl Effect for BreathSingle {
    open spec fn spec_name() -> Seq<char> {
        "Breathing Single"@
    }

    open spec fn accepts(args: Seq<u8>) -> bool {
        args.len() == 4
    }

    open spec fn params(&self) -> Seq<u8> {
        seq![self.colour.r, self.colour.g, self.colour.b, self.duration]
    }

    open spec fn frame(&self) -> Seq<KeyColour> {
        uniform_frame(breath_colour(self.colour, self.duration, self.phase as int))
    }

    open spec fn ticked(&self) -> Self {
        BreathSingle {
            colour: self.colour,
            duration: self.duration,
            phase: if self.phase + 1 >= 2 * breath_half_period(self.duration) {
                0
            } else {
                (self.phase + 1) as u16
            },
        }
    }

    open spec fn initial(args: Seq<u8>) -> Self {
        BreathSingle { colour: colour_at(args, 0), duration: args[3], phase: 0 }
    }

    fn new(args: Vec<u8>) -> (made: Result<Self, EffectError>) {
        if args.len() != 4 {
            return Err(EffectError::InvalidParameters);
        }
        let effect = BreathSingle {
            colour: KeyColour { r: args[0], g: args[1], b: args[2] },
            duration: args[3],
            phase: 0,
        };
        assert(effect.params() =~= args@);
        Ok(effect)
    }

    fn update(&mut self) -> (board: KeyboardData) {
        let period: u32 = 2 * (breath_half(self.duration) as u32);
        if self.phase as u32 + 1 >= period {
            self.phase = 0;
        } else {
            self.phase = self.phase + 1;
        }
        breath_board(self.colour, self.duration, self.phase)
    }

    fn get_varargs(&self) -> (args: Vec<u8>) {
        let mut args: Vec<u8> = Vec::new();
        args.push(self.colour.r);
        args.push(self.colour.g);
        args.push(self.colour.b);
        args.push(self.duration);
        assert(args@ =~= self.params());
        args
    }

    fn get_name() -> (name: &'static str) {
        "Breathing Single"
    }

    fn clone_box(&self) -> (copy: Self) {
        *self
    }

    fn save(&self) -> (saved: EffectSave) {
        EffectSave { args: self.get_varargs(), name: String::from_str(Self::get_name()) }
    }

    fn get_state(&self) -> (bytes: Vec<u8>) {
        breath_board(self.colour, self.duration, self.phase).get_curr_state()
    }
}

/// One effect of any registered kind.
#[derive(Clone, Copy, PartialEq, Eq, Structural, Debug)]
pub enum AnyEffect {
    Static(Static),
    StaticGradient(StaticGradient),
    WaveGradient(WaveGradient),
    BreathSingle(BreathSingle),
}

impl AnyEffect {
    /// The name under which the effect is registered and persisted.
    pub open spec fn name(&self) -> Seq<char> {
        match self {
            AnyEffect::Static(_) => Static::spec_name(),
            AnyEffect::StaticGradient(_) => StaticGradient::spec_name(),
            AnyEffect::WaveGradient(_) => WaveGradient::spec_name(),
            AnyEffect::BreathSingle(_) => BreathSingle::spec_name(),
        }
    }

    /// The parameter vector that the effect was made from.
    pub open spec fn params(&self) -> Seq<u8> {
        match self {
            AnyEffect::Static(e) => e.params(),
            AnyEffect::StaticGradient(e) => e.params(),
            AnyEffect::WaveGradient(e) => e.params(),
            AnyEffect::BreathSingle(e) => e.params(),
        }
    }

    /// The frame that the effect shows now.
    pub open spec fn frame(&self) -> Seq<KeyColour> {
        match self {
            AnyEffect::Static(e) => e.frame(),
            AnyEffect::StaticGradient(e) => e.frame(),
            AnyEffect::WaveGradient(e) => e.frame(),
            AnyEffect::BreathSingle(e) => e.frame(),
        }
    }

    /// The effect one tick later.
    pub open spec fn ticked(&self) -> AnyEffect {
        match self {
            AnyEffect::Static(e) => AnyEffect::Static(e.ticked()),
            AnyEffect::StaticGradient(e) => AnyEffect::StaticGradient(e.ticked()),
            AnyEffect::WaveGradient(e) => AnyEffect::WaveGradient(e.ticked()),
            AnyEffect::BreathSingle(e) => AnyEffect::BreathSingle(e.ticked()),
        }
    }

    /// The effect as it is made again from its name and parameters: of the
    /// same kind and with the same parameters, in its first phase.
    pub open spec fn restarted(&self) -> AnyEffect {
        match self {
            AnyEffect::Static(e) => AnyEffect::Static(Static::initial(e.params())),
            AnyEffect::StaticGradient(e) => AnyEffect::StaticGradient(
                StaticGradient::initial(e.params()),
            ),
            AnyEffect::WaveGradient(e) => AnyEffect::WaveGradient(
                WaveGradient::initial(e.params()),
            ),
            AnyEffect::BreathSingle(e) => AnyEffect::BreathSingle(
                BreathSingle::initial(e.params()),
            ),
        }
    }

    /// Whether an effect is registered under `name`.
    pub open spec fn known_name(name: Seq<char>) -> bool {
        ||| name == Static::spec_name()
        ||| name == StaticGradient::spec_name()
        ||| name == WaveGradient::spec_name()
        ||| name == BreathSingle::spec_name()
    }

    /// The registry: what a name and a parameter vector make.
    pub open spec fn spec_from_name(name: Seq<char>, args: Seq<u8>) -> Result<
        AnyEffect,
        EffectError,
    > {
        if name == Static::spec_name() {
            if Static::accepts(args) {
                Ok(AnyEffect::Static(Static::initial(args)))
            } else {
                Err(EffectError::InvalidParameters)
            }
        } else if name == WaveGradient::spec_name() {
            if WaveGradient::accepts(args) {
                Ok(AnyEffect::WaveGradient(WaveGradient::initial(args)))
            } else {
                Err(EffectError::InvalidParameters)
            }
        } else if name == BreathSingle::spec_name() {
            if BreathSingle::accepts(args) {
                Ok(AnyEffect::BreathSingle(BreathSingle::initial(args)))
            } else {
                Err(EffectError::InvalidParameters)
            }
        } else if name == StaticGradient::spec_name() {
            if StaticGradient::accepts(args) {
                Ok(AnyEffect::StaticGradient(StaticGradient::initial(args)))
            } else {
                Err(EffectError::InvalidParameters)
            }
        } else {
            Err(EffectError::UnknownEffectName)
        }
    }

    /// Makes the effect registered under `name` from `args`.  An unknown
    /// name is refused, and so is a parameter vector that the named effect
    /// does not accept.
    pub fn from_name(name: &str, args: Vec<u8>) -> (made: Result<AnyEffect, EffectError>)
        ensures
            made == Self::spec_from_name(name@, args@),
    {
        let name = String::from_str(name);
        if name == String::from_str(Static::get_name()) {
            match Static::new(args) {
                Ok(e) => Ok(AnyEffect::Static(e)),
                Err(e) => Err(e),
            }
        } else if name == String::from_str(WaveGradient::get_name()) {
            match WaveGradient::new(args) {
                Ok(e) => Ok(AnyEffect::WaveGradient(e)),
                Err(e) => Err(e),
            }
        } else if name == String::from_str(BreathSingle::get_name()) {
            match BreathSingle::new(args) {
                Ok(e) => Ok(AnyEffect::BreathSingle(e)),
                Err(e) => Err(e),
            }
        } else if name == String::from_str(StaticGradient::get_name()) {
            match StaticGradient::new(args) {
                Ok(e) => Ok(AnyEffect::StaticGradient(e)),
                Err(e) => Err(e),
            }
        } else {
            Err(EffectError::UnknownEffectName)
        }
    }

    /// The registered name of the effect that a request to set an effect
    /// calls `name`, if it calls any so.
    pub open spec fn spec_command_name(name: Seq<char>) -> Option<Seq<char>> {
        if name == "static"@ {
            Some(Static::spec_name())
        } else if name == "static_gradient"@ {
            Some(StaticGradient::spec_name())
        } else if name == "wave_gradient"@ {
            Some(WaveGradient::spec_name())
        } else if name == "breathing_single"@ {
            Some(BreathSingle::spec_name())
        } else {
            None
        }
    }

    /// What a request to set the effect `name` with `params` makes.
    pub open spec fn spec_from_command(name: Seq<char>, params: Seq<u8>) -> Result<
        AnyEffect,
        EffectError,
    > {
        match Self::spec_command_name(name) {
            Some(registered) => Self::spec_from_name(registered, params),
            None => Err(EffectError::UnknownEffectName),
        }
    }

    /// Makes the effect that a request to set an effect asks for.  A name
    /// that no effect goes by in requests is refused, and so is a parameter
    /// vector that the named effect does not accept.
    pub fn from_command(name: &str, params: Vec<u8>) -> (made: Result<AnyEffect, EffectError>)
        ensures
            made == Self::spec_from_command(name@, params@),
    {
        let name = String::from_str(name);
        if name == String::from_str("static") {
            Self::from_name(Static::get_name(), params)
        } else if name == String::from_str("static_gradient") {
            Self::from_name(StaticGradient::get_name(), params)
        } else if name == String::from_str("wave_gradient") {
            Self::from_name(WaveGradient::get_name(), params)
        } else if name == String::from_str("breathing_single") {
            Self::from_name(BreathSingle::get_name(), params)
        } else {
            Err(EffectError::UnknownEffectName)
        }
    }

    /// Moves the animation on by one tick and paints the new frame.
    pub fn update(&mut self) -> (board: KeyboardData)
        ensures
            *final(self) == old(self).ticked(),
            board@ == final(self).frame(),
    {
        match self {
            AnyEffect::Static(e) => e.update(),
            AnyEffect::StaticGradient(e) => e.update(),
            AnyEffect::WaveGradient(e) => e.update(),
            AnyEffect::BreathSingle(e) => e.update(),
        }
    }

    /// The parameters that the effect was made from.
    pub fn get_varargs(&self) -> (args: Vec<u8>)
        ensures
            args@ == self.params(),
    {
        match self {
            AnyEffect::Static(e) => e.get_varargs(),
            AnyEffect::StaticGradient(e) => e.get_varargs(),
            AnyEffect::WaveGradient(e) => e.get_varargs(),
            AnyEffect::BreathSingle(e) => e.get_varargs(),
        }
    }

    /// The effect's registered name.
    pub fn get_name(&self) -> (name: &'static str)
        ensures
            name@ == self.name(),
    {
        match self {
            AnyEffect::Static(_) => Static::get_name(),
            AnyEffect::StaticGradient(_) => StaticGradient::get_name(),
            AnyEffect::WaveGradient(_) => WaveGradient::get_name(),
            AnyEffect::BreathSingle(_) => BreathSingle::get_name(),
        }
    }

    /// An independent copy, in the same phase.
    pub fn clone_box(&self) -> (copy: AnyEffect)
        ensures
            copy == *self,
    {
        *self
    }

    /// Name and parameters, from which the effect can be made again.
    pub fn save(&self) -> (saved: EffectSave)
        ensures
            saved.name@ == self.name(),
            saved.args@ == self.params(),
    {
        match self {
            AnyEffect::Static(e) => e.save(),
            AnyEffect::StaticGradient(e) => e.save(),
            AnyEffect::WaveGradient(e) => e.save(),
            AnyEffect::BreathSingle(e) => e.save(),
        }
    }

    /// The frame that the effect shows now, as bytes.
    pub fn get_state(&self) -> (bytes: Vec<u8>)
        ensures
            bytes@ == colour_bytes(self.frame()),
    {
        match self {
            AnyEffect::Static(e) => e.get_state(),
            AnyEffect::StaticGradient(e) => e.get_state(),
            AnyEffect::WaveGradient(e) => e.get_state(),
            AnyEffect::BreathSingle(e) => e.get_state(),
        }
    }
}

/// The registered names differ from one another.
pub proof fn lemma_names_distinct()
    ensures
        Static::spec_name() != StaticGradient::spec_name(),
        Static::spec_name() != WaveGradient::spec_name(),
        Static::spec_name() != BreathSingle::spec_name(),
        StaticGradient::spec_name() != WaveGradient::spec_name(),
        StaticGradient::spec_name() != BreathSingle::spec_name(),
        WaveGradient::spec_name() != BreathSingle::spec_name(),
{
    reveal_strlit("Static");
    reveal_strlit("Static Gradient");
    reveal_strlit("Wave Gradient");
    reveal_strlit("Breathing Single");
    assert("Static"@.len() == 6);
    assert("Static Gradient"@.len() == 15);
    assert("Wave Gradient"@.len() == 13);
    assert("Breathing Single"@.len() == 16);
}

/// An effect's name and parameters make the effect again, in its first
/// phase: the registry knows every effect's name and accepts its parameters.
pub proof fn lemma_registry_round_trip(effect: AnyEffect)
    ensures
        AnyEffect::spec_from_name(effect.name(), effect.params()) == Ok::<AnyEffect, EffectError>(
            effect.restarted(),
        ),
        effect.restarted().name() == effect.name(),
        effect.restarted().params() == effect.params(),
{
    lemma_names_distinct();
    match effect {
        AnyEffect::Static(e) => {
            assert(Static::initial(e.params()).params() =~= e.params());
        },
        AnyEffect::StaticGradient(e) => {
            assert(StaticGradient::initial(e.params()).params() =~= e.params());
        },
        AnyEffect::WaveGradient(e) => {
            assert(WaveGradient::initial(e.params()).params() =~= e.params());
        },
        AnyEffect::BreathSingle(e) => {
            assert(BreathSingle::initial(e.params()).params() =~= e.params());
        },
    }
}

} // verus!
