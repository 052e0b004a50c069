//! The keyboard as a fixed grid of per-key colours.

use vstd::prelude::*;
use crate::decimal::decimal_text;
use crate::driver_sysfs::CUSTOM_FRAME_MODE;
use crate::driver_sysfs::DriverError;
use crate::driver_sysfs::KEY_COLOUR_MAP;
use crate::driver_sysfs::SysfsPath;
use crate::driver_sysfs::SysfsWrite;
use crate::driver_sysfs::WriteView;
use crate::driver_sysfs::spec_write;
use crate::driver_sysfs::write_view;
use crate::driver_sysfs::write_custom_mode_frame;
use crate::driver_sysfs::write_rgb_map;

verus! {

/// Number of physical key positions on the keyboard.
pub const KEYS: usize = 90;

/// Number of bytes in the byte encoding of a full frame: three per key.
pub const FRAME_BYTES: usize = 270;

/// The value of the flag that makes the firmware show the colour map it was
/// sent, in place of one of its own patterns.
pub const CUSTOM_MODE_ON: u8 = 1;

/// How far the push of one frame to the hardware has come.  A frame takes
/// two writes, the colour map and then the custom mode flag, and shows only
/// when both are done.
#[derive(Clone, Copy, PartialEq, Eq, Structural, Debug)]
pub enum PushStep {
    /// The colour map is to be written.
    WriteMap,
    /// The colour map is written; the custom mode flag is to be written.
    ActivateCustomMode,
    /// Both writes are done: the frame shows.
    Shown,
    /// A write failed: the frame does not show, and nothing more is written.
    Failed,
}

impl PushStep {
    /// The step after a write was tried, `written` telling whether it went
    /// through.  The flag comes only after a colour map that went through.
    pub open spec fn after(self, written: bool) -> PushStep {
        match self {
            PushStep::WriteMap => if written {
                PushStep::ActivateCustomMode
            } else {
                PushStep::Failed
            },
            PushStep::ActivateCustomMode => if written {
                PushStep::Shown
            } else {
                PushStep::Failed
            },
            PushStep::Shown => PushStep::Shown,
            PushStep::Failed => PushStep::Failed,
        }
    }

    /// The step at which a push begins.
    pub fn first() -> (step: PushStep)
        ensures
            step == PushStep::WriteMap,
    {
        PushStep::WriteMap
    }

    /// The step after the write of this step was tried.
    pub fn advance(self, written: bool) -> (next: PushStep)
        ensures
            next == self.after(written),
    {
        match self {
            PushStep::WriteMap => if written {
                PushStep::ActivateCustomMode
            } else {
                PushStep::Failed
            },
            PushStep::ActivateCustomMode => if written {
                PushStep::Shown
            } else {
                PushStep::Failed
            },
            PushStep::Shown => PushStep::Shown,
            PushStep::Failed => PushStep::Failed,
        }
    }
}

/// What the next write of a push, or the error in its place, holds.
pub open spec fn push_view(next: Result<Option<SysfsWrite>, DriverError>) -> Result<
    Option<WriteView>,
    DriverError,
> {
    match next {
        Ok(Some(w)) => Ok(Some(w@)),
        Ok(None) => Ok(None),
        Err(e) => Err(e),
    }
}

/// What is to be written at a step of the push of `frame`: the colour map
/// first, the flag after it, and nothing once the push is over.  Without an
/// attribute directory, and after a failed write, it is the error.
pub open spec fn spec_push(dir: Option<Seq<char>>, frame: Seq<KeyColour>, step: PushStep) -> Result<
    Option<WriteView>,
    DriverError,
> {
    match step {
        PushStep::WriteMap => match spec_write(dir, KEY_COLOUR_MAP@, colour_bytes(frame)) {
            Ok(w) => Ok(Some(w)),
            Err(e) => Err(e),
        },
        PushStep::ActivateCustomMode => match spec_write(
            dir,
            CUSTOM_FRAME_MODE@,
            decimal_text(CUSTOM_MODE_ON as int),
        ) {
            Ok(w) => Ok(Some(w)),
            Err(e) => Err(e),
        },
        PushStep::Shown => if dir is Some {
            Ok(None)
        } else {
            Err(DriverError::DeviceNotFound)
        },
        PushStep::Failed => if dir is Some {
            Err(DriverError::IoError)
        } else {
            Err(DriverError::DeviceNotFound)
        },
    }
}

/// One key's colour.
#[derive(Clone, Copy, PartialEq, Eq, Structural, Debug)]
pub struct KeyColour {
    pub r: u8,
    pub g: u8,
    pub b: u8,
}

impl KeyColour {
    /// The colour of an unlit key.
    pub open spec fn black() -> KeyColour {
        KeyColour { r: 0, g: 0, b: 0 }
    }

    /// The channel of this colour at offset `c`: red, green, then blue.
    pub open spec fn channel(self, c: int) -> u8 {
        if c == 0 {
            self.r
        } else if c == 1 {
            self.g
        } else {
            self.b
        }
    }

    pub fn new(r: u8, g: u8, b: u8) -> (c: KeyColour)
        ensures
            c == (KeyColour { r, g, b }),
    {
        KeyColour { r, g, b }
    }
}

/// The byte encoding of a run of colours: red, green and blue of each key,
/// in key order.
pub open spec fn colour_bytes(colours: Seq<KeyColour>) -> Seq<u8> {
    Seq::new(3 * colours.len(), |i: int| colours[i / 3].channel(i % 3))
}

/// A frame in which every key has the colour `c`.
pub open spec fn uniform_frame(c: KeyColour) -> Seq<KeyColour> {
    Seq::new(KEYS as nat, |i: int| c)
}

/// The colour of every key of the keyboard, indexed by key position.
#[derive(Clone, Copy, Debug)]
pub struct KeyboardData {
    pub keys: [KeyColour; KEYS],
}

impl View for KeyboardData {
    type V = Seq<KeyColour>;

    open spec fn view(&self) -> Seq<KeyColour> {
        self.keys@
    }
}

impl KeyboardData {
    /// A keyboard with every key unlit.
    pub fn new() -> (board: KeyboardData)
        ensures
            board@ == uniform_frame(KeyColour::black()),
    {
        let mut board = KeyboardData { keys: [KeyColour { r: 0, g: 0, b: 0 }; KEYS] };
        board.set_kbd_colour(0, 0, 0);
        board
    }

    /// Sets the colour of the key at `pos`.
    pub fn set_key_at(&mut self, pos: usize, colour: KeyColour)
        requires
            pos < KEYS,
        ensures
            final(self)@ == old(self)@.update(pos as int, colour),
    {
        self.keys[pos] = colour;
    }

    /// The colour of the key at `pos`.
    pub fn get_key_at(&self, pos: usize) -> (colour: KeyColour)
        requires
            pos < KEYS,
        ensures
            colour == self@[pos as int],
    {
        self.keys[pos]
    }

    /// Sets every key to one colour.
    pub fn set_kbd_colour(&mut self, r: u8, g: u8, b: u8)
        ensures
            final(self)@ == uniform_frame(KeyColour { r, g, b }),
    {
        let colour = KeyColour { r, g, b };
        let mut i: usize = 0;
        while i < KEYS
            invariant
                i <= KEYS,
                forall|j: int| 0 <= j < i ==> self@[j] == colour,
            decreases KEYS - i,
        {
            self.set_key_at(i, colour);
            i = i + 1;
        }
        assert(self@ =~= uniform_frame(colour));
    }

    /// The frame as bytes: red, green and blue of each key, in key order.
    pub fn get_curr_state(&self) -> (bytes: Vec<u8>)
        ensures
            bytes@ == colour_bytes(self@),
    {
        let mut bytes: Vec<u8> = Vec::new();
        let mut i: usize = 0;
        while i < KEYS
            invariant
                i <= KEYS,
                bytes@.len() == 3 * i,
                forall|j: int| 0 <= j < 3 * i ==> bytes@[j] == self@[j / 3].channel(j % 3),
            decreases KEYS - i,
        {
            let c = self.keys[i];
            bytes.push(c.r);
            bytes.push(c.g);
            bytes.push(c.b);
            i = i + 1;
        }
        assert(bytes@ =~= colour_bytes(self@));
        bytes
    }
}

impl KeyboardData {
    /// Prepares the write of the frame's colour map.
    pub fn update_kbd(&self, laptop: &SysfsPath) -> (write: Result<SysfsWrite, DriverError>)
        ensures
            write_view(write) == spec_write(laptop@, KEY_COLOUR_MAP@, colour_bytes(self@)),
    {
        write_rgb_map(laptop, self.get_curr_state())
    }

    /// Prepares the write of the custom mode flag, which makes the firmware
    /// show the colour map that was written before.
    pub fn update_custom_mode(&self, laptop: &SysfsPath) -> (write: Result<
        SysfsWrite,
        DriverError,
    >)
        ensures
            write_view(write) == spec_write(
                laptop@,
                CUSTOM_FRAME_MODE@,
                decimal_text(CUSTOM_MODE_ON as int),
            ),
    {
        write_custom_mode_frame(laptop, CUSTOM_MODE_ON)
    }

    /// What is to be written next to push the frame to the hardware, at
    /// `step` of the push.  The caller carries the write out and goes on
    /// with [`PushStep::advance`].
    pub fn push_to_hardware(&self, laptop: &SysfsPath, step: PushStep) -> (next: Result<
        Option<SysfsWrite>,
        DriverError,
    >)
        ensures
            push_view(next) == spec_push(laptop@, self@, step),
    {
        match step {
            PushStep::WriteMap => match self.update_kbd(laptop) {
                Ok(w) => Ok(Some(w)),
                Err(e) => Err(e),
            },
            PushStep::ActivateCustomMode => match self.update_custom_mode(laptop) {
                Ok(w) => Ok(Some(w)),
                Err(e) => Err(e),
            },
            PushStep::Shown => if laptop.is_found() {
                Ok(None)
            } else {
                Err(DriverError::DeviceNotFound)
            },
            PushStep::Failed => if laptop.is_found() {
                Err(DriverError::IoError)
            } else {
                Err(DriverError::DeviceNotFound)
            },
        }
    }
}

/// A frame shows only after both of its writes went through, the colour
/// map first; once a write has failed nothing more is written.
pub proof fn lemma_push_order(dir: Seq<char>, frame: Seq<KeyColour>, map_written: bool, flag_written: bool)
    ensures
        PushStep::WriteMap.after(map_written).after(flag_written) == PushStep::Shown <==> map_written
            && flag_written,
        !map_written ==> spec_push(Some(dir), frame, PushStep::WriteMap.after(map_written))
            == Err::<Option<WriteView>, DriverError>(DriverError::IoError),
        map_written ==> spec_push(Some(dir), frame, PushStep::WriteMap.after(map_written)) == Ok::<
            Option<WriteView>,
            DriverError,
        >(
            Some(
                WriteView {
                    path: dir + "/"@ + CUSTOM_FRAME_MODE@,
                    data: decimal_text(CUSTOM_MODE_ON as int),
                },
            ),
        ),
{
}

} // verus!
