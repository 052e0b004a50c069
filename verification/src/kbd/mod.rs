//! Effect layers and their compositing into one keyboard frame.

pub mod board;
pub mod effects;
pub mod save;

use vstd::prelude::*;
use std::time::SystemTime;
use std::time::SystemTimeError;
use std::time::Duration;
use crate::kbd::board::KeyColour;
use crate::kbd::board::KeyboardData;
use crate::kbd::board::KEYS;
use crate::kbd::board::colour_bytes;
use crate::kbd::board::uniform_frame;
use crate::kbd::effects::AnyEffect;
use crate::kbd::effects::EffectError;
use crate::kbd::effects::lemma_registry_round_trip;

verus! {

/// Recompositions per second.
pub const ANIMATION_FPS: u64 = 10;

/// Milliseconds between two recompositions.
pub const ANIMATION_SLEEP_MS: u64 = 1000 / ANIMATION_FPS;

/// `std::time::SystemTime`, a reading of the system clock; nothing is
/// known of what it holds.
#[verifier::external_type_specification]
#[verifier::external_body]
pub struct ExSystemTime(SystemTime);

/// `std::time::SystemTimeError`, the error of a reading that lies before
/// the time it is compared with; nothing is known of what it holds.
#[verifier::external_type_specification]
#[verifier::external_body]
pub struct ExSystemTimeError(SystemTimeError);

/// `SystemTime::now` reads the system clock: nothing is known of the result.
pub assume_specification[ SystemTime::now ]() -> (now: SystemTime);

/// The whole milliseconds that a duration holds.
pub uninterp spec fn duration_millis(d: Duration) -> u128;

/// `Duration::as_millis` gives the whole milliseconds in a duration: a
/// number that the duration alone decides.
pub assume_specification[ Duration::as_millis ](this: &Duration) -> (millis: u128)
    ensures
        millis == duration_millis(*this),
;

/// `SystemTime::duration_since`, asked of `std::time::UNIX_EPOCH`: the time
/// from the epoch to `now`, or an error where `now` lies before the epoch.
/// Which of them comes depends on the clock that `now` was read from.
#[verifier::external_body]
fn since_epoch(now: &SystemTime) -> (elapsed: Result<Duration, SystemTimeError>) {
    now.duration_since(std::time::UNIX_EPOCH)
}

/// The time stamp that a reading of the clock against the epoch makes: the
/// whole milliseconds of the time elapsed, and 0 where the reading lies
/// before the epoch.
pub open spec fn spec_elapsed_millis(elapsed: Result<Duration, SystemTimeError>) -> u128 {
    match elapsed {
        Ok(since) => duration_millis(since),
        Err(_) => 0,
    }
}

/// The time stamp that a reading of the clock against the epoch makes: the
/// whole milliseconds of the time elapsed, and 0 where the reading lies
/// before the epoch.
pub fn elapsed_millis(elapsed: Result<Duration, SystemTimeError>) -> (millis: u128)
    ensures
        millis == spec_elapsed_millis(elapsed),
{
    match elapsed {
        Ok(since) => since.as_millis(),
        Err(_) => 0,
    }
}

/// Milliseconds since the Unix epoch by the system clock, and 0 where the
/// clock stands before the epoch: the time stamp of some reading of the
/// clock against the epoch.  Which reading it is, the clock decides.
pub fn get_millis() -> (millis: u128)
    ensures
        exists|elapsed: Result<Duration, SystemTimeError>|
            millis == #[trigger] spec_elapsed_millis(elapsed),
{
    elapsed_millis(since_epoch(&SystemTime::now()))
}

/// What a layer is: the keys it may paint, and the effect that paints them.
pub struct LayerView {
    pub mask: Seq<bool>,
    pub effect: AnyEffect,
}

/// What a persisted layer record holds.
pub struct RecordView {
    pub name: Seq<char>,
    pub args: Seq<u8>,
    pub mask: Seq<bool>,
}

/// Why a persisted layer record makes no layer.
#[derive(Clone, Copy, PartialEq, Eq, Structural, Debug)]
pub enum InvalidLayerRecord {
    /// The record lacks its name, its parameters or its mask.
    MissingFields,
    /// The mask does not have one entry per key.
    WrongMaskLength,
    /// No effect is registered under the record's name.
    UnknownEffectName,
    /// The named effect does not accept the record's parameters.
    InvalidParameters,
}

impl LayerView {
    /// The layer one tick later: the same mask, the effect moved on.
    pub open spec fn ticked(self) -> LayerView {
        LayerView { mask: self.mask, effect: self.effect.ticked() }
    }

    /// The record that persists the layer.
    pub open spec fn record(self) -> RecordView {
        RecordView { name: self.effect.name(), args: self.effect.params(), mask: self.mask }
    }

    /// The layer as it is loaded again from its record: the same mask, the
    /// effect in its first phase.
    pub open spec fn restarted(self) -> LayerView {
        LayerView { mask: self.mask, effect: self.effect.restarted() }
    }
}

impl RecordView {
    /// Why the record makes no layer, and `None` where it makes one.  The
    /// mask is looked at first, then the name, then the parameters.
    pub open spec fn fault(self) -> Option<InvalidLayerRecord> {
        if self.mask.len() != KEYS {
            Some(InvalidLayerRecord::WrongMaskLength)
        } else {
            match AnyEffect::spec_from_name(self.name, self.args) {
                Ok(_) => None,
                Err(EffectError::UnknownEffectName) => Some(InvalidLayerRecord::UnknownEffectName),
                Err(EffectError::InvalidParameters) => Some(InvalidLayerRecord::InvalidParameters),
            }
        }
    }

    /// The layer that the record makes, or why it makes none.
    pub open spec fn made(self) -> Result<LayerView, InvalidLayerRecord> {
        match self.fault() {
            Some(e) => Err(e),
            None => Ok(self.layer()),
        }
    }

    /// The layer that a valid record makes.
    pub open spec fn layer(self) -> LayerView {
        LayerView {
            mask: self.mask,
            effect: match AnyEffect::spec_from_name(self.name, self.args) {
                Ok(effect) => effect,
                Err(_) => arbitrary(),
            },
        }
    }
}

/// `base`, with the colour of `frame` at every key that `mask` selects.
pub open spec fn paint(base: Seq<KeyColour>, mask: Seq<bool>, frame: Seq<KeyColour>) -> Seq<
    KeyColour,
> {
    Seq::new(
        base.len(),
        |k: int|
            if mask[k] {
                frame[k]
            } else {
                base[k]
            },
    )
}

/// `base` after every layer has painted its frame on it, the oldest first.
pub open spec fn composite(base: Seq<KeyColour>, layers: Seq<LayerView>) -> Seq<KeyColour>
    decreases layers.len(),
{
    if layers.len() == 0 {
        base
    } else {
        paint(
            composite(base, layers.drop_last()),
            layers.last().mask,
            layers.last().effect.frame(),
        )
    }
}

/// The position of the newest layer whose mask selects key `k`, if any does.
pub open spec fn painter(layers: Seq<LayerView>, k: int) -> Option<int>
    decreases layers.len(),
{
    if layers.len() == 0 {
        None
    } else if layers.last().mask[k] {
        Some(layers.len() - 1)
    } else {
        painter(layers.drop_last(), k)
    }
}

/// Every layer one tick later.
pub open spec fn tick_layers(layers: Seq<LayerView>) -> Seq<LayerView> {
    Seq::new(layers.len(), |i: int| layers[i].ticked())
}

/// The records that persist a layer stack, in stack order.
pub open spec fn save_layers(layers: Seq<LayerView>) -> Seq<RecordView> {
    Seq::new(layers.len(), |i: int| layers[i].record())
}

/// The layers that a run of records makes: one for each valid record, in
/// the records' order; an invalid record makes none.
pub open spec fn load_records(records: Seq<RecordView>) -> Seq<LayerView>
    decreases records.len(),
{
    if records.len() == 0 {
        Seq::empty()
    } else if records.last().fault() is None {
        load_records(records.drop_last()).push(records.last().layer())
    } else {
        load_records(records.drop_last())
    }
}

/// Every layer as it is loaded again from its record.
pub open spec fn restart_layers(layers: Seq<LayerView>) -> Seq<LayerView> {
    Seq::new(layers.len(), |i: int| layers[i].restarted())
}

/// At every key, the composite shows the frame of the newest layer whose
/// mask selects the key; a key that no layer selects keeps its colour.
pub proof fn lemma_composite_newest_wins(base: Seq<KeyColour>, layers: Seq<LayerView>, k: int)
    requires
        0 <= k < base.len(),
    ensures
        composite(base, layers).len() == base.len(),
        painter(layers, k) matches Some(j) ==> {
            &&& 0 <= j < layers.len()
            &&& layers[j].mask[k]
            &&& forall|later: int| j < later < layers.len() ==> !(#[trigger] layers[later]).mask[k]
            &&& composite(base, layers)[k] == layers[j].effect.frame()[k]
        },
        painter(layers, k) is None ==> {
            &&& forall|j: int| 0 <= j < layers.len() ==> !(#[trigger] layers[j]).mask[k]
            &&& composite(base, layers)[k] == base[k]
        },
    decreases layers.len(),
{
    if layers.len() > 0 {
        let older = layers.drop_last();
        lemma_composite_newest_wins(base, older, k);
        if !layers.last().mask[k] {
            match painter(older, k) {
                Some(j) => {
                    assert forall|later: int| j < later < layers.len() implies !(
                    #[trigger] layers[later]).mask[k] by {
                        if later < older.len() {
                            assert(older[later] == layers[later]);
                        }
                    }
                    assert(older[j] == layers[j]);
                },
                None => {
                    assert forall|j: int| 0 <= j < layers.len() implies !(
                    #[trigger] layers[j]).mask[k] by {
                        if j < older.len() {
                            assert(older[j] == layers[j]);
                        }
                    }
                },
            }
        }
    }
}

/// Loading two runs of records one after the other gives the layers of the
/// first run followed by those of the second.
pub proof fn lemma_load_concat(first: Seq<RecordView>, second: Seq<RecordView>)
    ensures
        load_records(first + second) == load_records(first) + load_records(second),
    decreases second.len(),
{
    if second.len() == 0 {
        assert(first + second =~= first);
        assert(load_records(first) + load_records(second) =~= load_records(first));
    } else {
        let shorter = second.drop_last();
        lemma_load_concat(first, shorter);
        assert((first + second).drop_last() =~= first + shorter);
        assert((first + second).last() == second.last());
        if second.last().fault() is None {
            assert(load_records(first + second) =~= load_records(first) + load_records(second));
        }
    }
}

/// Where every record is valid, each makes its layer.
pub proof fn lemma_load_all_valid(records: Seq<RecordView>)
    requires
        forall|i: int| 0 <= i < records.len() ==> (#[trigger] records[i]).fault() is None,
    ensures
        load_records(records) == Seq::new(records.len(), |i: int| records[i].layer()),
    decreases records.len(),
{
    if records.len() > 0 {
        let shorter = records.drop_last();
        assert forall|i: int| 0 <= i < shorter.len() implies (#[trigger] shorter[i]).fault()
            is None by {
            assert(shorter[i] == records[i]);
        }
        lemma_load_all_valid(shorter);
        assert(records.last() == records[records.len() - 1]);
    }
    assert(load_records(records) =~= Seq::new(records.len(), |i: int| records[i].layer()));
}

/// One invalid record among valid ones is skipped and the rest is loaded:
/// the load gives one layer for each of the other records, in their order.
pub proof fn lemma_load_skips_invalid(records: Seq<RecordView>, bad: int)
    requires
        0 <= bad < records.len(),
        records[bad].fault() is Some,
        forall|i: int|
            0 <= i < records.len() && i != bad ==> (#[trigger] records[i]).fault() is None,
    ensures
        load_records(records).len() == records.len() - 1,
        load_records(records) == load_records(records.remove(bad)),
        forall|i: int| 0 <= i < bad ==> load_records(records)[i] == records[i].layer(),
        forall|i: int|
            bad < i < records.len() ==> load_records(records)[i - 1] == records[i].layer(),
{
    let before = records.subrange(0, bad);
    let one = records.subrange(bad, bad + 1);
    let after = records.subrange(bad + 1, records.len() as int);
    assert(records =~= before + one + after);
    assert(records.remove(bad) =~= before + after);
    lemma_load_concat(before + one, after);
    lemma_load_concat(before, one);
    lemma_load_concat(before, after);
    assert(one.drop_last() =~= Seq::<RecordView>::empty());
    assert(one.last() == records[bad]);
    assert(load_records(one.drop_last()) =~= Seq::<LayerView>::empty());
    assert(load_records(one) =~= Seq::<LayerView>::empty());
    assert(load_records(before) + load_records(one) =~= load_records(before));
    lemma_load_all_valid(before);
    lemma_load_all_valid(after);
    assert(load_records(records) =~= load_records(before) + load_records(after));
}

/// Saving a stack of layers and loading the records gives the stack again:
/// as many layers, in the same order, each with its mask and with its effect
/// under the same name and with the same parameters, in its first phase.
pub proof fn lemma_save_load_round_trip(layers: Seq<LayerView>)
    requires
        forall|i: int| 0 <= i < layers.len() ==> (#[trigger] layers[i]).mask.len() == KEYS,
    ensures
        load_records(save_layers(layers)) == restart_layers(layers),
        save_layers(restart_layers(layers)) == save_layers(layers),
        forall|i: int| 0 <= i < layers.len() ==> (#[trigger] save_layers(layers)[i]).fault() is None,
{
    let records = save_layers(layers);
    assert forall|i: int| 0 <= i < records.len() implies (#[trigger] records[i]).fault() is None
        && records[i].layer() == layers[i].restarted() && layers[i].restarted().record()
        == records[i] by {
        lemma_registry_round_trip(layers[i].effect);
    }
    lemma_load_all_valid(records);
    assert(load_records(records) =~= restart_layers(layers));
    assert(save_layers(restart_layers(layers)) =~= records);
}

/// A persisted layer: an effect's name and parameters, and the layer's mask.
#[derive(Clone, PartialEq, Eq, Debug)]
pub struct LayerRecord {
    pub name: String,
    pub args: Vec<u8>,
    pub key_mask: Vec<bool>,
}

impl View for LayerRecord {
    type V = RecordView;

    open spec fn view(&self) -> RecordView {
        RecordView { name: self.name@, args: self.args@, mask: self.key_mask@ }
    }
}

/// What each record of a run holds.
pub open spec fn record_views(records: Seq<LayerRecord>) -> Seq<RecordView> {
    Seq::new(records.len(), |i: int| records[i]@)
}

/// An effect together with the keys that it may paint.  Neither changes
/// place once the layer is made; only the effect's animation moves on.
#[derive(Clone, Copy, Debug)]
pub struct EffectLayer {
    key_mask: [bool; KEYS],
    effect: AnyEffect,
}

impl View for EffectLayer {
    type V = LayerView;

    closed spec fn view(&self) -> LayerView {
        LayerView { mask: self.key_mask@, effect: self.effect }
    }
}

/// What a layer that was made, or the fault in its place, is.
pub open spec fn made_view(made: Result<EffectLayer, InvalidLayerRecord>) -> Result<
    LayerView,
    InvalidLayerRecord,
> {
    match made {
        Ok(layer) => Ok(layer@),
        Err(e) => Err(e),
    }
}

/// What each layer of a stack is.
pub open spec fn layer_views(layers: Seq<EffectLayer>) -> Seq<LayerView> {
    Seq::new(layers.len(), |i: int| layers[i]@)
}

fn copy_bytes(bytes: &Vec<u8>) -> (copy: Vec<u8>)
    ensures
        copy@ == bytes@,
{
    let mut copy: Vec<u8> = Vec::new();
    let mut i: usize = 0;
    while i < bytes.len()
        invariant
            i <= bytes.len(),
            copy@ == bytes@.take(i as int),
        decreases bytes.len() - i,
    {
        copy.push(bytes[i]);
        assert(bytes@.take(i + 1) =~= bytes@.take(i as int).push(bytes@[i as int]));
        i = i + 1;
    }
    assert(bytes@.take(bytes.len() as int) =~= bytes@);
    copy
}

fn paint_layer(board: &mut KeyboardData, mask: &[bool; KEYS], frame: &KeyboardData)
    ensures
        final(board)@ == paint(old(board)@, mask@, frame@),
{
    let ghost before = board@;
    let mut k: usize = 0;
    while k < KEYS
        invariant
            k <= KEYS,
            before.len() == KEYS,
            board@.len() == KEYS,
            forall|j: int| 0 <= j < k ==> board@[j] == paint(before, mask@, frame@)[j],
            forall|j: int| k <= j < KEYS ==> board@[j] == before[j],
        decreases KEYS - k,
    {
        if mask[k] {
            board.set_key_at(k, frame.get_key_at(k));
        }
        k = k + 1;
    }
    assert(board@ =~= paint(before, mask@, frame@));
}

impl EffectLayer {
    /// A layer on which `effect` paints the keys that `mask` selects.
    pub fn new(effect: AnyEffect, mask: [bool; KEYS]) -> (layer: EffectLayer)
        ensures
            layer@ == (LayerView { mask: mask@, effect }),
            layer@.mask.len() == KEYS,
    {
        EffectLayer { key_mask: mask, effect }
    }

    /// Moves the effect on by one tick and gives its full frame.  The mask
    /// is not applied here: that is for whoever composites the layers.
    pub fn update(&mut self) -> (board: KeyboardData)
        ensures
            final(self)@ == old(self)@.ticked(),
            board@ == final(self)@.effect.frame(),
    {
        self.effect.update()
    }

    /// The record that persists the layer.
    pub fn get_record(&self) -> (record: LayerRecord)
        ensures
            record@ == self@.record(),
    {
        let saved = self.effect.save();
        LayerRecord { name: saved.name, args: saved.args, key_mask: self.get_mask() }
    }

    /// Makes the layer that a record describes.  A record is refused where
    /// its mask has not one entry per key, where no effect is registered
    /// under its name, or where that effect does not accept its parameters.
    pub fn from_record(record: &LayerRecord) -> (made: Result<EffectLayer, InvalidLayerRecord>)
        ensures
            made_view(made) == record@.made(),
    {
        if record.key_mask.len() != KEYS {
            return Err(InvalidLayerRecord::WrongMaskLength);
        }
        let effect = match AnyEffect::from_name(record.name.as_str(), copy_bytes(&record.args)) {
            Ok(effect) => effect,
            Err(EffectError::UnknownEffectName) => {
                return Err(InvalidLayerRecord::UnknownEffectName);
            },
            Err(EffectError::InvalidParameters) => {
                return Err(InvalidLayerRecord::InvalidParameters);
            },
        };
        let mut mask: [bool; KEYS] = [false; KEYS];
        let mut k: usize = 0;
        while k < KEYS
            invariant
                k <= KEYS,
                record.key_mask@.len() == KEYS,
                forall|j: int| 0 <= j < k ==> mask@[j] == record.key_mask@[j],
            decreases KEYS - k,
        {
            mask[k] = record.key_mask[k];
            k = k + 1;
        }
        assert(mask@ =~= record.key_mask@);
        Ok(EffectLayer { key_mask: mask, effect })
    }

    /// The frame that the layer's effect shows now, as bytes.
    pub fn get_state(&self) -> (bytes: Vec<u8>)
        ensures
            bytes@ == colour_bytes(self@.effect.frame()),
    {
        self.effect.get_state()
    }

    /// The layer's mask: one entry per key.
    pub fn get_mask(&self) -> (mask: Vec<bool>)
        ensures
            mask@ == self@.mask,
            mask@.len() == KEYS,
    {
        let mut mask: Vec<bool> = Vec::new();
        let mut k: usize = 0;
        while k < KEYS
            invariant
                k <= KEYS,
                mask@.len() == k,
                forall|j: int| 0 <= j < k ==> mask@[j] == self.key_mask@[j],
            decreases KEYS - k,
        {
            mask.push(self.key_mask[k]);
            k = k + 1;
        }
        assert(mask@ =~= self.key_mask@);
        mask
    }
}

/// A layer's mask has one entry per key.
pub proof fn lemma_layer_mask_len(layer: EffectLayer)
    ensures
        layer@.mask.len() == KEYS,
{
}

/// What an effect manager is: its stack of layers, the oldest first, the
/// frame it last composited, and when it did so.
pub struct ManagerView {
    pub layers: Seq<LayerView>,
    pub board: Seq<KeyColour>,
    pub last_update_ms: u128,
}

impl ManagerView {
    /// The board has one colour per key, and every mask one entry per key.
    pub open spec fn wf(self) -> bool {
        &&& self.board.len() == KEYS
        &&& forall|i: int| 0 <= i < self.layers.len() ==> (#[trigger] self.layers[i]).mask.len() == KEYS
    }

    /// A manager without layers, with every key dark, made at `now_ms`.
    pub open spec fn empty(now_ms: u128) -> ManagerView {
        ManagerView {
            layers: Seq::empty(),
            board: uniform_frame(KeyColour::black()),
            last_update_ms: now_ms,
        }
    }

    /// The manager with `layer` on top of its stack.
    pub open spec fn push(self, layer: LayerView) -> ManagerView {
        ManagerView {
            layers: self.layers.push(layer),
            board: self.board,
            last_update_ms: self.last_update_ms,
        }
    }

    /// The manager without its newest layer.  Without any layer it stays as
    /// it is; when its last layer goes, every key goes dark.
    pub open spec fn pop(self) -> ManagerView {
        if self.layers.len() == 0 {
            self
        } else {
            ManagerView {
                layers: self.layers.drop_last(),
                board: if self.layers.len() == 1 {
                    uniform_frame(KeyColour::black())
                } else {
                    self.board
                },
                last_update_ms: self.last_update_ms,
            }
        }
    }

    /// The manager after the tick at time `now_ms`.  Without any layer it
    /// stays as it is.  Otherwise every effect moves on by one tick and the
    /// layers paint their frames on the board, the oldest first.
    pub open spec fn tick(self, now_ms: u128) -> ManagerView {
        if self.layers.len() == 0 {
            self
        } else {
            ManagerView {
                layers: tick_layers(self.layers),
                board: composite(self.board, tick_layers(self.layers)),
                last_update_ms: now_ms,
            }
        }
    }

    /// What is shown, as bytes: for a negative `layer_id` the composited
    /// frame, for any other the frame of the layer at that position of the
    /// stack, and `None` where there is no such layer.
    pub open spec fn shown(self, layer_id: int) -> Option<Seq<u8>> {
        if layer_id < 0 {
            Some(colour_bytes(self.board))
        } else if layer_id < self.layers.len() {
            Some(colour_bytes(self.layers[layer_id].effect.frame()))
        } else {
            None
        }
    }

    /// The manager with the layers of the valid records on top of its stack.
    pub open spec fn load(self, records: Seq<RecordView>) -> ManagerView {
        ManagerView {
            layers: self.layers + load_records(records),
            board: self.board,
            last_update_ms: self.last_update_ms,
        }
    }
}

/// Owns the stack of effect layers and the frame composited from them.
pub struct EffectManager {
    layers: Vec<EffectLayer>,
    last_update_ms: u128,
    render_board: KeyboardData,
}

impl View for EffectManager {
    type V = ManagerView;

    closed spec fn view(&self) -> ManagerView {
        ManagerView {
            layers: layer_views(self.layers@),
            board: self.render_board@,
            last_update_ms: self.last_update_ms,
        }
    }
}

/// A manager's board has one colour per key, and each of its masks one
/// entry per key.
pub proof fn lemma_manager_wf(manager: EffectManager)
    ensures
        manager@.wf(),
{
}

impl EffectManager {
    /// A manager without layers, with every key dark, made at time `now_ms`.
    pub fn new_at(now_ms: u128) -> (manager: EffectManager)
        ensures
            manager@ == ManagerView::empty(now_ms),
            manager@.wf(),
    {
        let manager = EffectManager {
            layers: Vec::new(),
            last_update_ms: now_ms,
            render_board: KeyboardData::new(),
        };
        assert(manager@.layers =~= Seq::<LayerView>::empty());
        manager
    }

    /// A manager without layers, with every key dark:
    /// [`EffectManager::new_at`] at the time that the system clock gives.
    pub fn new() -> (manager: EffectManager)
        ensures
            exists|now_ms: u128| manager@ == #[trigger] ManagerView::empty(now_ms),
            manager@.wf(),
    {
        Self::new_at(get_millis())
    }

    /// Puts a new layer on top of the stack.
    pub fn push_effect(&mut self, effect: AnyEffect, mask: [bool; KEYS])
        ensures
            final(self)@ == old(self)@.push(LayerView { mask: mask@, effect }),
            final(self)@.wf(),
    {
        self.layers.push(EffectLayer::new(effect, mask));
        assert(self@.layers =~= old(self)@.layers.push(LayerView { mask: mask@, effect }));
    }

    /// Takes the newest layer off the stack.  Where that was the last one,
    /// every key goes dark and the dark frame is handed out, to be pushed to
    /// the hardware.  On a manager without layers nothing happens.
    pub fn pop_effect(&mut self) -> (frame: Option<KeyboardData>)
        ensures
            final(self)@ == old(self)@.pop(),
            final(self)@.wf(),
            old(self)@.layers.len() == 0 ==> final(self)@ == old(self)@,
            old(self)@.layers.len() == 1 ==> final(self)@.layers.len() == 0 && final(self)@.board
                == uniform_frame(KeyColour::black()),
            frame is Some <==> old(self)@.layers.len() == 1,
            frame matches Some(board) ==> board@ == uniform_frame(KeyColour::black()),
    {
        if self.layers.len() == 0 {
            return None;
        }
        self.layers.pop();
        assert(self@.layers =~= old(self)@.layers.drop_last());
        if self.layers.len() == 0 {
            self.render_board.set_kbd_colour(0, 0, 0);
            Some(self.render_board)
        } else {
            None
        }
    }

    /// Recomposites the frame at time `now_ms`.  Every effect moves on by
    /// one tick, and the layers paint their frames on the board, the oldest
    /// first: at each key the newest layer whose mask selects the key wins,
    /// and a key that no layer selects keeps its colour.  The new frame is
    /// handed out, to be pushed to the hardware.  On a manager without
    /// layers nothing happens.
    pub fn update_at(&mut self, now_ms: u128) -> (frame: Option<KeyboardData>)
        ensures
            final(self)@ == old(self)@.tick(now_ms),
            final(self)@.wf(),
            old(self)@.layers.len() == 0 ==> final(self)@ == old(self)@,
            frame is Some <==> old(self)@.layers.len() > 0,
            frame matches Some(board) ==> board@ == final(self)@.board,
            forall|k: int|
                0 <= k < KEYS ==> #[trigger] final(self)@.board[k] == (match painter(
                    final(self)@.layers,
                    k,
                ) {
                    Some(j) => final(self)@.layers[j].effect.frame()[k],
                    None => old(self)@.board[k],
                }),
    {
        let n = self.layers.len();
        let ghost base = self.render_board@;
        let ghost before = layer_views(self.layers@);
        let ghost target = tick_layers(before);
        if n == 0 {
            assert forall|k: int| 0 <= k < KEYS implies painter(self@.layers, k) is None by {}
            return None;
        }
        let mut i: usize = 0;
        while i < n
            invariant
                i <= n,
                n == self.layers@.len(),
                before.len() == n,
                target == tick_layers(before),
                self.last_update_ms == old(self).last_update_ms,
                forall|j: int| 0 <= j < i ==> (#[trigger] self.layers@[j])@ == target[j],
                forall|j: int| i <= j < n ==> (#[trigger] self.layers@[j])@ == before[j],
                self.render_board@ == composite(base, target.take(i as int)),
            decreases n - i,
        {
            let mut layer = self.layers[i];
            let frame = layer.update();
            self.layers.set(i, layer);
            paint_layer(&mut self.render_board, &layer.key_mask, &frame);
            assert(target.take(i + 1).drop_last() =~= target.take(i as int));
            assert(target.take(i + 1).last() == target[i as int]);
            i = i + 1;
        }
        self.last_update_ms = now_ms;
        assert(target.take(n as int) =~= target);
        assert(self@.layers =~= target);
        assert forall|k: int| 0 <= k < KEYS implies #[trigger] self@.board[k] == (match painter(
            self@.layers,
            k,
        ) {
            Some(j) => self@.layers[j].effect.frame()[k],
            None => old(self)@.board[k],
        }) by {
            lemma_composite_newest_wins(base, target, k);
        }
        Some(self.render_board)
    }

    /// Recomposites the frame now: [`EffectManager::update_at`] at the time
    /// that the system clock gives.
    pub fn update(&mut self) -> (frame: Option<KeyboardData>)
        ensures
            exists|now_ms: u128| final(self)@ == #[trigger] old(self)@.tick(now_ms),
            final(self)@.wf(),
            old(self)@.layers.len() == 0 ==> final(self)@ == old(self)@,
            frame is Some <==> old(self)@.layers.len() > 0,
            frame matches Some(board) ==> board@ == final(self)@.board,
            forall|k: int|
                0 <= k < KEYS ==> #[trigger] final(self)@.board[k] == (match painter(
                    final(self)@.layers,
                    k,
                ) {
                    Some(j) => final(self)@.layers[j].effect.frame()[k],
                    None => old(self)@.board[k],
                }),
    {
        let now_ms = get_millis();
        self.update_at(now_ms)
    }

    /// The records that persist the layer stack, in stack order.
    pub fn save_records(&self) -> (records: Vec<LayerRecord>)
        ensures
            record_views(records@) == save_layers(self@.layers),
    {
        let mut records: Vec<LayerRecord> = Vec::new();
        let mut i: usize = 0;
        while i < self.layers.len()
            invariant
                i <= self.layers@.len(),
                records@.len() == i,
                forall|j: int| 0 <= j < i ==> (#[trigger] records@[j])@ == self.layers@[j]@.record(),
            decreases self.layers.len() - i,
        {
            records.push(self.layers[i].get_record());
            i = i + 1;
        }
        assert(record_views(records@) =~= save_layers(self@.layers));
        records
    }

    /// Puts the layers that the records describe on top of the stack, in
    /// the records' order.  An invalid record is skipped and the rest is
    /// loaded.  The layers that were there stay.  The number of records
    /// that were skipped is returned.
    pub fn load_records(&mut self, records: &Vec<LayerRecord>) -> (skipped: usize)
        ensures
            final(self)@ == old(self)@.load(record_views(records@)),
            final(self)@.wf(),
            skipped == records@.len() - load_records(record_views(records@)).len(),
    {
        let ghost views = record_views(records@);
        let mut skipped: usize = 0;
        let mut i: usize = 0;
        assert(views.take(0) =~= Seq::<RecordView>::empty());
        assert(self@.layers + load_records(views.take(0)) =~= self@.layers);
        while i < records.len()
            invariant
                i <= records@.len(),
                views == record_views(records@),
                self.last_update_ms == old(self).last_update_ms,
                self.render_board == old(self).render_board,
                self@.layers == old(self)@.layers + load_records(views.take(i as int)),
                skipped == i - load_records(views.take(i as int)).len(),
            decreases records.len() - i,
        {
            let ghost stack = self@.layers;
            assert(views.take(i + 1).drop_last() =~= views.take(i as int));
            assert(views.take(i + 1).last() == records@[i as int]@);
            match EffectLayer::from_record(&records[i]) {
                Ok(layer) => {
                    self.layers.push(layer);
                    assert(self@.layers =~= stack.push(layer@));
                    assert(self@.layers =~= old(self)@.layers + load_records(views.take(i + 1)));
                },
                Err(_) => {
                    skipped = skipped + 1;
                },
            }
            i = i + 1;
        }
        assert(views.take(records@.len() as int) =~= views);
        skipped
    }

    /// What is shown, as bytes.  A negative `layer_id` asks for the
    /// composited frame, any other for the frame of the layer at that
    /// position of the stack, 0 being the oldest; where there is no such
    /// layer the answer is `None`.
    pub fn get_map(&self, layer_id: i32) -> (bytes: Option<Vec<u8>>)
        ensures
            bytes is Some <==> self@.shown(layer_id as int) is Some,
            bytes matches Some(b) ==> self@.shown(layer_id as int) == Some(b@),
    {
        if layer_id < 0 {
            Some(self.render_board.get_curr_state())
        } else if (layer_id as usize) < self.layers.len() {
            Some(self.layers[layer_id as usize].get_state())
        } else {
            None
        }
    }

    /// The number of layers on the stack.
    pub fn layer_count(&self) -> (count: usize)
        ensures
            count == self@.layers.len(),
    {
        self.layers.len()
    }

    /// The frame that was last composited.
    pub fn render_board(&self) -> (board: KeyboardData)
        ensures
            board@ == self@.board,
    {
        self.render_board
    }

    /// The time of the last recomposition, in milliseconds.
    pub fn last_update_ms(&self) -> (millis: u128)
        ensures
            millis == self@.last_update_ms,
    {
        self.last_update_ms
    }
}

} // verus!
