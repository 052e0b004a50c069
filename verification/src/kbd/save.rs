//! The layer stack as JSON: `{ "effects": [ { "args", "name", "key_mask" }, .. ] }`.

use vstd::prelude::*;
use vstd::string::StringExecFns;
use serde_json::Value;
use crate::kbd::board::KEYS;
use crate::kbd::EffectLayer;
use crate::kbd::EffectManager;
use crate::kbd::InvalidLayerRecord;
use crate::kbd::LayerRecord;
use crate::kbd::LayerView;
use crate::kbd::ManagerView;
use crate::kbd::RecordView;
use crate::kbd::lemma_save_load_round_trip;
use crate::kbd::load_records;
use crate::kbd::made_view;
use crate::kbd::record_views;
use crate::kbd::restart_layers;
use crate::kbd::save_layers;

verus! {

/// What a JSON value is.
pub enum Json {
    Null,
    Bool(bool),
    /// A number that is an integer.
    Integer(int),
    /// Any other number.
    Real,
    String(Seq<char>),
    Array(Seq<Json>),
    Object(Map<Seq<char>, Json>),
}

impl Json {
    /// The member `key` of an object, and null where the object has no such
    /// member or the value is no object.
    pub open spec fn field(self, key: Seq<char>) -> Json {
        match self {
            Json::Object(members) => if members.dom().contains(key) {
                members[key]
            } else {
                Json::Null
            },
            _ => Json::Null,
        }
    }

    /// The members of an object, and none for any other value.
    pub open spec fn members(self) -> Map<Seq<char>, Json> {
        match self {
            Json::Object(members) => members,
            _ => Map::empty(),
        }
    }
}

/// `serde_json::Value`, any JSON value.  What one holds is known only
/// through [`json_model`].
#[verifier::external_type_specification]
#[verifier::external_body]
pub struct ExValue(Value);

/// What a `serde_json::Value` holds: null, a boolean, a string, an array of
/// values or an object of named values as they stand in it, and for a number
/// the integer it holds, or [`Json::Real`] where it holds a float.
pub uninterp spec fn json_model(v: Value) -> Json;

/// What each value of a run holds.
pub open spec fn json_models(values: Seq<Value>) -> Seq<Json> {
    Seq::new(values.len(), |i: int| json_model(values[i]))
}

/// `Value`'s index by a string, and `clone`: a copy of the member `key` of
/// an object, and null where there is no such member or `v` is no object.
#[verifier::external_body]
fn json_get(v: &Value, key: &str) -> (field: Value)
    ensures
        json_model(field) == json_model(*v).field(key@),
{
    v[key].clone()
}

/// `Value::as_array`, copied: the items of an array, and `None` for any
/// other value.
#[verifier::external_body]
fn json_as_array(v: &Value) -> (items: Option<Vec<Value>>)
    ensures
        match items {
            Some(list) => json_model(*v) == Json::Array(json_models(list@)),
            None => !(json_model(*v) is Array),
        },
{
    v.as_array().cloned()
}

/// `Value::as_bool`: the boolean that `v` is, and `None` for any other
/// value.
#[verifier::external_body]
fn json_as_bool(v: &Value) -> (b: Option<bool>)
    ensures
        match b {
            Some(x) => json_model(*v) == Json::Bool(x),
            None => !(json_model(*v) is Bool),
        },
{
    v.as_bool()
}

/// `Value::as_u64`: the integer that `v` is, where it is one from 0 to
/// `u64::MAX`, and `None` for any other value.
#[verifier::external_body]
fn json_as_u64(v: &Value) -> (n: Option<u64>)
    ensures
        match n {
            Some(x) => json_model(*v) == Json::Integer(x as int),
            None => !(json_model(*v) matches Json::Integer(i) && 0 <= i <= u64::MAX),
        },
{
    v.as_u64()
}

/// `Value::as_str`, copied: the string that `v` is, and `None` for any
/// other value.
#[verifier::external_body]
fn json_as_string(v: &Value) -> (s: Option<String>)
    ensures
        match s {
            Some(x) => json_model(*v) == Json::String(x@),
            None => !(json_model(*v) is String),
        },
{
    match v.as_str() {
        Some(s) => Some(s.to_owned()),
        None => None,
    }
}

/// The variant `Value::Bool`.
#[verifier::external_body]
fn json_bool(b: bool) -> (v: Value)
    ensures
        json_model(v) == Json::Bool(b),
{
    Value::Bool(b)
}

/// `Value::from` a `u8`: the number that holds this integer.
#[verifier::external_body]
fn json_byte(n: u8) -> (v: Value)
    ensures
        json_model(v) == Json::Integer(n as int),
{
    Value::from(n)
}

/// The variant `Value::String`.
#[verifier::external_body]
fn json_string(s: String) -> (v: Value)
    ensures
        json_model(v) == Json::String(s@),
{
    Value::String(s)
}

/// The variant `Value::Array`.
#[verifier::external_body]
fn json_array(items: Vec<Value>) -> (v: Value)
    ensures
        json_model(v) == Json::Array(json_models(items@)),
{
    Value::Array(items)
}

/// The variant `Value::Object` of `Map::new`: an object without members.
#[verifier::external_body]
fn json_object() -> (v: Value)
    ensures
        json_model(v) == Json::Object(Map::<Seq<char>, Json>::empty()),
{
    Value::Object(serde_json::Map::new())
}

/// `Map::insert` on the members of an object: the member `key` is `item`
/// from now on, whether or not there was one before.
#[verifier::external_body]
fn json_insert(object: &mut Value, key: String, item: Value)
    requires
        json_model(*old(object)) is Object,
    ensures
        json_model(*final(object)) == Json::Object(
            json_model(*old(object)).members().insert(key@, json_model(item)),
        ),
{
    if let Some(members) = object.as_object_mut() {
        members.insert(key, item);
    }
}

/// A mask as JSON: an array of booleans.
pub open spec fn bools_json(mask: Seq<bool>) -> Json {
    Json::Array(Seq::new(mask.len(), |i: int| Json::Bool(mask[i])))
}

/// A parameter vector as JSON: an array of integers.
pub open spec fn bytes_json(args: Seq<u8>) -> Json {
    Json::Array(Seq::new(args.len(), |i: int| Json::Integer(args[i] as int)))
}

/// A layer record as JSON: an object with the members `args`, `name` and
/// `key_mask`.
pub open spec fn record_json(record: RecordView) -> Json {
    Json::Object(
        Map::<Seq<char>, Json>::empty().insert("args"@, bytes_json(record.args)).insert(
            "name"@,
            Json::String(record.name),
        ).insert("key_mask"@, bools_json(record.mask)),
    )
}

/// The mask that a JSON value holds: it is an array of booleans.
pub open spec fn json_bools(j: Json) -> Option<Seq<bool>> {
    match j {
        Json::Array(items) => if forall|i: int| 0 <= i < items.len() ==> (#[trigger] items[i]) is Bool {
            Some(Seq::new(items.len(), |i: int| items[i]->Bool_0))
        } else {
            None
        },
        _ => None,
    }
}

/// Whether a JSON value is an integer from 0 to 255.
pub open spec fn is_byte(j: Json) -> bool {
    j matches Json::Integer(i) && 0 <= i <= 255
}

/// The parameter vector that a JSON value holds: it is an array of integers
/// from 0 to 255.
pub open spec fn json_bytes(j: Json) -> Option<Seq<u8>> {
    match j {
        Json::Array(items) => if forall|i: int| 0 <= i < items.len() ==> is_byte(#[trigger] items[i]) {
            Some(Seq::new(items.len(), |i: int| items[i]->Integer_0 as u8))
        } else {
            None
        },
        _ => None,
    }
}

/// The string that a JSON value is.
pub open spec fn json_text(j: Json) -> Option<Seq<char>> {
    match j {
        Json::String(text) => Some(text),
        _ => None,
    }
}

/// The layer record that a JSON value holds: its member `name` is a string,
/// `args` an array of integers from 0 to 255 and `key_mask` an array of
/// booleans.  A value that lacks one of them holds none.
pub open spec fn json_record(j: Json) -> Option<RecordView> {
    match (json_text(j.field("name"@)), json_bytes(j.field("args"@)), json_bools(j.field("key_mask"@))) {
        (Some(name), Some(args), Some(mask)) => Some(RecordView { name, args, mask }),
        _ => None,
    }
}

/// What a record that may be missing holds.
pub open spec fn record_view(record: Option<LayerRecord>) -> Option<RecordView> {
    match record {
        Some(r) => Some(r@),
        None => None,
    }
}

/// The layer that a JSON value makes, or why it makes none.
pub open spec fn json_layer(j: Json) -> Result<LayerView, InvalidLayerRecord> {
    match json_record(j) {
        Some(record) => record.made(),
        None => Err(InvalidLayerRecord::MissingFields),
    }
}

/// The layer records among the items of an array, in the items' order.
pub open spec fn typed_records(items: Seq<Json>) -> Seq<RecordView>
    decreases items.len(),
{
    if items.len() == 0 {
        Seq::empty()
    } else {
        match json_record(items.last()) {
            Some(record) => typed_records(items.drop_last()).push(record),
            None => typed_records(items.drop_last()),
        }
    }
}

/// A run of layer records as JSON items.
pub open spec fn records_json(records: Seq<RecordView>) -> Seq<Json> {
    Seq::new(records.len(), |i: int| record_json(records[i]))
}

/// A run of layer records in the form in which they are kept: an object
/// whose member `effects` is the array of the records.
pub open spec fn effects_json(records: Seq<RecordView>) -> Json {
    Json::Object(
        Map::<Seq<char>, Json>::empty().insert("effects"@, Json::Array(records_json(records))),
    )
}

/// A layer stack as JSON: an object whose member `effects` is the array of
/// the layers' records, in stack order.
pub open spec fn save_json(layers: Seq<LayerView>) -> Json {
    effects_json(save_layers(layers))
}

/// A manager after loading a JSON value.  Where the member `effects` is an
/// array, the layers of its valid records come on top of the stack; where
/// it is not, the manager stays as it is.
pub open spec fn load_json(manager: ManagerView, j: Json) -> ManagerView {
    match j.field("effects"@) {
        Json::Array(items) => manager.load(typed_records(items)),
        _ => manager,
    }
}

/// How many items a load of a JSON value skips: those of the array
/// `effects` that make no layer.  Where `effects` is missing or no array,
/// the load is refused.
pub open spec fn load_skips(j: Json) -> Result<int, InvalidLayerRecord> {
    match j.field("effects"@) {
        Json::Array(items) => Ok(items.len() - load_records(typed_records(items)).len()),
        _ => Err(InvalidLayerRecord::MissingFields),
    }
}

/// What a count of skipped items, or the refusal in its place, holds.
pub open spec fn skipped_view(skipped: Result<usize, InvalidLayerRecord>) -> Result<
    int,
    InvalidLayerRecord,
> {
    match skipped {
        Ok(n) => Ok(n as int),
        Err(e) => Err(e),
    }
}

/// The member names of a record differ from one another.
proof fn lemma_member_names_distinct()
    ensures
        "args"@ != "name"@,
        "args"@ != "key_mask"@,
        "name"@ != "key_mask"@,
{
    reveal_strlit("args");
    reveal_strlit("name");
    reveal_strlit("key_mask");
    assert("args"@[0] == 'a');
    assert("name"@[0] == 'n');
    assert("key_mask"@.len() == 8);
    assert("args"@.len() == 4);
    assert("name"@.len() == 4);
}

/// The JSON form of a layer record holds that record.
pub proof fn lemma_record_json_round_trip(record: RecordView)
    ensures
        json_record(record_json(record)) == Some(record),
{
    lemma_member_names_distinct();
    let j = record_json(record);
    assert(j.field("name"@) == Json::String(record.name));
    assert(j.field("args"@) == bytes_json(record.args));
    assert(j.field("key_mask"@) == bools_json(record.mask));
    assert(json_bytes(bytes_json(record.args)) == Some(record.args)) by {
        let items = bytes_json(record.args)->Array_0;
        assert forall|i: int| 0 <= i < items.len() implies is_byte(#[trigger] items[i]) by {}
        assert(Seq::new(items.len(), |i: int| items[i]->Integer_0 as u8) =~= record.args);
    }
    assert(json_bools(bools_json(record.mask)) == Some(record.mask)) by {
        let items = bools_json(record.mask)->Array_0;
        assert(Seq::new(items.len(), |i: int| items[i]->Bool_0) =~= record.mask);
    }
}

/// The JSON forms of a run of records hold those records.
pub proof fn lemma_records_json_round_trip(records: Seq<RecordView>)
    ensures
        typed_records(records_json(records)) == records,
    decreases records.len(),
{
    let items = records_json(records);
    if records.len() > 0 {
        lemma_records_json_round_trip(records.drop_last());
        lemma_record_json_round_trip(records.last());
        assert(items.drop_last() =~= records_json(records.drop_last()));
        assert(items.last() == record_json(records.last()));
        assert(typed_records(items) =~= records);
    } else {
        assert(typed_records(items) =~= records);
    }
}

/// Loading the JSON form of a run of records does what loading the records
/// does: the layers of the valid records come on top of the stack, in the
/// records' order, and an invalid record is skipped.
pub proof fn lemma_load_effects_json(manager: ManagerView, records: Seq<RecordView>)
    ensures
        load_json(manager, effects_json(records)) == manager.load(records),
{
    lemma_records_json_round_trip(records);
    assert(effects_json(records).field("effects"@) == Json::Array(records_json(records)));
}

/// Saving a stack of layers as JSON and loading that JSON into a manager
/// without layers gives the stack again: as many layers, in the same order,
/// each with its mask and with its effect under the same name and with the
/// same parameters, in its first phase.
pub proof fn lemma_save_then_load(manager: ManagerView, layers: Seq<LayerView>)
    requires
        manager.layers.len() == 0,
        forall|i: int| 0 <= i < layers.len() ==> (#[trigger] layers[i]).mask.len() == KEYS,
    ensures
        load_json(manager, save_json(layers)).layers == restart_layers(layers),
        load_json(manager, save_json(layers)).board == manager.board,
        save_json(load_json(manager, save_json(layers)).layers) == save_json(layers),
{
    lemma_load_effects_json(manager, save_layers(layers));
    lemma_save_load_round_trip(layers);
    assert(manager.layers + restart_layers(layers) =~= restart_layers(layers));
}

fn bools_to_json(mask: &Vec<bool>) -> (v: Value)
    ensures
        json_model(v) == bools_json(mask@),
{
    let mut items: Vec<Value> = Vec::new();
    let mut i: usize = 0;
    while i < mask.len()
        invariant
            i <= mask@.len(),
            items@.len() == i,
            forall|j: int| 0 <= j < i ==> json_model(#[trigger] items@[j]) == Json::Bool(mask@[j]),
        decreases mask.len() - i,
    {
        items.push(json_bool(mask[i]));
        i = i + 1;
    }
    assert(json_models(items@) =~= Seq::new(mask@.len(), |i: int| Json::Bool(mask@[i])));
    json_array(items)
}

fn bytes_to_json(args: &Vec<u8>) -> (v: Value)
    ensures
        json_model(v) == bytes_json(args@),
{
    let mut items: Vec<Value> = Vec::new();
    let mut i: usize = 0;
    while i < args.len()
        invariant
            i <= args@.len(),
            items@.len() == i,
            forall|j: int|
                0 <= j < i ==> json_model(#[trigger] items@[j]) == Json::Integer(args@[j] as int),
        decreases args.len() - i,
    {
        items.push(json_byte(args[i]));
        i = i + 1;
    }
    assert(json_models(items@) =~= Seq::new(args@.len(), |i: int| Json::Integer(args@[i] as int)));
    json_array(items)
}

fn bools_from_json(v: &Value) -> (mask: Option<Vec<bool>>)
    ensures
        mask is Some <==> json_bools(json_model(*v)) is Some,
        mask matches Some(m) ==> json_bools(json_model(*v)) == Some(m@),
{
    let items = match json_as_array(v) {
        Some(items) => items,
        None => {
            return None;
        },
    };
    let ghost models = json_models(items@);
    let mut mask: Vec<bool> = Vec::new();
    let mut i: usize = 0;
    while i < items.len()
        invariant
            i <= items@.len(),
            models == json_models(items@),
            json_model(*v) == Json::Array(models),
            mask@.len() == i,
            forall|j: int| 0 <= j < i ==> (#[trigger] models[j]) == Json::Bool(mask@[j]),
        decreases items.len() - i,
    {
        match json_as_bool(&items[i]) {
            Some(b) => {
                mask.push(b);
            },
            None => {
                assert(!(models[i as int] is Bool));
                return None;
            },
        }
        i = i + 1;
    }
    assert(mask@ =~= Seq::new(models.len(), |i: int| models[i]->Bool_0));
    Some(mask)
}

fn bytes_from_json(v: &Value) -> (args: Option<Vec<u8>>)
    ensures
        args is Some <==> json_bytes(json_model(*v)) is Some,
        args matches Some(a) ==> json_bytes(json_model(*v)) == Some(a@),
{
    let items = match json_as_array(v) {
        Some(items) => items,
        None => {
            return None;
        },
    };
    let ghost models = json_models(items@);
    let mut args: Vec<u8> = Vec::new();
    let mut i: usize = 0;
    while i < items.len()
        invariant
            i <= items@.len(),
            models == json_models(items@),
            json_model(*v) == Json::Array(models),
            args@.len() == i,
            forall|j: int| 0 <= j < i ==> (#[trigger] models[j]) == Json::Integer(args@[j] as int),
        decreases items.len() - i,
    {
        match json_as_u64(&items[i]) {
            Some(n) => {
                if n > 255 {
                    assert(!is_byte(models[i as int]));
                    return None;
                }
                args.push(n as u8);
            },
            None => {
                assert(!is_byte(models[i as int]));
                return None;
            },
        }
        i = i + 1;
    }
    assert forall|j: int| 0 <= j < models.len() implies is_byte(#[trigger] models[j]) by {}
    assert(args@ =~= Seq::new(models.len(), |i: int| models[i]->Integer_0 as u8));
    Some(args)
}

/// A layer record as JSON.
pub fn record_to_json(record: &LayerRecord) -> (v: Value)
    ensures
        json_model(v) == record_json(record@),
{
    let mut object = json_object();
    json_insert(&mut object, String::from_str("args"), bytes_to_json(&record.args));
    json_insert(&mut object, String::from_str("name"), json_string(record.name.clone()));
    json_insert(&mut object, String::from_str("key_mask"), bools_to_json(&record.key_mask));
    object
}

/// The layer record that a JSON value holds, if it holds one.
pub fn record_from_json(v: &Value) -> (record: Option<LayerRecord>)
    ensures
        record_view(record) == json_record(json_model(*v)),
{
    let name = json_as_string(&json_get(v, "name"));
    let args = bytes_from_json(&json_get(v, "args"));
    let key_mask = bools_from_json(&json_get(v, "key_mask"));
    match (name, args, key_mask) {
        (Some(name), Some(args), Some(key_mask)) => Some(LayerRecord { name, args, key_mask }),
        _ => None,
    }
}

impl EffectLayer {
    /// The layer as JSON: its record, as an object.
    pub fn get_save(&self) -> (v: Value)
        ensures
            json_model(v) == record_json(self@.record()),
    {
        record_to_json(&self.get_record())
    }

    /// Makes the layer that a JSON value describes.  A value is refused
    /// where it lacks a name, parameters or a mask, where the mask has not
    /// one entry per key, where no effect is registered under the name, or
    /// where that effect does not accept the parameters.
    pub fn from_save(json: &Value) -> (made: Result<EffectLayer, InvalidLayerRecord>)
        ensures
            made_view(made) == json_layer(json_model(*json)),
    {
        match record_from_json(json) {
            Some(record) => EffectLayer::from_record(&record),
            None => Err(InvalidLayerRecord::MissingFields),
        }
    }
}

impl EffectManager {
    /// The layer stack as JSON: an object whose member `effects` holds the
    /// layers' records, in stack order.
    pub fn save(&self) -> (v: Value)
        ensures
            json_model(v) == save_json(self@.layers),
    {
        let records = self.save_records();
        let mut items: Vec<Value> = Vec::new();
        let mut i: usize = 0;
        while i < records.len()
            invariant
                i <= records@.len(),
                items@.len() == i,
                forall|j: int|
                    0 <= j < i ==> json_model(#[trigger] items@[j]) == record_json(records@[j]@),
            decreases records.len() - i,
        {
            items.push(record_to_json(&records[i]));
            i = i + 1;
        }
        assert(json_models(items@) =~= records_json(record_views(records@)));
        let mut object = json_object();
        json_insert(&mut object, String::from_str("effects"), json_array(items));
        object
    }

    /// Loads the layers that a JSON value describes.  Its member `effects`
    /// is an array of records; the layer of each valid record comes on top
    /// of the stack, in the array's order, an item that makes no layer is
    /// skipped, and the layers that were there stay.  The number of items
    /// that were skipped is returned.  Where `effects` is missing or no
    /// array, nothing is loaded.
    pub fn load_from_save(&mut self, json: &Value) -> (skipped: Result<usize, InvalidLayerRecord>)
        ensures
            final(self)@ == load_json(old(self)@, json_model(*json)),
            final(self)@.wf(),
            skipped_view(skipped) == load_skips(json_model(*json)),
    {
        let effects = json_get(json, "effects");
        let items = match json_as_array(&effects) {
            Some(items) => items,
            None => {
                proof {
                    crate::kbd::lemma_manager_wf(*self);
                }
                return Err(InvalidLayerRecord::MissingFields);
            },
        };
        let ghost models = json_models(items@);
        let mut records: Vec<LayerRecord> = Vec::new();
        let mut i: usize = 0;
        assert(models.take(0) =~= Seq::<Json>::empty());
        assert(record_views(records@) =~= Seq::<RecordView>::empty());
        while i < items.len()
            invariant
                i <= items@.len(),
                models == json_models(items@),
                records@.len() <= i,
                record_views(records@) == typed_records(models.take(i as int)),
            decreases items.len() - i,
        {
            assert(models.take(i + 1).drop_last() =~= models.take(i as int));
            assert(models.take(i + 1).last() == json_model(items@[i as int]));
            let ghost before = record_views(records@);
            match record_from_json(&items[i]) {
                Some(record) => {
                    records.push(record);
                    assert(record_views(records@) =~= before.push(record@));
                },
                None => {},
            }
            i = i + 1;
        }
        assert(models.take(items@.len() as int) =~= models);
        let untyped: usize = items.len() - records.len();
        let invalid = self.load_records(&records);
        Ok(untyped + invalid)
    }
}

} // verus!
