//! AMF0 values: the tagged values that RTMP commands and metadata are made of.
//!
//! The byte format itself is the business of the `rml_amf0` crate, which the
//! `codec` module calls. This module holds the value tree that the rest of the
//! library computes on, and its mathematical model.

use vstd::prelude::*;

pub mod codec;
pub mod number;

verus! {

/// One AMF0 value.
///
/// A number is an IEEE-754 binary64 value, held as its bit pattern. An object
/// lists its properties in order; where a name occurs twice the later entry is
/// the property's value.
#[derive(Debug, PartialEq)]
pub enum AmfValue {
    Number(u64),
    Boolean(bool),
    Utf8String(String),
    Object(Vec<(String, AmfValue)>),
    StrictArray(Vec<AmfValue>),
    Null,
    Undefined,
}

/// What an `AmfValue` stands for: strings are sequences of characters, and an
/// object is a map from property names to values, without order.
pub enum AmfModel {
    Number(u64),
    Boolean(bool),
    Utf8String(Seq<char>),
    Object(Map<Seq<char>, AmfModel>),
    StrictArray(Seq<AmfModel>),
    Null,
    Undefined,
}

impl View for AmfValue {
    type V = AmfModel;

    open spec fn view(&self) -> AmfModel
        decreases self,
    {
        match self {
            AmfValue::Number(bits) => AmfModel::Number(*bits),
            AmfValue::Boolean(b) => AmfModel::Boolean(*b),
            AmfValue::Utf8String(s) => AmfModel::Utf8String(s@),
            AmfValue::Object(properties) => AmfModel::Object(
                properties_model(properties@, properties@.len()),
            ),
            AmfValue::StrictArray(items) => AmfModel::StrictArray(values_model(items@)),
            AmfValue::Null => AmfModel::Null,
            AmfValue::Undefined => AmfModel::Undefined,
        }
    }
}

/// The models of a sequence of values, in order.
pub open spec fn values_model(values: Seq<AmfValue>) -> Seq<AmfModel>
    decreases values,
{
    Seq::new(
        values.len(),
        |i: int|
            if 0 <= i < values.len() {
                values[i]@
            } else {
                AmfModel::Null
            },
    )
}

/// The map that the first `n` entries of a property list stand for. A later
/// entry overrides an earlier one of the same name.
pub open spec fn properties_model(properties: Seq<(String, AmfValue)>, n: nat) -> Map<
    Seq<char>,
    AmfModel,
>
    decreases properties, n,
{
    if n == 0 || n > properties.len() {
        Map::empty()
    } else {
        properties_model(properties, (n - 1) as nat).insert(
            properties[n - 1].0@,
            properties[n - 1].1@,
        )
    }
}

/// Two property lists that agree entry by entry stand for the same map.
pub proof fn lemma_properties_model_pointwise(
    a: Seq<(String, AmfValue)>,
    b: Seq<(String, AmfValue)>,
    n: nat,
)
    requires
        n <= a.len(),
        n <= b.len(),
        forall|i: int| 0 <= i < n ==> a[i].0@ == b[i].0@ && a[i].1@ == b[i].1@,
    ensures
        properties_model(a, n) == properties_model(b, n),
    decreases n,
{
    if n > 0 {
        lemma_properties_model_pointwise(a, b, (n - 1) as nat);
    }
}

impl Clone for AmfValue {
    /// A deep copy: it stands for the same value.
    #[verifier::loop_isolation(false)]
    fn clone(&self) -> (r: AmfValue)
        ensures
            r@ == self@,
        decreases self,
    {
        match self {
            AmfValue::Number(bits) => AmfValue::Number(*bits),
            AmfValue::Boolean(b) => AmfValue::Boolean(*b),
            AmfValue::Utf8String(s) => AmfValue::Utf8String(s.clone()),
            AmfValue::Object(properties) => {
                let mut copy: Vec<(String, AmfValue)> = Vec::new();
                let mut i: usize = 0;
                while i < properties.len()
                    invariant
                        i <= properties.len(),
                        copy@.len() == i,
                        forall|j: int|
                            0 <= j < i ==> copy@[j].0@ == properties@[j].0@ && copy@[j].1@
                                == properties@[j].1@,
                    decreases properties.len() - i,
                {
                    let name = properties[i].0.clone();
                    let value = properties[i].1.clone();
                    copy.push((name, value));
                    i += 1;
                }
                proof {
                    lemma_properties_model_pointwise(copy@, properties@, copy@.len());
                }
                AmfValue::Object(copy)
            },
            AmfValue::StrictArray(items) => {
                let mut copy: Vec<AmfValue> = Vec::new();
                let mut i: usize = 0;
                while i < items.len()
                    invariant
                        i <= items.len(),
                        copy@.len() == i,
                        forall|j: int| 0 <= j < i ==> copy@[j]@ == items@[j]@,
                    decreases items.len() - i,
                {
                    let value = items[i].clone();
                    copy.push(value);
                    i += 1;
                }
                assert(values_model(copy@) =~= values_model(items@));
                AmfValue::StrictArray(copy)
            },
            AmfValue::Null => AmfValue::Null,
            AmfValue::Undefined => AmfValue::Undefined,
        }
    }
}

/// The number of bytes that a string takes in UTF-8.
pub open spec fn utf8_len(chars: Seq<char>) -> nat {
    vstd::utf8::encode_utf8(chars).len()
}

/// The longest string, in bytes, that AMF0 can hold behind a 16 bit length.
pub const MAX_STRING_BYTES: usize = 0xFFFF;

/// Whether the AMF0 byte format can hold a value: every string has at most
/// 65,535 bytes, every property name is moreover not empty (an empty name
/// marks the end of an object), and every array has fewer than 2^32 items.
pub open spec fn encodable_model(model: AmfModel) -> bool
    decreases model,
{
    match model {
        AmfModel::Utf8String(s) => utf8_len(s) <= MAX_STRING_BYTES,
        AmfModel::Object(object) => {
            &&& object.dom().finite()
            &&& forall|name: Seq<char>| #[trigger]
                object.contains_key(name) ==> {
                    &&& 0 < utf8_len(name) <= MAX_STRING_BYTES
                    &&& encodable_model(object[name])
                }
        },
        AmfModel::StrictArray(items) => {
            &&& items.len() <= 0xFFFF_FFFF
            &&& forall|i: int| 0 <= i < items.len() ==> encodable_model(#[trigger] items[i])
        },
        _ => true,
    }
}

/// Whether the AMF0 byte format can hold each of the values.
pub open spec fn all_encodable_models(models: Seq<AmfModel>) -> bool {
    forall|i: int| 0 <= i < models.len() ==> encodable_model(#[trigger] models[i])
}

/// Whether the AMF0 byte format can hold `value`. An entry of an object that
/// a later entry of the same name replaces does not count: it is not written.
pub open spec fn encodable(value: AmfValue) -> bool {
    encodable_model(value@)
}

/// Whether the AMF0 byte format can hold each of `values`.
pub open spec fn all_encodable(values: Seq<AmfValue>) -> bool {
    all_encodable_models(values_model(values))
}

/// Whether no later entry of a property list has the name of entry `i`, so
/// that entry `i` is the property's value.
pub open spec fn is_last_of_name(properties: Seq<(String, AmfValue)>, i: int) -> bool {
    forall|j: int| i < j < properties.len() ==> (#[trigger] properties[j]).0@ != properties[i].0@
}

/// The last of the first `n` entries that has the name `name`; -1 if none has.
pub open spec fn entry_of(properties: Seq<(String, AmfValue)>, n: nat, name: Seq<char>) -> int
    decreases n,
{
    if n == 0 || n > properties.len() {
        -1
    } else if properties[n - 1].0@ == name {
        n - 1
    } else {
        entry_of(properties, (n - 1) as nat, name)
    }
}

/// A property of the map that a property list stands for has an entry in the
/// list: the last entry of its name, which holds its value.
pub proof fn lemma_property_has_entry(
    properties: Seq<(String, AmfValue)>,
    n: nat,
    name: Seq<char>,
)
    requires
        n <= properties.len(),
        properties_model(properties, n).contains_key(name),
    ensures
        ({
            let i = entry_of(properties, n, name);
            &&& 0 <= i < n
            &&& properties[i].0@ == name
            &&& forall|j: int| i < j < n ==> (#[trigger] properties[j]).0@ != name
            &&& properties_model(properties, n)[name] == properties[i].1@
        }),
    decreases n,
{
    if n > 0 {
        let last = properties[n - 1];
        let before = properties_model(properties, (n - 1) as nat);
        assert(properties_model(properties, n) == before.insert(last.0@, last.1@));
        if last.0@ != name {
            lemma_property_has_entry(properties, (n - 1) as nat, name);
        }
    }
}

/// The map that a property list stands for has finitely many properties.
pub proof fn lemma_properties_model_finite(properties: Seq<(String, AmfValue)>, n: nat)
    requires
        n <= properties.len(),
    ensures
        properties_model(properties, n).dom().finite(),
    decreases n,
{
    if n > 0 {
        let last = properties[n - 1];
        let before = properties_model(properties, (n - 1) as nat);
        lemma_properties_model_finite(properties, (n - 1) as nat);
        assert(properties_model(properties, n) == before.insert(last.0@, last.1@));
        assert(before.insert(last.0@, last.1@).dom() =~= before.dom().insert(last.0@));
    }
}

/// Whether a later entry of the property list has the name of entry `i`.
fn named_later(properties: &Vec<(String, AmfValue)>, i: usize) -> (r: bool)
    requires
        i < properties@.len(),
    ensures
        r == !is_last_of_name(properties@, i as int),
{
    let len = properties.len();
    let mut j: usize = i + 1;
    while j < properties.len()
        invariant
            i < j <= properties@.len(),
            forall|k: int| i < k < j ==> (#[trigger] properties@[k]).0@ != properties@[i as int].0@,
        decreases properties.len() - j,
    {
        if crate::text::str_eq(properties[j].0.as_str(), properties[i].0.as_str()) {
            return true;
        }
        j += 1;
    }
    false
}

/// Decides whether the AMF0 byte format can hold `value`.
#[verifier::loop_isolation(false)]
pub fn is_encodable(value: &AmfValue) -> (r: bool)
    ensures
        r == encodable(*value),
    decreases value,
{
    match value {
        AmfValue::Utf8String(s) => s.as_str().as_bytes().len() <= MAX_STRING_BYTES,
        AmfValue::Object(properties) => {
            let ghost object = properties_model(properties@, properties@.len());
            let mut i: usize = 0;
            while i < properties.len()
                invariant
                    i <= properties.len(),
                    forall|k: int|
                        0 <= k < i && is_last_of_name(properties@, k) ==> {
                            &&& 0 < utf8_len((#[trigger] properties@[k]).0@) <= MAX_STRING_BYTES
                            &&& encodable(properties@[k].1)
                        },
                decreases properties.len() - i,
            {
                if !named_later(properties, i) {
                    let name_len = properties[i].0.as_str().as_bytes().len();
                    let fits = name_len > 0 && name_len <= MAX_STRING_BYTES && is_encodable(
                        &properties[i].1,
                    );
                    if !fits {
                        proof {
                            lemma_last_entry_counts(
                                properties@,
                                properties@.len(),
                                properties@[i as int].0@,
                                i as int,
                            );
                            assert(object.contains_key(properties@[i as int].0@));
                        }
                        return false;
                    }
                }
                i += 1;
            }
            proof {
                lemma_properties_model_finite(properties@, properties@.len());
                assert forall|name: Seq<char>| #[trigger] object.contains_key(name) implies 0
                    < utf8_len(name) <= MAX_STRING_BYTES && encodable_model(object[name]) by {
                    lemma_property_has_entry(properties@, properties@.len(), name);
                    let k = entry_of(properties@, properties@.len(), name);
                    assert(is_last_of_name(properties@, k));
                    assert(encodable(properties@[k].1));
                }
            }
            true
        },
        AmfValue::StrictArray(items) => {
            if items.len() > 0xFFFF_FFFF {
                return false;
            }
            let mut i: usize = 0;
            while i < items.len()
                invariant
                    i <= items.len(),
                    forall|j: int| 0 <= j < i ==> encodable(#[trigger] items@[j]),
                decreases items.len() - i,
            {
                if !is_encodable(&items[i]) {
                    assert(values_model(items@)[i as int] == items@[i as int]@);
                    return false;
                }
                i += 1;
            }
            assert forall|j: int| 0 <= j < values_model(items@).len() implies encodable_model(
                #[trigger] values_model(items@)[j],
            ) by {
                assert(encodable(items@[j]));
            }
            true
        },
        _ => true,
    }
}

/// Decides whether the AMF0 byte format can hold each of `values`.
pub fn are_encodable(values: &Vec<AmfValue>) -> (r: bool)
    ensures
        r == all_encodable(values@),
{
    let mut i: usize = 0;
    while i < values.len()
        invariant
            i <= values.len(),
            forall|j: int| 0 <= j < i ==> encodable(#[trigger] values@[j]),
        decreases values.len() - i,
    {
        if !is_encodable(&values[i]) {
            assert(values_model(values@)[i as int] == values@[i as int]@);
            return false;
        }
        i += 1;
    }
    assert forall|j: int| 0 <= j < values_model(values@).len() implies encodable_model(
        #[trigger] values_model(values@)[j],
    ) by {
        assert(encodable(values@[j]));
    }
    true
}

/// The map that a property list stands for.
pub open spec fn object_model(properties: Seq<(String, AmfValue)>) -> Map<Seq<char>, AmfModel> {
    properties_model(properties, properties.len())
}

/// The last entry of a name is the property's value.
pub proof fn lemma_last_entry_counts(
    properties: Seq<(String, AmfValue)>,
    n: nat,
    name: Seq<char>,
    at: int,
)
    requires
        0 <= at < n <= properties.len(),
        properties[at].0@ == name,
        forall|j: int| at < j < n ==> properties[j].0@ != name,
    ensures
        properties_model(properties, n).contains_key(name),
        properties_model(properties, n)[name] == properties[at].1@,
    decreases n,
{
    let last = properties[n - 1];
    let before = properties_model(properties, (n - 1) as nat);
    assert(properties_model(properties, n) == before.insert(last.0@, last.1@));
    if at < n - 1 {
        lemma_last_entry_counts(properties, (n - 1) as nat, name, at);
        assert(last.0@ != name);
    }
}

/// A name without an entry is not a property.
pub proof fn lemma_no_entry_no_property(
    properties: Seq<(String, AmfValue)>,
    n: nat,
    name: Seq<char>,
)
    requires
        n <= properties.len(),
        forall|j: int| 0 <= j < n ==> properties[j].0@ != name,
    ensures
        !properties_model(properties, n).contains_key(name),
    decreases n,
{
    if n > 0 {
        let last = properties[n - 1];
        let before = properties_model(properties, (n - 1) as nat);
        assert(properties_model(properties, n) == before.insert(last.0@, last.1@));
        lemma_no_entry_no_property(properties, (n - 1) as nat, name);
        assert(last.0@ != name);
    }
}

/// The value of the property `name` of an object, if it has one.
pub fn find_property<'a>(properties: &'a Vec<(String, AmfValue)>, name: &str) -> (r: Option<
    &'a AmfValue,
>)
    ensures
        match r {
            Some(value) => object_model(properties@).contains_key(name@) && object_model(
                properties@,
            )[name@] == value@,
            None => !object_model(properties@).contains_key(name@),
        },
{
    let mut i: usize = properties.len();
    while i > 0
        invariant
            i <= properties.len(),
            forall|j: int| i <= j < properties@.len() ==> properties@[j].0@ != name@,
        decreases i,
    {
        i -= 1;
        if crate::text::str_eq(properties[i].0.as_str(), name) {
            proof {
                lemma_last_entry_counts(properties@, properties@.len(), name@, i as int);
            }
            return Some(&properties[i].1);
        }
    }
    proof {
        lemma_no_entry_no_property(properties@, properties@.len(), name@);
    }
    None
}

/// Appends a property to a property list. It replaces a property of the same
/// name.
pub fn push_property(properties: &mut Vec<(String, AmfValue)>, name: &str, value: AmfValue)
    ensures
        object_model(final(properties)@) == object_model(old(properties)@).insert(name@, value@),
        final(properties)@.len() == old(properties)@.len() + 1,
{
    let entry = (crate::text::owned(name), value);
    properties.push(entry);
    proof {
        lemma_properties_model_pointwise(properties@, old(properties)@, old(properties)@.len());
    }
}

/// A number as a `u32`, if the value is a number.
pub open spec fn model_u32(value: AmfModel) -> Option<u32> {
    match value {
        AmfModel::Number(bits) => Some(number::whole_u32(bits)),
        _ => None,
    }
}

/// The characters of a string, if the value is a string.
pub open spec fn model_text(value: AmfModel) -> Option<Seq<char>> {
    match value {
        AmfModel::Utf8String(text) => Some(text),
        _ => None,
    }
}

/// The property `name` of an object as a `u32`, if it is a number.
pub open spec fn u32_property(object: Map<Seq<char>, AmfModel>, name: Seq<char>) -> Option<u32> {
    if object.contains_key(name) {
        model_u32(object[name])
    } else {
        None
    }
}

/// The bit pattern of the property `name` of an object, if it is a number.
pub open spec fn number_property(object: Map<Seq<char>, AmfModel>, name: Seq<char>) -> Option<
    u64,
> {
    if object.contains_key(name) {
        match object[name] {
            AmfModel::Number(bits) => Some(bits),
            _ => None,
        }
    } else {
        None
    }
}

/// The property `name` of an object, if it is a string.
pub open spec fn text_property(object: Map<Seq<char>, AmfModel>, name: Seq<char>) -> Option<
    Seq<char>,
> {
    if object.contains_key(name) {
        model_text(object[name])
    } else {
        None
    }
}

/// The property `name` of an object, if it is a boolean.
pub open spec fn bool_property(object: Map<Seq<char>, AmfModel>, name: Seq<char>) -> Option<
    bool,
> {
    if object.contains_key(name) {
        match object[name] {
            AmfModel::Boolean(b) => Some(b),
            _ => None,
        }
    } else {
        None
    }
}

/// Whether two optional strings hold the same characters.
pub open spec fn same_text(text: Option<String>, model: Option<Seq<char>>) -> bool {
    match (text, model) {
        (Some(t), Some(m)) => t@ == m,
        (None, None) => true,
        _ => false,
    }
}

/// Reads the property `name` of an object as a `u32`.
pub fn get_u32_property(properties: &Vec<(String, AmfValue)>, name: &str) -> (r: Option<u32>)
    ensures
        r == u32_property(object_model(properties@), name@),
{
    match find_property(properties, name) {
        Some(AmfValue::Number(bits)) => Some(number::number_to_u32(*bits)),
        _ => None,
    }
}

/// Reads the bit pattern of the property `name` of an object.
pub fn get_number_property(properties: &Vec<(String, AmfValue)>, name: &str) -> (r: Option<u64>)
    ensures
        r == number_property(object_model(properties@), name@),
{
    match find_property(properties, name) {
        Some(AmfValue::Number(bits)) => Some(*bits),
        _ => None,
    }
}

/// Reads the property `name` of an object as a string.
pub fn get_text_property(properties: &Vec<(String, AmfValue)>, name: &str) -> (r: Option<String>)
    ensures
        same_text(r, text_property(object_model(properties@), name@)),
{
    match find_property(properties, name) {
        Some(AmfValue::Utf8String(text)) => Some(text.clone()),
        _ => None,
    }
}

/// Reads the property `name` of an object as a boolean.
pub fn get_bool_property(properties: &Vec<(String, AmfValue)>, name: &str) -> (r: Option<bool>)
    ensures
        r == bool_property(object_model(properties@), name@),
{
    match find_property(properties, name) {
        Some(AmfValue::Boolean(b)) => Some(*b),
        _ => None,
    }
}

} // verus!
