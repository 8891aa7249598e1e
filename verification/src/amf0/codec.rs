//! The AMF0 byte format, as the `rml_amf0` crate reads and writes it.

use super::{all_encodable, are_encodable, values_model, AmfModel, AmfValue};
use byteorder::{BigEndian, ByteOrder};
use vstd::prelude::*;

verus! {

/// `rml_amf0::Amf0Value`, of which nothing is known here but that it exists.
#[verifier::external_type_specification]
#[verifier::external_body]
pub struct ExCodecValue(rml_amf0::Amf0Value);

/// `rml_amf0::Amf0SerializationError`, of which nothing is known here but
/// that it exists.
#[verifier::external_type_specification]
#[verifier::external_body]
pub struct ExCodecSerializationError(rml_amf0::Amf0SerializationError);

/// `rml_amf0::Amf0DeserializationError`, of which nothing is known here but
/// that it exists.
#[verifier::external_type_specification]
#[verifier::external_body]
pub struct ExCodecDeserializationError(rml_amf0::Amf0DeserializationError);

/// The values that `rml_amf0::deserialize` reads from `bytes`, or `None` where
/// it reports an error.
pub uninterp spec fn amf0_decoding(bytes: Seq<u8>) -> Option<Seq<AmfModel>>;

/// Writes a value of this library as the `rml_amf0::Amf0Value` of the same
/// variant and contents. A property list becomes a `HashMap`, in which a later
/// entry replaces an earlier one of the same name.
#[verifier::external_body]
fn to_codec_value(value: &AmfValue) -> rml_amf0::Amf0Value {
    match value {
        AmfValue::Number(bits) => rml_amf0::Amf0Value::Number(BigEndian::read_f64(&bits.to_be_bytes())),
        AmfValue::Boolean(b) => rml_amf0::Amf0Value::Boolean(*b),
        AmfValue::Utf8String(s) => rml_amf0::Amf0Value::Utf8String(s.clone()),
        AmfValue::Object(p) => rml_amf0::Amf0Value::Object(p.iter().map(|e| (e.0.clone(), to_codec_value(&e.1))).collect()),
        AmfValue::StrictArray(a) => rml_amf0::Amf0Value::StrictArray(a.iter().map(to_codec_value).collect()),
        AmfValue::Null => rml_amf0::Amf0Value::Null,
        AmfValue::Undefined => rml_amf0::Amf0Value::Undefined,
    }
}

/// Reads an `rml_amf0::Amf0Value` as the value of this library of the same
/// variant and contents. The properties of a `HashMap` are listed in the order
/// in which the map hands them out.
#[verifier::external_body]
fn from_codec_value(value: rml_amf0::Amf0Value) -> AmfValue {
    match value {
        rml_amf0::Amf0Value::Number(n) => AmfValue::Number(n.to_bits()),
        rml_amf0::Amf0Value::Boolean(b) => AmfValue::Boolean(b),
        rml_amf0::Amf0Value::Utf8String(s) => AmfValue::Utf8String(s),
        rml_amf0::Amf0Value::Object(p) => AmfValue::Object(p.into_iter().map(|(k, v)| (k, from_codec_value(v))).collect()),
        rml_amf0::Amf0Value::StrictArray(a) => AmfValue::StrictArray(a.into_iter().map(from_codec_value).collect()),
        rml_amf0::Amf0Value::Null => AmfValue::Null,
        rml_amf0::Amf0Value::Undefined => AmfValue::Undefined,
    }
}

/// The number of bytes that `rml_amf0::serialize` writes for values. The
/// order in which it writes the properties of an object varies, the number of
/// bytes does not.
pub uninterp spec fn amf0_encoded_len(values: Seq<AmfModel>) -> nat;

/// `rml_amf0::serialize` on the values of this library.
///
/// The contract claims that encodable values are written without error, that
/// `rml_amf0::deserialize` reads from the bytes written the values that went
/// in, and that the number of bytes written depends on the values alone. The
/// order in which an object's properties are written is not fixed, so the
/// bytes themselves are not stated.
#[verifier::external_body]
pub(crate) fn codec_serialize(values: &Vec<AmfValue>) -> (r: Result<
    Vec<u8>,
    rml_amf0::Amf0SerializationError,
>)
    ensures
        all_encodable(values@) ==> r is Ok,
        all_encodable(values@) ==> (r matches Ok(bytes) ==> amf0_decoding(bytes@) == Some(
            values_model(values@),
        )),
        all_encodable(values@) ==> (r matches Ok(bytes) ==> bytes@.len() == amf0_encoded_len(
            values_model(values@),
        )),
{
    let outside: Vec<rml_amf0::Amf0Value> = values.iter().map(to_codec_value).collect();
    rml_amf0::serialize(&outside)
}

/// `rml_amf0::deserialize` on a byte slice, giving values of this library.
///
/// The contract claims that the values read depend on the bytes alone.
#[verifier::external_body]
pub(crate) fn codec_deserialize(bytes: &[u8]) -> (r: Result<
    Vec<AmfValue>,
    rml_amf0::Amf0DeserializationError,
>)
    ensures
        match r {
            Ok(values) => amf0_decoding(bytes@) == Some(values_model(values@)),
            Err(_) => amf0_decoding(bytes@) is None,
        },
{
    let values = rml_amf0::deserialize(&mut std::io::Cursor::new(bytes))?;
    Ok(values.into_iter().map(from_codec_value).collect())
}

/// AMF0 could not hold the values, or the codec refused them.
#[derive(Debug, Clone, Copy, PartialEq, Eq, Structural)]
pub struct EncodeError;

/// The bytes are not a sequence of AMF0 values.
#[derive(Debug, Clone, Copy, PartialEq, Eq, Structural)]
pub struct DecodeError;

/// Whether `bytes` is an AMF0 encoding of values with the models `values`.
pub open spec fn encodes(bytes: Seq<u8>, values: Seq<AmfModel>) -> bool {
    amf0_decoding(bytes) == Some(values)
}

/// Writes `values` in the AMF0 byte format.
///
/// Fails exactly where the format cannot hold the values. What is written
/// decodes to the same values, and has the length that the values call for.
pub fn encode(values: &Vec<AmfValue>) -> (r: Result<Vec<u8>, EncodeError>)
    ensures
        r is Ok <==> all_encodable(values@),
        r matches Ok(bytes) ==> encodes(bytes@, values_model(values@)),
        r matches Ok(bytes) ==> bytes@.len() == amf0_encoded_len(values_model(values@)),
{
    if !are_encodable(values) {
        return Err(EncodeError);
    }
    match codec_serialize(values) {
        Ok(bytes) => Ok(bytes),
        Err(_) => Err(EncodeError),
    }
}

/// Reads the AMF0 values that `bytes` holds.
pub fn decode(bytes: &[u8]) -> (r: Result<Vec<AmfValue>, DecodeError>)
    ensures
        match r {
            Ok(values) => amf0_decoding(bytes@) == Some(values_model(values@)),
            Err(_) => amf0_decoding(bytes@) is None,
        },
{
    match codec_deserialize(bytes) {
        Ok(values) => Ok(values),
        Err(_) => Err(DecodeError),
    }
}

} // verus!
