//! AMF0 command: a name, a transaction id, a command object and arguments.

use crate::amf0::codec::{amf0_decoding, amf0_encoded_len, decode, encode, encodes};
use crate::amf0::{all_encodable_models, values_model, AmfModel, AmfValue};
use crate::messages::{agrees, MessageDeserializationError, MessageDeserializationErrorKind};
use crate::messages::{MessageModel, MessageSerializationError, MessageSerializationErrorKind};
use crate::messages::{Parsed, RtmpMessage};
use vstd::prelude::*;

verus! {

/// The values that a command is written as: its name as a string, its
/// transaction id as a number, its command object, then its arguments.
pub open spec fn command_values(
    command_name: Seq<char>,
    transaction_id: u64,
    command_object: AmfModel,
    additional_arguments: Seq<AmfModel>,
) -> Seq<AmfModel> {
    seq![
        AmfModel::Utf8String(command_name),
        AmfModel::Number(transaction_id),
        command_object,
    ] + additional_arguments
}

/// The command that a list of values stands for: the first must be a string,
/// the second a number, and a third must follow.
pub open spec fn command_of(values: Seq<AmfModel>) -> Parsed {
    if values.len() < 3 {
        Err(MessageDeserializationErrorKind::InvalidMessageFormat)
    } else {
        match (values[0], values[1]) {
            (AmfModel::Utf8String(command_name), AmfModel::Number(transaction_id)) => Ok(
                MessageModel::Amf0Command {
                    command_name,
                    transaction_id,
                    command_object: values[2],
                    additional_arguments: values.subrange(3, values.len() as int),
                },
            ),
            _ => Err(MessageDeserializationErrorKind::InvalidMessageFormat),
        }
    }
}

/// What a body reads as.
pub open spec fn parsed(data: Seq<u8>) -> Parsed {
    match amf0_decoding(data) {
        Some(values) => command_of(values),
        None => Err(MessageDeserializationErrorKind::Amf0DecodeFailed),
    }
}

/// Fails exactly where AMF0 cannot hold the values of the command. The body
/// that is written reads as the values of the command again, and has the
/// length that the values call for.
pub fn serialize(
    command_name: String,
    transaction_id: u64,
    command_object: AmfValue,
    additional_arguments: Vec<AmfValue>,
) -> (r: Result<Vec<u8>, MessageSerializationError>)
    ensures
        ({
            let values = command_values(
                command_name@,
                transaction_id,
                command_object@,
                values_model(additional_arguments@),
            );
            match r {
                Ok(bytes) => {
                    &&& all_encodable_models(values)
                    &&& encodes(bytes@, values)
                    &&& bytes@.len() == amf0_encoded_len(values)
                },
                Err(e) => !all_encodable_models(values) && e.kind
                    == MessageSerializationErrorKind::Amf0EncodeFailed,
            }
        }),
{
    let ghost name = command_name;
    let ghost object = command_object;
    let ghost rest = additional_arguments@;
    let mut additional_arguments = additional_arguments;
    let mut values: Vec<AmfValue> = Vec::new();
    values.push(AmfValue::Utf8String(command_name));
    values.push(AmfValue::Number(transaction_id));
    values.push(command_object);
    values.append(&mut additional_arguments);
    proof {
        assert(values@ =~= seq![AmfValue::Utf8String(name), AmfValue::Number(transaction_id), object]
            + rest);
        assert(values_model(values@) =~= command_values(
            name@,
            transaction_id,
            object@,
            values_model(rest),
        ));
    }
    match encode(&values) {
        Ok(bytes) => Ok(bytes),
        Err(_) => Err(
            MessageSerializationError { kind: MessageSerializationErrorKind::Amf0EncodeFailed },
        ),
    }
}

pub fn deserialize(data: &[u8]) -> (r: Result<RtmpMessage, MessageDeserializationError>)
    ensures
        agrees(r, parsed(data@)),
{
    let mut values = match decode(data) {
        Ok(values) => values,
        Err(_) => {
            return Err(
                MessageDeserializationError {
                    kind: MessageDeserializationErrorKind::Amf0DecodeFailed,
                },
            );
        },
    };
    let ghost decoded = values@;
    let invalid = MessageDeserializationError {
        kind: MessageDeserializationErrorKind::InvalidMessageFormat,
    };
    if values.len() < 3 {
        return Err(invalid);
    }
    let first = values.remove(0);
    let second = values.remove(0);
    let command_object = values.remove(0);
    proof {
        assert(first == decoded[0] && second == decoded[1] && command_object == decoded[2]);
        assert(values@ =~= decoded.subrange(3, decoded.len() as int));
        assert(values_model(values@) =~= values_model(decoded).subrange(3, decoded.len() as int));
    }
    match (first, second) {
        (AmfValue::Utf8String(command_name), AmfValue::Number(transaction_id)) => Ok(
            RtmpMessage::Amf0Command {
                command_name,
                transaction_id,
                command_object,
                additional_arguments: values,
            },
        ),
        _ => Err(invalid),
    }
}

} // verus!
