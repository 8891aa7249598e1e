//! What a stream says of itself.

use crate::amf0::{bool_property, get_bool_property, get_number_property, get_text_property};
use crate::amf0::{get_u32_property, number_property, object_model, text_property};
use crate::amf0::{u32_property, AmfModel, AmfValue};
use vstd::prelude::*;

verus! {

/// The properties of a stream that encoders announce. A frame rate is an
/// IEEE-754 binary64 value, held as its bit pattern.
#[derive(Debug, Clone, PartialEq)]
pub struct StreamMetadata {
    pub video_width: Option<u32>,
    pub video_height: Option<u32>,
    pub video_codec: Option<String>,
    pub video_frame_rate: Option<u64>,
    pub video_bitrate_kbps: Option<u32>,
    pub audio_codec: Option<String>,
    pub audio_bitrate_kbps: Option<u32>,
    pub audio_sample_rate: Option<u32>,
    pub audio_sample_size: Option<u32>,
    pub audio_channels: Option<u32>,
    pub audio_is_stereo: Option<bool>,
    pub encoder: Option<String>,
}

/// What a `StreamMetadata` stands for.
pub struct MetadataModel {
    pub video_width: Option<u32>,
    pub video_height: Option<u32>,
    pub video_codec: Option<Seq<char>>,
    pub video_frame_rate: Option<u64>,
    pub video_bitrate_kbps: Option<u32>,
    pub audio_codec: Option<Seq<char>>,
    pub audio_bitrate_kbps: Option<u32>,
    pub audio_sample_rate: Option<u32>,
    pub audio_sample_size: Option<u32>,
    pub audio_channels: Option<u32>,
    pub audio_is_stereo: Option<bool>,
    pub encoder: Option<Seq<char>>,
}

/// The characters of an optional string.
pub open spec fn text_model(text: Option<String>) -> Option<Seq<char>> {
    match text {
        Some(t) => Some(t@),
        None => None,
    }
}

impl View for StreamMetadata {
    type V = MetadataModel;

    open spec fn view(&self) -> MetadataModel {
        MetadataModel {
            video_width: self.video_width,
            video_height: self.video_height,
            video_codec: text_model(self.video_codec),
            video_frame_rate: self.video_frame_rate,
            video_bitrate_kbps: self.video_bitrate_kbps,
            audio_codec: text_model(self.audio_codec),
            audio_bitrate_kbps: self.audio_bitrate_kbps,
            audio_sample_rate: self.audio_sample_rate,
            audio_sample_size: self.audio_sample_size,
            audio_channels: self.audio_channels,
            audio_is_stereo: self.audio_is_stereo,
            encoder: text_model(self.encoder),
        }
    }
}

/// The metadata that the properties of an `onMetaData` object announce. A
/// property that is missing, or not of the type that its name calls for,
/// announces nothing. The fraction of a number that stands for a whole number
/// is dropped.
pub open spec fn metadata_of(object: Map<Seq<char>, AmfModel>) -> MetadataModel {
    MetadataModel {
        video_width: u32_property(object, "width"@),
        video_height: u32_property(object, "height"@),
        video_codec: text_property(object, "videocodecid"@),
        video_frame_rate: number_property(object, "framerate"@),
        video_bitrate_kbps: u32_property(object, "videodatarate"@),
        audio_codec: text_property(object, "audiocodecid"@),
        audio_bitrate_kbps: u32_property(object, "audiodatarate"@),
        audio_sample_rate: u32_property(object, "audiosamplerate"@),
        audio_sample_size: u32_property(object, "audiosamplesize"@),
        audio_channels: u32_property(object, "audiochannels"@),
        audio_is_stereo: bool_property(object, "stereo"@),
        encoder: text_property(object, "encoder"@),
    }
}

/// A number property, if the metadata has the value.
pub open spec fn with_u32(
    object: Map<Seq<char>, AmfModel>,
    name: Seq<char>,
    value: Option<u32>,
) -> Map<Seq<char>, AmfModel> {
    match value {
        Some(n) => object.insert(name, AmfModel::Number(crate::amf0::number::bits_of_u32(n))),
        None => object,
    }
}

/// A string property, if the metadata has the value.
pub open spec fn with_text(
    object: Map<Seq<char>, AmfModel>,
    name: Seq<char>,
    value: Option<Seq<char>>,
) -> Map<Seq<char>, AmfModel> {
    match value {
        Some(text) => object.insert(name, AmfModel::Utf8String(text)),
        None => object,
    }
}

/// The properties that announce `metadata`: one for each value that it has.
pub open spec fn properties_of(metadata: MetadataModel) -> Map<Seq<char>, AmfModel> {
    let object = Map::<Seq<char>, AmfModel>::empty();
    let object = with_u32(object, "width"@, metadata.video_width);
    let object = with_u32(object, "height"@, metadata.video_height);
    let object = with_text(object, "videocodecid"@, metadata.video_codec);
    let object = match metadata.video_frame_rate {
        Some(bits) => object.insert("framerate"@, AmfModel::Number(bits)),
        None => object,
    };
    let object = with_u32(object, "videodatarate"@, metadata.video_bitrate_kbps);
    let object = with_text(object, "audiocodecid"@, metadata.audio_codec);
    let object = with_u32(object, "audiodatarate"@, metadata.audio_bitrate_kbps);
    let object = with_u32(object, "audiosamplerate"@, metadata.audio_sample_rate);
    let object = with_u32(object, "audiosamplesize"@, metadata.audio_sample_size);
    let object = with_u32(object, "audiochannels"@, metadata.audio_channels);
    let object = match metadata.audio_is_stereo {
        Some(stereo) => object.insert("stereo"@, AmfModel::Boolean(stereo)),
        None => object,
    };
    with_text(object, "encoder"@, metadata.encoder)
}

/// Appends a number property if there is a value.
fn push_u32(properties: &mut Vec<(String, AmfValue)>, name: &str, value: Option<u32>)
    ensures
        object_model(final(properties)@) == with_u32(object_model(old(properties)@), name@, value),
{
    match value {
        Some(n) => {
            let bits = crate::amf0::number::number_from_u32(n);
            crate::amf0::push_property(properties, name, AmfValue::Number(bits));
        },
        None => {},
    }
}

/// Appends a string property if there is a value.
fn push_text(properties: &mut Vec<(String, AmfValue)>, name: &str, value: &Option<String>)
    ensures
        object_model(final(properties)@) == with_text(
            object_model(old(properties)@),
            name@,
            text_model(*value),
        ),
{
    match value {
        Some(text) => {
            crate::amf0::push_property(properties, name, AmfValue::Utf8String(text.clone()));
        },
        None => {},
    }
}

impl StreamMetadata {
    /// Metadata that says nothing.
    pub fn new() -> (r: StreamMetadata)
        ensures
            r@ == metadata_of(Map::empty()),
    {
        StreamMetadata {
            video_width: None,
            video_height: None,
            video_codec: None,
            video_frame_rate: None,
            video_bitrate_kbps: None,
            audio_codec: None,
            audio_bitrate_kbps: None,
            audio_sample_rate: None,
            audio_sample_size: None,
            audio_channels: None,
            audio_is_stereo: None,
            encoder: None,
        }
    }

    /// Reads the properties of an `onMetaData` object.
    pub fn from_properties(properties: &Vec<(String, AmfValue)>) -> (r: StreamMetadata)
        ensures
            r@ == metadata_of(object_model(properties@)),
    {
        let video_codec = get_text_property(properties, "videocodecid");
        let audio_codec = get_text_property(properties, "audiocodecid");
        let encoder = get_text_property(properties, "encoder");
        StreamMetadata {
            video_width: get_u32_property(properties, "width"),
            video_height: get_u32_property(properties, "height"),
            video_codec,
            video_frame_rate: get_number_property(properties, "framerate"),
            video_bitrate_kbps: get_u32_property(properties, "videodatarate"),
            audio_codec,
            audio_bitrate_kbps: get_u32_property(properties, "audiodatarate"),
            audio_sample_rate: get_u32_property(properties, "audiosamplerate"),
            audio_sample_size: get_u32_property(properties, "audiosamplesize"),
            audio_channels: get_u32_property(properties, "audiochannels"),
            audio_is_stereo: get_bool_property(properties, "stereo"),
            encoder,
        }
    }

    /// The properties that announce the metadata.
    pub fn to_properties(&self) -> (r: Vec<(String, AmfValue)>)
        ensures
            object_model(r@) == properties_of(self@),
    {
        let mut properties: Vec<(String, AmfValue)> = Vec::new();
        assert(object_model(properties@) =~= Map::<Seq<char>, AmfModel>::empty());
        push_u32(&mut properties, "width", self.video_width);
        push_u32(&mut properties, "height", self.video_height);
        push_text(&mut properties, "videocodecid", &self.video_codec);
        match self.video_frame_rate {
            Some(bits) => {
                crate::amf0::push_property(&mut properties, "framerate", AmfValue::Number(bits));
            },
            None => {},
        }
        push_u32(&mut properties, "videodatarate", self.video_bitrate_kbps);
        push_text(&mut properties, "audiocodecid", &self.audio_codec);
        push_u32(&mut properties, "audiodatarate", self.audio_bitrate_kbps);
        push_u32(&mut properties, "audiosamplerate", self.audio_sample_rate);
        push_u32(&mut properties, "audiosamplesize", self.audio_sample_size);
        push_u32(&mut properties, "audiochannels", self.audio_channels);
        match self.audio_is_stereo {
            Some(stereo) => {
                crate::amf0::push_property(&mut properties, "stereo", AmfValue::Boolean(stereo));
            },
            None => {},
        }
        push_text(&mut properties, "encoder", &self.encoder);
        properties
    }
}

} // verus!
