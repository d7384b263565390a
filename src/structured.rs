//! Message wrappers for serde payloads: one per fixed format, and one that
//! carries its format as a value and picks it from the observed descriptor.

use std::sync::Arc;
use vstd::prelude::*;
use crate::descriptor::{short_name, short_type_name, DataTypeInfo};
use crate::format::{decode_as, encode_as, encoding_of, format_of, EncodeError, WireFormat};

verus! {

/// The descriptor that a payload of qualified type name `qualified`
/// advertises in format `f`.
pub open spec fn descriptor_matches(d: DataTypeInfo, f: WireFormat, qualified: Seq<char>) -> bool {
    &&& d.encoding@ == encoding_of(f)
    &&& d.message_type@ == short_name(qualified)
    &&& d.descriptor@.len() == 0
}

/// Descriptor consistency: the descriptor that a wrapper of format `f`
/// advertises selects `f` on receipt, and no other format, so a receiver
/// bound to another format gives none.
pub proof fn lemma_descriptor_consistency(d: DataTypeInfo, f: WireFormat, g: WireFormat, qualified: Seq<char>)
    requires
        descriptor_matches(d, f, qualified),
    ensures
        format_of(d.encoding@) == Some(f),
        g != f ==> format_of(d.encoding@) != Some(g),
{
    crate::format::lemma_encoding_selects_own_format(f, g);
}

/// Builds the descriptor for format `f` and a payload whose qualified type
/// name is `qualified`.
pub fn format_descriptor(f: WireFormat, qualified: &str) -> (r: DataTypeInfo)
    ensures
        descriptor_matches(r, f, qualified@),
{
    let short = short_type_name(qualified);
    DataTypeInfo { encoding: f.encoding().to_string(), message_type: short, descriptor: Vec::new() }
}

/// Decodes `bytes` in format `f` where the observed descriptor names that
/// format, and gives none where it names another one or none at all.
pub fn decode_expected<T: serde::de::DeserializeOwned>(
    f: WireFormat,
    bytes: &[u8],
    observed: &DataTypeInfo,
) -> (r: Option<T>)
    ensures
        format_of(observed.encoding@) != Some(f) ==> r is None,
{
    match WireFormat::from_encoding(observed.encoding.as_str()) {
        Some(g) => {
            if g == f {
                decode_as(f, bytes)
            } else {
                None
            }
        },
        None => None,
    }
}

/// A payload sent and received as JSON.
#[derive(Debug, Clone)]
pub struct JsonMessage<T> {
    pub data: Arc<T>,
}

/// A payload sent and received as CBOR.
#[derive(Debug, Clone)]
pub struct CborMessage<T> {
    pub data: Arc<T>,
}

/// A payload sent and received as MessagePack.
#[derive(Debug, Clone)]
pub struct MsgpackMessage<T> {
    pub data: Arc<T>,
}

impl<T> JsonMessage<T> {
    /// Wraps a payload.
    pub fn new(payload: T) -> (r: Self)
        ensures
            r.data == payload,
    {
        JsonMessage { data: Arc::new(payload) }
    }

    /// The descriptor of this wrapper, for a payload whose qualified type
    /// name is `qualified`.
    pub fn datatype(qualified: &str) -> (r: DataTypeInfo)
        ensures
            descriptor_matches(r, WireFormat::Json, qualified@),
    {
        format_descriptor(WireFormat::Json, qualified)
    }
}

impl<T: serde::Serialize> JsonMessage<T> {
    /// Serializes the payload as JSON.
    pub fn to_bytes(&self) -> (r: Result<Vec<u8>, EncodeError>)
        ensures
            r matches Err(e) ==> e.format == WireFormat::Json,
    {
        encode_as(WireFormat::Json, &*self.data)
    }
}

impl<T: serde::de::DeserializeOwned> JsonMessage<T> {
    /// Deserializes a payload; none where the observed descriptor is not
    /// JSON's or the bytes do not decode.
    pub fn from_bytes(bytes: &[u8], observed: &DataTypeInfo) -> (r: Option<Self>)
        ensures
            format_of(observed.encoding@) != Some(WireFormat::Json) ==> r is None,
    {
        match decode_expected(WireFormat::Json, bytes, observed) {
            Some(p) => Some(JsonMessage::new(p)),
            None => None,
        }
    }
}

impl<T> CborMessage<T> {
    /// Wraps a payload.
    pub fn new(payload: T) -> (r: Self)
        ensures
            r.data == payload,
    {
        CborMessage { data: Arc::new(payload) }
    }

    /// The descriptor of this wrapper, for a payload whose qualified type
    /// name is `qualified`.
    pub fn datatype(qualified: &str) -> (r: DataTypeInfo)
        ensures
            descriptor_matches(r, WireFormat::Cbor, qualified@),
    {
        format_descriptor(WireFormat::Cbor, qualified)
    }
}

impl<T: serde::Serialize> CborMessage<T> {
    /// Serializes the payload as CBOR.
    pub fn to_bytes(&self) -> (r: Result<Vec<u8>, EncodeError>)
        ensures
            r matches Err(e) ==> e.format == WireFormat::Cbor,
    {
        encode_as(WireFormat::Cbor, &*self.data)
    }
}

impl<T: serde::de::DeserializeOwned> CborMessage<T> {
    /// Deserializes a payload; none where the observed descriptor is not
    /// CBOR's or the bytes do not decode.
    pub fn from_bytes(bytes: &[u8], observed: &DataTypeInfo) -> (r: Option<Self>)
        ensures
            format_of(observed.encoding@) != Some(WireFormat::Cbor) ==> r is None,
    {
        match decode_expected(WireFormat::Cbor, bytes, observed) {
            Some(p) => Some(CborMessage::new(p)),
            None => None,
        }
    }
}

impl<T> MsgpackMessage<T> {
    /// Wraps a payload.
    pub fn new(payload: T) -> (r: Self)
        ensures
            r.data == payload,
    {
        MsgpackMessage { data: Arc::new(payload) }
    }

    /// The descriptor of this wrapper, for a payload whose qualified type
    /// name is `qualified`.
    pub fn datatype(qualified: &str) -> (r: DataTypeInfo)
        ensures
            descriptor_matches(r, WireFormat::Msgpack, qualified@),
    {
        format_descriptor(WireFormat::Msgpack, qualified)
    }
}

impl<T: serde::Serialize> MsgpackMessage<T> {
    /// Serializes the payload as MessagePack.
    pub fn to_bytes(&self) -> (r: Result<Vec<u8>, EncodeError>)
        ensures
            r matches Err(e) ==> e.format == WireFormat::Msgpack,
    {
        encode_as(WireFormat::Msgpack, &*self.data)
    }
}

impl<T: serde::de::DeserializeOwned> MsgpackMessage<T> {
    /// Deserializes a payload; none where the observed descriptor is not
    /// MessagePack's or the bytes do not decode.
    pub fn from_bytes(bytes: &[u8], observed: &DataTypeInfo) -> (r: Option<Self>)
        ensures
            format_of(observed.encoding@) != Some(WireFormat::Msgpack) ==> r is None,
    {
        match decode_expected(WireFormat::Msgpack, bytes, observed) {
            Some(p) => Some(MsgpackMessage::new(p)),
            None => None,
        }
    }
}

/// A payload together with the format it is sent in; on receipt the format
/// is taken from the observed descriptor.
#[derive(Debug, Clone)]
pub struct SerdeMessage<T> {
    pub data: Arc<T>,
    pub format: WireFormat,
}

impl<T> SerdeMessage<T> {
    /// Wraps a payload to be sent in format `format`.
    pub fn new(payload: T, format: WireFormat) -> (r: Self)
        ensures
            r.data == payload,
            r.format == format,
    {
        SerdeMessage { data: Arc::new(payload), format }
    }

    /// The descriptor of this message: its own format's encoding name, so
    /// that the format is visible on the wire.
    pub fn datatype(&self, qualified: &str) -> (r: DataTypeInfo)
        ensures
            descriptor_matches(r, self.format, qualified@),
    {
        format_descriptor(self.format, qualified)
    }
}

impl<T: serde::Serialize> SerdeMessage<T> {
    /// Serializes the payload in the message's format.
    pub fn to_bytes(&self) -> (r: Result<Vec<u8>, EncodeError>)
        ensures
            r matches Err(e) ==> e.format == self.format,
    {
        encode_as(self.format, &*self.data)
    }
}

impl<T: serde::de::DeserializeOwned> SerdeMessage<T> {
    /// Deserializes a payload in the format that the observed descriptor
    /// names; none where it names no known format or the bytes do not decode.
    pub fn from_bytes(bytes: &[u8], observed: &DataTypeInfo) -> (r: Option<Self>)
        ensures
            format_of(observed.encoding@) is None ==> r is None,
            r matches Some(m) ==> Some(m.format) == format_of(observed.encoding@),
    {
        match WireFormat::from_encoding(observed.encoding.as_str()) {
            Some(f) => match decode_as(f, bytes) {
                Some(p) => Some(SerdeMessage::new(p, f)),
                None => None,
            },
            None => None,
        }
    }
}

} // verus!
