//! The protocol-buffer wrapper. Only payload types that opt in through
//! [`IsProtobufType`] can be wrapped: the bound rejects any other type when
//! the program is compiled.

use std::sync::Arc;
use vstd::prelude::*;
use crate::descriptor::{str_eq, DataTypeInfo};

verus! {

/// Marks a `prost::Message` type as allowed on the wire.
pub trait IsProtobufType {}

/// The encoding name of protocol-buffer payloads.
pub open spec fn proto_encoding() -> Seq<char> {
    "proto"@
}

/// Relies on `prost::Message::encode_to_vec`, which never fails; the bytes
/// depend on the message type's own impl, so nothing is stated of them.
#[verifier::external_body]
fn proto_encode<T: prost::Message>(msg: &T) -> Vec<u8> {
    msg.encode_to_vec()
}

/// Relies on `prost::Message::decode`: none where the bytes are malformed.
#[verifier::external_body]
fn proto_decode<T: prost::Message + Default>(bytes: &[u8]) -> Option<T> {
    T::decode(bytes).ok()
}

/// A protocol-buffer payload.
#[derive(Debug, Clone)]
pub struct ProtobufMessage<T> {
    pub data: Arc<T>,
}

impl<T: prost::Message + Default + IsProtobufType> ProtobufMessage<T> {
    /// Wraps a payload.
    pub fn new(payload: T) -> (r: Self)
        ensures
            r.data == payload,
    {
        ProtobufMessage { data: Arc::new(payload) }
    }

    /// The descriptor: encoding `proto` and the message's fully qualified
    /// type name `qualified`.
    pub fn datatype(qualified: &str) -> (r: DataTypeInfo)
        ensures
            r.encoding@ == proto_encoding(),
            r.message_type@ == qualified@,
            r.descriptor@.len() == 0,
    {
        DataTypeInfo::new("proto", qualified)
    }

    /// Encodes the payload in the protocol-buffer wire format.
    pub fn to_bytes(&self) -> Vec<u8> {
        proto_encode(&*self.data)
    }

    /// Decodes a payload; none where the observed encoding is not `proto`
    /// or the bytes are malformed.
    pub fn from_bytes(bytes: &[u8], observed: &DataTypeInfo) -> (r: Option<Self>)
        ensures
            observed.encoding@ != proto_encoding() ==> r is None,
    {
        if !str_eq(observed.encoding.as_str(), "proto") {
            return None;
        }
        match proto_decode(bytes) {
            Some(m) => Some(ProtobufMessage::new(m)),
            None => None,
        }
    }
}

} // verus!
