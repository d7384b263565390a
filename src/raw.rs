//! Raw bytes: the payload travels unchanged under the encoding `raw`.

use std::sync::Arc;
use vstd::prelude::*;
use crate::descriptor::{str_eq, DataTypeInfo};

verus! {

/// The encoding name of raw payloads.
pub open spec fn raw_encoding() -> Seq<char> {
    "raw"@
}

/// What a raw receiver makes of `bytes` observed under `encoding`.
pub open spec fn raw_decoded(bytes: Seq<u8>, encoding: Seq<char>) -> Option<Seq<u8>> {
    if encoding == raw_encoding() {
        Some(bytes)
    } else {
        None
    }
}

/// A copy of `b` in a fresh vector.
pub fn copy_bytes(b: &[u8]) -> (r: Vec<u8>)
    ensures
        r@ == b@,
{
    let mut r: Vec<u8> = Vec::with_capacity(b.len());
    let mut i: usize = 0;
    while i < b.len()
        invariant
            i <= b@.len(),
            r@ == b@.subrange(0, i as int),
        decreases b@.len() - i,
    {
        r.push(b[i]);
        i = i + 1;
    }
    assert(r@ =~= b@);
    r
}

/// A raw byte payload.
#[derive(Debug, Clone)]
pub struct BytesMessage {
    pub data: Arc<Vec<u8>>,
}

impl BytesMessage {
    /// Wraps a byte payload.
    pub fn new(payload: Vec<u8>) -> (r: Self)
        ensures
            r.data@ == payload@,
    {
        BytesMessage { data: Arc::new(payload) }
    }

    /// The descriptor: encoding `raw`, type name `bytes`.
    pub fn datatype() -> (r: DataTypeInfo)
        ensures
            r.encoding@ == raw_encoding(),
            r.message_type@ == "bytes"@,
            r.descriptor@.len() == 0,
    {
        DataTypeInfo::new("raw", "bytes")
    }

    /// The payload, unchanged.
    pub fn to_bytes(&self) -> (r: Vec<u8>)
        ensures
            r@ == self.data@,
    {
        copy_bytes(self.data.as_slice())
    }

    /// Takes the bytes as they are where the observed encoding is `raw`;
    /// none otherwise.
    pub fn from_bytes(bytes: &[u8], observed: &DataTypeInfo) -> (r: Option<Self>)
        ensures
            raw_decoded(bytes@, observed.encoding@) == match r {
                Some(m) => Some(m.data@),
                None => None::<Seq<u8>>,
            },
    {
        if str_eq(observed.encoding.as_str(), "raw") {
            Some(BytesMessage::new(copy_bytes(bytes)))
        } else {
            None
        }
    }
}

/// Raw payloads survive a send and a receipt unchanged: the bytes that
/// `to_bytes` gives, read under the encoding that `datatype` gives, are the
/// payload itself.
pub proof fn lemma_raw_round_trip(payload: Seq<u8>)
    ensures
        raw_decoded(payload, raw_encoding()) == Some(payload),
{
}

} // verus!
