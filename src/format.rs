//! The structured-data formats (JSON, CBOR, MessagePack): their wire names,
//! the choice of a format from an observed encoding, and the codecs.

use vstd::prelude::*;

verus! {

/// One of the self-describing structured-data formats.
#[derive(Debug, Clone, Copy, PartialEq, Eq, Structural)]
pub enum WireFormat {
    Json,
    Cbor,
    Msgpack,
}

/// The encoding name that a descriptor carries for `f`.
pub open spec fn encoding_of(f: WireFormat) -> Seq<char> {
    match f {
        WireFormat::Json => "json"@,
        WireFormat::Cbor => "cbor"@,
        WireFormat::Msgpack => "msgpack"@,
    }
}

/// The code point of `c` with ASCII upper-case letters taken to lower case.
pub open spec fn ascii_lower(c: char) -> u32 {
    if 65 <= (c as u32) && (c as u32) <= 90 {
        ((c as u32) + 32) as u32
    } else {
        c as u32
    }
}

/// Equal up to the case of ASCII letters.
pub open spec fn eq_ignore_ascii_case(a: Seq<char>, b: Seq<char>) -> bool {
    a.len() == b.len() && forall|i: int| 0 <= i < a.len() ==> ascii_lower(a[i]) == ascii_lower(b[i])
}

/// The format that an observed encoding name selects: `json` and `cbor`
/// exactly, `msgpack` or `messagepack` in any ASCII case; none for any other.
pub open spec fn format_of(s: Seq<char>) -> Option<WireFormat> {
    if s == "json"@ {
        Some(WireFormat::Json)
    } else if s == "cbor"@ {
        Some(WireFormat::Cbor)
    } else if eq_ignore_ascii_case(s, "msgpack"@) || eq_ignore_ascii_case(s, "messagepack"@) {
        Some(WireFormat::Msgpack)
    } else {
        None
    }
}

fn lower_char(c: char) -> (r: u32)
    ensures
        r == ascii_lower(c),
{
    let x = c as u32;
    if 65 <= x && x <= 90 {
        x + 32
    } else {
        x
    }
}

/// Compares two strings, ignoring the case of ASCII letters.
pub fn str_eq_ignore_ascii_case(a: &str, b: &str) -> (r: bool)
    ensures
        r == eq_ignore_ascii_case(a@, b@),
{
    let n = a.unicode_len();
    if n != b.unicode_len() {
        return false;
    }
    let mut i: usize = 0;
    while i < n
        invariant
            n == a@.len(),
            n == b@.len(),
            i <= n,
            forall|k: int| 0 <= k < i ==> ascii_lower(a@[k]) == ascii_lower(b@[k]),
        decreases n - i,
    {
        if lower_char(a.get_char(i)) != lower_char(b.get_char(i)) {
            return false;
        }
        i = i + 1;
    }
    true
}

impl WireFormat {
    /// The encoding name written into descriptors for this format.
    pub fn encoding(&self) -> (r: &'static str)
        ensures
            r@ == encoding_of(*self),
    {
        match self {
            WireFormat::Json => "json",
            WireFormat::Cbor => "cbor",
            WireFormat::Msgpack => "msgpack",
        }
    }

    /// Selects the format named by an observed encoding string.
    pub fn from_encoding(s: &str) -> (r: Option<WireFormat>)
        ensures
            r == format_of(s@),
    {
        if crate::descriptor::str_eq(s, "json") {
            Some(WireFormat::Json)
        } else if crate::descriptor::str_eq(s, "cbor") {
            Some(WireFormat::Cbor)
        } else if str_eq_ignore_ascii_case(s, "msgpack") || str_eq_ignore_ascii_case(
            s,
            "messagepack",
        ) {
            Some(WireFormat::Msgpack)
        } else {
            None
        }
    }
}

/// The encoding name that a format advertises selects that format on
/// receipt, and no other: a receiver bound to another format gives none.
pub proof fn lemma_encoding_selects_own_format(f: WireFormat, g: WireFormat)
    ensures
        format_of(encoding_of(f)) == Some(f),
        g != f ==> format_of(encoding_of(f)) != Some(g),
{
    reveal_strlit("json");
    reveal_strlit("cbor");
    reveal_strlit("msgpack");
    reveal_strlit("messagepack");
    assert("json"@ != "cbor"@) by {
        assert("json"@[0] != "cbor"@[0]);
    }
    assert("msgpack"@ != "json"@) by {
        assert("msgpack"@.len() != "json"@.len());
    }
    assert("msgpack"@ != "cbor"@) by {
        assert("msgpack"@.len() != "cbor"@.len());
    }
    assert(!eq_ignore_ascii_case("json"@, "msgpack"@));
    assert(!eq_ignore_ascii_case("json"@, "messagepack"@));
    assert(!eq_ignore_ascii_case("cbor"@, "msgpack"@));
    assert(!eq_ignore_ascii_case("cbor"@, "messagepack"@));
    assert(eq_ignore_ascii_case("msgpack"@, "msgpack"@));
}

/// A value could not be serialized in the given format.
#[derive(Debug, Clone, Copy, PartialEq, Eq, Structural)]
pub struct EncodeError {
    pub format: WireFormat,
}

/// JSON support through `serde_json`.
#[derive(Debug, Clone)]
pub struct JsonSupport;

/// CBOR support through `serde_cbor`.
#[derive(Debug, Clone)]
pub struct CborSupport;

/// MessagePack support through `rmp_serde`.
#[derive(Debug, Clone)]
pub struct MsgpackSupport;

impl JsonSupport {
    /// Relies on `serde_json::to_vec`; its result depends on the payload
    /// type's `Serialize` impl, so nothing is stated of it.
    #[verifier::external_body]
    pub fn encode<T: serde::Serialize>(payload: &T) -> Option<Vec<u8>> {
        serde_json::to_vec(payload).ok()
    }

    /// Relies on `serde_json::from_slice`; its result depends on the payload
    /// type's `Deserialize` impl, so nothing is stated of it.
    #[verifier::external_body]
    pub fn decode<T: serde::de::DeserializeOwned>(bytes: &[u8]) -> Option<T> {
        serde_json::from_slice(bytes).ok()
    }
}

impl CborSupport {
    /// Relies on `serde_cbor::to_vec`; its result depends on the payload
    /// type's `Serialize` impl, so nothing is stated of it.
    #[verifier::external_body]
    pub fn encode<T: serde::Serialize>(payload: &T) -> Option<Vec<u8>> {
        serde_cbor::to_vec(payload).ok()
    }

    /// Relies on `serde_cbor::from_slice`; its result depends on the payload
    /// type's `Deserialize` impl, so nothing is stated of it.
    #[verifier::external_body]
    pub fn decode<T: serde::de::DeserializeOwned>(bytes: &[u8]) -> Option<T> {
        serde_cbor::from_slice(bytes).ok()
    }
}

impl MsgpackSupport {
    /// Relies on `rmp_serde::to_vec`; its result depends on the payload
    /// type's `Serialize` impl, so nothing is stated of it.
    #[verifier::external_body]
    pub fn encode<T: serde::Serialize>(payload: &T) -> Option<Vec<u8>> {
        rmp_serde::to_vec(payload).ok()
    }

    /// Relies on `rmp_serde::from_slice`; its result depends on the payload
    /// type's `Deserialize` impl, so nothing is stated of it.
    #[verifier::external_body]
    pub fn decode<T: serde::de::DeserializeOwned>(bytes: &[u8]) -> Option<T> {
        rmp_serde::from_slice(bytes).ok()
    }
}

/// Serializes `payload` in format `f`; the error names the format.
pub fn encode_as<T: serde::Serialize>(f: WireFormat, payload: &T) -> (r: Result<Vec<u8>, EncodeError>)
    ensures
        r matches Err(e) ==> e.format == f,
{
    let bytes = match f {
        WireFormat::Json => JsonSupport::encode(payload),
        WireFormat::Cbor => CborSupport::encode(payload),
        WireFormat::Msgpack => MsgpackSupport::encode(payload),
    };
    match bytes {
        Some(b) => Ok(b),
        None => Err(EncodeError { format: f }),
    }
}

/// Deserializes `bytes` in format `f`.
pub fn decode_as<T: serde::de::DeserializeOwned>(f: WireFormat, bytes: &[u8]) -> Option<T> {
    match f {
        WireFormat::Json => JsonSupport::decode(bytes),
        WireFormat::Cbor => CborSupport::decode(bytes),
        WireFormat::Msgpack => MsgpackSupport::decode(bytes),
    }
}

} // verus!
