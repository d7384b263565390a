//! The metadata triple that travels with every topic: wire encoding,
//! logical type name and optional schema bytes.

use vstd::prelude::*;

verus! {

/// Describes how the payload of a topic is serialized.
#[derive(Debug, Clone)]
pub struct DataTypeInfo {
    /// Wire encoding name, such as `raw`, `proto` or `json`.
    pub encoding: String,
    /// Logical type name of the payload.
    pub message_type: String,
    /// Schema bytes for formats that are not self-describing; may be empty.
    pub descriptor: Vec<u8>,
}

/// True where `s` holds the separator `::` at positions `i` and `i + 1`.
pub open spec fn sep_at(s: Seq<char>, i: int) -> bool {
    0 <= i && i + 1 < s.len() && s[i] == ':' && s[i + 1] == ':'
}

/// The text after the last `::` of `s` (the one that starts furthest right),
/// or all of `s` where it holds none.
pub open spec fn short_name(s: Seq<char>) -> Seq<char>
    decreases s.len(),
{
    if s.len() < 2 {
        s
    } else if sep_at(s, s.len() - 2) {
        Seq::empty()
    } else {
        short_name(s.drop_last()).push(s.last())
    }
}

/// Strips the module path from a qualified type name: `a::b::Person`
/// becomes `Person`.
pub fn short_type_name(full: &str) -> (r: String)
    ensures
        r@ == short_name(full@),
{
    let n = full.unicode_len();
    let mut i: usize = n;
    assert(full@.subrange(0, n as int) =~= full@);
    assert(short_name(full@) =~= short_name(full@) + full@.subrange(n as int, n as int));
    while i >= 2
        invariant
            n == full@.len(),
            i <= n,
            short_name(full@) == short_name(full@.subrange(0, i as int)) + full@.subrange(
                i as int,
                n as int,
            ),
        decreases i,
    {
        let a = full.get_char(i - 2);
        let b = full.get_char(i - 1);
        let ghost p = full@.subrange(0, i as int);
        if a == ':' && b == ':' {
            assert(sep_at(p, p.len() - 2));
            let tail = full.substring_char(i, n);
            return tail.to_string();
        }
        assert(p.drop_last() =~= full@.subrange(0, i - 1));
        assert(full@.subrange(i - 1, n as int) =~= seq![p.last()] + full@.subrange(
            i as int,
            n as int,
        ));
        assert(short_name(p) == short_name(p.drop_last()).push(p.last()));
        assert(short_name(full@) =~= short_name(full@.subrange(0, i - 1)) + full@.subrange(
            i - 1,
            n as int,
        ));
        i = i - 1;
    }
    assert(full@.subrange(0, i as int) + full@.subrange(i as int, n as int) =~= full@);
    full.to_string()
}

impl DataTypeInfo {
    /// Builds a descriptor with the given encoding and message type and no
    /// schema bytes.
    pub fn new(encoding: &str, message_type: &str) -> (r: DataTypeInfo)
        ensures
            r.encoding@ == encoding@,
            r.message_type@ == message_type@,
            r.descriptor@ == Seq::<u8>::empty(),
    {
        DataTypeInfo {
            encoding: encoding.to_string(),
            message_type: message_type.to_string(),
            descriptor: Vec::new(),
        }
    }

    /// Two descriptors agree on the wire when their encodings are equal,
    /// character for character.
    pub fn same_encoding(&self, other: &DataTypeInfo) -> (r: bool)
        ensures
            r == (self.encoding@ == other.encoding@),
    {
        str_eq(self.encoding.as_str(), other.encoding.as_str())
    }
}

/// Character-wise equality of two strings.
pub fn str_eq(a: &str, b: &str) -> (r: bool)
    ensures
        r == (a@ == b@),
{
    let n = a.unicode_len();
    let m = b.unicode_len();
    if n != m {
        return false;
    }
    let mut i: usize = 0;
    while i < n
        invariant
            n == a@.len(),
            m == b@.len(),
            n == m,
            i <= n,
            forall|k: int| 0 <= k < i ==> a@[k] == b@[k],
        decreases n - i,
    {
        if a.get_char(i) != b.get_char(i) {
            return false;
        }
        i = i + 1;
    }
    assert(a@ =~= b@);
    true
}

} // verus!
