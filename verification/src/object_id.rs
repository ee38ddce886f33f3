//! Twelve-byte document identifiers and their hexadecimal text form.

use vstd::prelude::*;
use vstd::std_specs::cmp::PartialEqSpecImpl;

verus! {

/// The value of a hexadecimal digit, in either case; `-1` for any other character.
pub open spec fn hex_value(c: char) -> int {
    if '0' <= c && c <= '9' {
        c as int - '0' as int
    } else if 'a' <= c && c <= 'f' {
        c as int - 'a' as int + 10
    } else if 'A' <= c && c <= 'F' {
        c as int - 'A' as int + 10
    } else {
        -1
    }
}

/// The lower-case hexadecimal digit that stands for `v`, where `0 <= v < 16`.
pub open spec fn hex_digit(v: int) -> char {
    if v < 10 {
        ((v + '0' as int) as u8) as char
    } else {
        ((v - 10 + 'a' as int) as u8) as char
    }
}

/// A text is the hexadecimal form of an identifier when it has twenty-four
/// characters and each of them is a hexadecimal digit.
pub open spec fn is_hex_id(s: Seq<char>) -> bool {
    &&& s.len() == 24
    &&& forall|i: int| 0 <= i < 24 ==> hex_value(#[trigger] s[i]) >= 0
}

/// The byte that the two digits at `2 * i` and `2 * i + 1` stand for, the high
/// digit first.
pub open spec fn hex_byte(s: Seq<char>, i: int) -> u8 {
    (16 * hex_value(s[2 * i]) + hex_value(s[2 * i + 1])) as u8
}

/// The twelve bytes that a hexadecimal form stands for.
pub open spec fn hex_bytes(s: Seq<char>) -> Seq<u8> {
    Seq::new(12, |i: int| hex_byte(s, i))
}

/// The lower-case hexadecimal form of a sequence of bytes.
pub open spec fn hex_text(bytes: Seq<u8>) -> Seq<char> {
    Seq::new(
        2 * bytes.len(),
        |i: int|
            if i % 2 == 0 {
                hex_digit(bytes[i / 2] as int / 16)
            } else {
                hex_digit(bytes[i / 2] as int % 16)
            },
    )
}

#[verifier::external_type_specification]
#[verifier::external_body]
pub struct ExOidError(bson::oid::Error);

/// `bson::oid::ObjectId::parse_str`, with the parsed identifier given as its bytes.
///
/// Trusted: the call succeeds exactly on twenty-four hexadecimal digits of
/// either case, and each byte of the result is made of two digits, the high one
/// first.
#[verifier::external_body]
fn parse_hex(s: &str) -> (res: Result<[u8; 12], bson::oid::Error>)
    ensures
        res is Ok <==> is_hex_id(s@),
        res matches Ok(bytes) ==> bytes@ == hex_bytes(s@),
{
    match bson::oid::ObjectId::parse_str(s) {
        Ok(id) => Ok(id.bytes()),
        Err(e) => Err(e),
    }
}

/// `bson::oid::ObjectId::to_hex`, on the identifier with the given bytes.
///
/// Trusted: the result is the lower-case hexadecimal form of the bytes.
#[verifier::external_body]
fn format_hex(bytes: [u8; 12]) -> (res: String)
    ensures
        res@ == hex_text(bytes@),
{
    bson::oid::ObjectId::from_bytes(bytes).to_hex()
}

/// `bson::oid::ObjectId::new`, with the new identifier given as its bytes.
///
/// Trusted: nothing is claimed of the bytes, which are made of the clock, of a
/// random number and of a counter. The call panics while the system clock
/// stands before 1970 or behind 2106.
#[verifier::external_body]
fn generate() -> [u8; 12] {
    bson::oid::ObjectId::new().bytes()
}

/// The identifier of a stored document.
#[derive(Clone, Copy, Debug, Eq)]
pub struct ObjectId {
    pub bytes: [u8; 12],
}

impl PartialEq for ObjectId {
    fn eq(&self, other: &Self) -> (r: bool) {
        let mut i: usize = 0;
        while i < 12
            invariant
                i <= 12,
                forall|j: int| 0 <= j < i ==> self.bytes[j] == other.bytes[j],
            decreases 12 - i,
        {
            if self.bytes[i] != other.bytes[i] {
                return false;
            }
            i = i + 1;
        }
        assert(self.bytes =~= other.bytes);
        true
    }
}

impl PartialEqSpecImpl for ObjectId {
    open spec fn obeys_eq_spec() -> bool {
        true
    }

    open spec fn eq_spec(&self, other: &Self) -> bool {
        *self == *other
    }
}

impl View for ObjectId {
    type V = Seq<u8>;

    open spec fn view(&self) -> Seq<u8> {
        self.bytes@
    }
}

impl ObjectId {
    /// The identifier made of the first twelve bytes of `s`.
    pub open spec fn of(s: Seq<u8>) -> ObjectId {
        ObjectId {
            bytes: [s[0], s[1], s[2], s[3], s[4], s[5], s[6], s[7], s[8], s[9], s[10], s[11]],
        }
    }

    /// What a text reads as: the identifier it is the hexadecimal form of, if
    /// it is one.
    pub open spec fn parsed(s: Seq<char>) -> Option<ObjectId> {
        if is_hex_id(s) {
            Some(ObjectId::of(hex_bytes(s)))
        } else {
            None
        }
    }

    /// The identifier with the given bytes.
    pub fn from_bytes(bytes: [u8; 12]) -> (id: ObjectId)
        ensures
            id.bytes == bytes,
    {
        ObjectId { bytes }
    }

    /// A new identifier. Which one is not fixed: it changes from call to call.
    pub fn new() -> ObjectId {
        ObjectId { bytes: generate() }
    }

    /// Reads an identifier from its hexadecimal form, in either case.
    pub fn parse_str(s: &str) -> (res: Option<ObjectId>)
        ensures
            res == ObjectId::parsed(s@),
    {
        match parse_hex(s) {
            Ok(bytes) => {
                let id = ObjectId { bytes };
                proof {
                    lemma_of_bytes(hex_bytes(s@));
                    lemma_same_bytes(id, ObjectId::of(hex_bytes(s@)));
                }
                Some(id)
            },
            Err(_) => None,
        }
    }

    /// The lower-case hexadecimal form of the identifier.
    pub fn to_hex(&self) -> (res: String)
        ensures
            res@ == hex_text(self@),
    {
        format_hex(self.bytes)
    }
}

/// Two identifiers with the same bytes are the same identifier.
pub proof fn lemma_same_bytes(a: ObjectId, b: ObjectId)
    requires
        a@ =~= b@,
    ensures
        a == b,
{
    assert(a.bytes =~= b.bytes);
}

/// The hexadecimal form of an identifier reads back as that identifier.
pub proof fn lemma_hex_round_trip(id: ObjectId)
    ensures
        ObjectId::parsed(hex_text(id@)) == Some(id),
{
    let bytes = hex_bytes(hex_text(id@));
    assert(is_hex_id(hex_text(id@)) && bytes == id@) by {
        lemma_hex_bytes_of_text(id);
    }
    assert(ObjectId::of(bytes) == id) by {
        lemma_of_bytes(id@);
        lemma_same_bytes(ObjectId::of(id@), id);
    }
}

/// The identifier made of twelve bytes has those bytes.
pub proof fn lemma_of_bytes(s: Seq<u8>)
    requires
        s.len() == 12,
    ensures
        ObjectId::of(s)@ == s,
{
    assert(ObjectId::of(s)@ =~= s);
}

proof fn lemma_hex_bytes_of_text(id: ObjectId)
    ensures
        is_hex_id(hex_text(id@)),
        hex_bytes(hex_text(id@)) == id@,
{
    let b = id@;
    let s = hex_text(b);
    assert(b.len() == 12);
    assert forall|i: int| 0 <= i < 24 implies hex_value(#[trigger] s[i]) >= 0 by {
        lemma_digit_value(b[i / 2] as int / 16);
        lemma_digit_value(b[i / 2] as int % 16);
    }
    assert forall|i: int| 0 <= i < 12 implies hex_bytes(s)[i] == b[i] by {
        lemma_digit_value(b[i] as int / 16);
        lemma_digit_value(b[i] as int % 16);
        assert(s[2 * i] == hex_digit(b[(2 * i) / 2] as int / 16));
        assert(s[2 * i + 1] == hex_digit(b[(2 * i + 1) / 2] as int % 16));
    }
    assert(hex_bytes(s) =~= b);
}

/// A digit made by `hex_digit` has the value it was made of.
proof fn lemma_digit_value(v: int)
    requires
        0 <= v < 16,
    ensures
        hex_value(hex_digit(v)) == v,
{
}

} // verus!
