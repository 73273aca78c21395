//! MongoDB object identifiers, held as their twelve raw bytes.

use vstd::prelude::*;

verus! {

/// The character that stands for a nibble (`0..16`) in lowercase hex.
pub open spec fn hex_char(n: int) -> char {
    if n < 10 {
        (n + 48) as char
    } else {
        (n + 87) as char
    }
}

/// Lowercase hex text of a byte sequence, high nibble first.
pub open spec fn hex_lower(bytes: Seq<u8>) -> Seq<char> {
    Seq::new(
        2 * bytes.len(),
        |i: int|
            if i % 2 == 0 {
                hex_char(bytes[i / 2] as int / 16)
            } else {
                hex_char(bytes[i / 2] as int % 16)
            },
    )
}

/// The value of a hex digit of either case, or -1 for any other character.
pub open spec fn hex_value(c: char) -> int {
    let n = c as int;
    if 48 <= n <= 57 {
        n - 48
    } else if 97 <= n <= 102 {
        n - 87
    } else if 65 <= n <= 70 {
        n - 55
    } else {
        -1
    }
}

pub open spec fn is_hex_char(c: char) -> bool {
    hex_value(c) >= 0
}

/// Text that denotes an object id: exactly 24 hex digits, of either case.
pub open spec fn is_object_id_text(s: Seq<char>) -> bool {
    &&& s.len() == 24
    &&& forall|i: int| 0 <= i < s.len() ==> is_hex_char(#[trigger] s[i])
}

/// The bytes that a text of hex digits denotes, two digits per byte.
pub open spec fn hex_decode(s: Seq<char>) -> Seq<u8> {
    Seq::new(
        s.len() / 2,
        |i: int| (16 * hex_value(s[2 * i]) + hex_value(s[2 * i + 1])) as u8,
    )
}

/// ASCII lowercase of a character (uppercase ASCII letters only change).
pub open spec fn ascii_lower(c: char) -> char {
    if 65 <= (c as int) <= 90 {
        ((c as int) + 32) as char
    } else {
        c
    }
}

pub open spec fn ascii_lower_text(s: Seq<char>) -> Seq<char> {
    Seq::new(s.len(), |i: int| ascii_lower(s[i]))
}

/// Calls `mongodb::bson::oid::ObjectId::parse_str`. Claimed, from the source of
/// `bson` and of `hex::decode`: the text is accepted exactly when it is 24 hex
/// digits (either case), and the id is the bytes those digit pairs denote.
#[verifier::external_body]
fn bson_parse_object_id(text: &str) -> (res: Option<[u8; 12]>)
    ensures
        res is Some <==> is_object_id_text(text@),
        res matches Some(bytes) ==> bytes@ == hex_decode(text@),
{
    match mongodb::bson::oid::ObjectId::parse_str(text) {
        Ok(id) => Some(id.bytes()),
        Err(_) => None,
    }
}

/// Calls `mongodb::bson::oid::ObjectId::to_hex`. Claimed, from the source of
/// `bson` and of `hex::encode`: the text is the lowercase hex of the twelve
/// bytes, high nibble first.
#[verifier::external_body]
fn bson_object_id_hex(bytes: [u8; 12]) -> (res: String)
    ensures
        res@ == hex_lower(bytes@),
{
    mongodb::bson::oid::ObjectId::from_bytes(bytes).to_hex()
}

/// Calls `mongodb::bson::oid::ObjectId::new`. Its bytes come from the clock,
/// a per-process random value and a counter, so nothing is claimed of them.
/// The outside function panics when the system clock reads before 1970 or
/// after 2106, which no argument can rule out.
#[verifier::external_body]
fn bson_new_object_id() -> (res: [u8; 12]) {
    mongodb::bson::oid::ObjectId::new().bytes()
}

/// A MongoDB object id.
#[derive(Clone, Copy, Debug, PartialEq, Eq, Hash)]
pub struct ObjectId {
    pub bytes: [u8; 12],
}

impl ObjectId {
    /// A fresh id (time, process and counter based).
    pub fn new() -> (id: ObjectId) {
        ObjectId { bytes: bson_new_object_id() }
    }

    pub fn from_bytes(bytes: [u8; 12]) -> (id: ObjectId)
        ensures
            id.bytes == bytes,
    {
        ObjectId { bytes }
    }

    /// Parses the 24-digit hex form of an id.
    pub fn parse_str(text: &str) -> (res: Option<ObjectId>)
        ensures
            res is Some <==> is_object_id_text(text@),
            res matches Some(id) ==> id.bytes@ == hex_decode(text@),
    {
        match bson_parse_object_id(text) {
            Some(bytes) => Some(ObjectId { bytes }),
            None => None,
        }
    }

    /// The lowercase 24-digit hex form of the id.
    pub fn to_hex(&self) -> (text: String)
        ensures
            text@ == hex_lower(self.bytes@),
    {
        bson_object_id_hex(self.bytes)
    }
}

proof fn lemma_hex_char_digit(n: int)
    requires
        0 <= n < 16,
    ensures
        is_hex_char(hex_char(n)),
        hex_value(hex_char(n)) == n,
{
    if n < 10 {
        assert((n + 48) as char as int == n + 48);
    } else {
        assert((n + 87) as char as int == n + 87);
    }
}

/// Writing an id as hex and parsing that text gives the id back: the hex form
/// of any twelve bytes is valid id text, and it decodes to those bytes.
pub proof fn law_hex_round_trip(bytes: Seq<u8>)
    requires
        bytes.len() == 12,
    ensures
        is_object_id_text(hex_lower(bytes)),
        hex_decode(hex_lower(bytes)) == bytes,
{
    let h = hex_lower(bytes);
    assert forall|i: int| 0 <= i < h.len() implies is_hex_char(#[trigger] h[i]) by {
        let b = bytes[i / 2] as int;
        lemma_hex_char_digit(b / 16);
        lemma_hex_char_digit(b % 16);
    }
    assert forall|k: int| 0 <= k < 12 implies #[trigger] hex_decode(h)[k] == bytes[k] by {
        let b = bytes[k] as int;
        lemma_hex_char_digit(b / 16);
        lemma_hex_char_digit(b % 16);
        assert(h[2 * k] == hex_char(b / 16));
        assert(h[2 * k + 1] == hex_char(b % 16));
        assert(16 * (b / 16) + b % 16 == b);
    }
    assert(hex_decode(h) =~= bytes);
}

/// Parsing id text and writing the id as hex gives the text back, lowercased.
pub proof fn law_parse_then_hex(text: Seq<char>)
    requires
        is_object_id_text(text),
    ensures
        hex_lower(hex_decode(text)) == ascii_lower_text(text),
{
    let d = hex_decode(text);
    assert forall|i: int| 0 <= i < 24 implies #[trigger] hex_lower(d)[i] == ascii_lower_text(text)[i] by {
        let k = i / 2;
        let hi = hex_value(text[2 * k]);
        let lo = hex_value(text[2 * k + 1]);
        assert(is_hex_char(text[2 * k]));
        assert(is_hex_char(text[2 * k + 1]));
        let b = 16 * hi + lo;
        assert(d[k] as int == b);
        assert(b / 16 == hi && b % 16 == lo);
        let c = text[i];
        let n = c as int;
        if 48 <= n <= 57 {
            assert((n - 48 + 48) as char == c);
        } else if 97 <= n <= 102 {
            assert((n - 87 + 87) as char == c);
        } else {
            assert((n - 55 + 87) as char == (n + 32) as char);
        }
    }
    assert(hex_lower(d) =~= ascii_lower_text(text));
}

} // verus!
