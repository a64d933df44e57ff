//! Twelve-byte identifiers and their 24-digit lowercase hexadecimal text.

use mongodb::bson::oid::ObjectId;
use vstd::prelude::*;
use vstd::string::StrSliceExecFns;

verus! {

/// A twelve-byte identifier; equality is by byte content.
#[derive(Clone, Copy, Debug, PartialEq, Eq, Hash)]
pub struct Identifier {
    pub bytes: [u8; 12],
}

impl View for Identifier {
    type V = Seq<u8>;

    open spec fn view(&self) -> Seq<u8> {
        self.bytes@
    }
}

/// The lowercase hexadecimal digit for a value below sixteen.
pub open spec fn hex_digit(n: int) -> char {
    seq!['0', '1', '2', '3', '4', '5', '6', '7', '8', '9', 'a', 'b', 'c', 'd', 'e', 'f'][n]
}

/// A hexadecimal digit in either case.
pub open spec fn is_hex_char(c: char) -> bool {
    ('0' <= c && c <= '9') || ('a' <= c && c <= 'f') || ('A' <= c && c <= 'F')
}

/// A lowercase hexadecimal digit.
pub open spec fn is_lower_hex_char(c: char) -> bool {
    ('0' <= c && c <= '9') || ('a' <= c && c <= 'f')
}

/// The value of a hexadecimal digit.
pub open spec fn hex_value(c: char) -> int {
    if '0' <= c && c <= '9' {
        c as int - '0' as int
    } else if 'a' <= c && c <= 'f' {
        c as int - 'a' as int + 10
    } else {
        c as int - 'A' as int + 10
    }
}

/// Two lowercase digits per byte, high half first.
pub open spec fn hex_text(b: Seq<u8>) -> Seq<char> {
    Seq::new(
        2 * b.len(),
        |i: int|
            if i % 2 == 0 {
                hex_digit(b[i / 2] as int / 16)
            } else {
                hex_digit(b[i / 2] as int % 16)
            },
    )
}

/// The bytes spelled by a text of hexadecimal digits, two digits per byte.
pub open spec fn hex_bytes(s: Seq<char>) -> Seq<u8> {
    Seq::new(s.len() / 2, |i: int| (hex_value(s[2 * i]) * 16 + hex_value(s[2 * i + 1])) as u8)
}

/// Text that names an identifier: 24 hexadecimal digits of either case.
pub open spec fn is_identifier_text(s: Seq<char>) -> bool {
    s.len() == 24 && forall|i: int| 0 <= i < s.len() ==> is_hex_char(#[trigger] s[i])
}

/// The canonical text of an identifier: 24 lowercase hexadecimal digits.
pub open spec fn is_canonical_identifier_text(s: Seq<char>) -> bool {
    s.len() == 24 && forall|i: int| 0 <= i < s.len() ==> is_lower_hex_char(#[trigger] s[i])
}

/// Relies on bson's `ObjectId::to_hex`, which is `hex::encode` of the twelve
/// bytes: two lowercase digits per byte, high half first.
#[verifier::external_body]
fn object_id_to_hex(bytes: [u8; 12]) -> (r: String)
    ensures
        r@ == hex_text(bytes@),
{
    ObjectId::from_bytes(bytes).to_hex()
}

/// Relies on bson's `ObjectId::parse_str`: `hex::decode` (digits of either
/// case, in pairs) followed by a check for exactly twelve bytes.
#[verifier::external_body]
fn object_id_parse(s: &str) -> (r: Option<[u8; 12]>)
    ensures
        r is Some <==> is_identifier_text(s@),
        r matches Some(b) ==> b@ == hex_bytes(s@),
{
    ObjectId::parse_str(s).ok().map(|oid| oid.bytes())
}

impl Identifier {
    /// The identifier with the given bytes.
    pub fn from_bytes(bytes: [u8; 12]) -> (r: Identifier)
        ensures
            r.bytes == bytes,
    {
        Identifier { bytes }
    }

    /// The 24-character lowercase hexadecimal text of this identifier.
    pub fn to_hex(&self) -> (r: String)
        ensures
            r@ == hex_text(self@),
    {
        object_id_to_hex(self.bytes)
    }

    /// Whether the text is canonical identifier text: exactly 24 lowercase
    /// hexadecimal digits.
    pub fn is_canonical_hex(s: &str) -> (r: bool)
        ensures
            r == is_canonical_identifier_text(s@),
    {
        if s.unicode_len() != 24 {
            return false;
        }
        let mut i: usize = 0;
        while i < 24
            invariant
                i <= 24,
                s@.len() == 24,
                forall|j: int| 0 <= j < i ==> is_lower_hex_char(#[trigger] s@[j]),
            decreases 24 - i,
        {
            let c = s.get_char(i);
            if !(('0' <= c && c <= '9') || ('a' <= c && c <= 'f')) {
                assert(!is_lower_hex_char(s@[i as int]));
                return false;
            }
            i += 1;
        }
        true
    }

    /// Reads an identifier from 24 hexadecimal digits (either case); `None`
    /// for any other text.
    pub fn parse_hex(s: &str) -> (r: Option<Identifier>)
        ensures
            r is Some <==> is_identifier_text(s@),
            r matches Some(id) ==> id@ == hex_bytes(s@),
    {
        match object_id_parse(s) {
            Some(bytes) => Some(Identifier { bytes }),
            None => None,
        }
    }
}

/// The digit written for a value below sixteen reads back as that value.
pub proof fn lemma_hex_digit_value(n: int)
    requires
        0 <= n < 16,
    ensures
        is_lower_hex_char(hex_digit(n)),
        hex_value(hex_digit(n)) == n,
{
}

/// The text of any twelve bytes is canonical identifier text, and reading it
/// gives the same bytes back.
pub proof fn lemma_hex_text_round_trip(b: Seq<u8>)
    requires
        b.len() == 12,
    ensures
        is_canonical_identifier_text(hex_text(b)),
        is_identifier_text(hex_text(b)),
        hex_bytes(hex_text(b)) == b,
{
    let t = hex_text(b);
    assert forall|i: int| 0 <= i < t.len() implies is_lower_hex_char(#[trigger] t[i]) && is_hex_char(t[i]) by {
        if i % 2 == 0 {
            lemma_hex_digit_value(b[i / 2] as int / 16);
        } else {
            lemma_hex_digit_value(b[i / 2] as int % 16);
        }
    }
    assert forall|k: int| 0 <= k < 12 implies hex_bytes(t)[k] == b[k] by {
        assert((2 * k) / 2 == k);
        assert((2 * k + 1) / 2 == k);
        assert((2 * k) % 2 == 0);
        assert((2 * k + 1) % 2 == 1);
        lemma_hex_digit_value(b[k] as int / 16);
        lemma_hex_digit_value(b[k] as int % 16);
    }
    assert(hex_bytes(t) =~= b);
}

/// Reading canonical identifier text and writing the bytes out again gives
/// the same text.
pub proof fn lemma_canonical_text_round_trip(s: Seq<char>)
    requires
        is_canonical_identifier_text(s),
    ensures
        is_identifier_text(s),
        hex_text(hex_bytes(s)) == s,
{
    let b = hex_bytes(s);
    assert forall|i: int| 0 <= i < s.len() implies is_hex_char(#[trigger] s[i]) by {
        assert(is_lower_hex_char(s[i]));
    }
    assert forall|i: int| 0 <= i < 24 implies hex_text(b)[i] == s[i] by {
        let k = i / 2;
        let hi = hex_value(s[2 * k]);
        let lo = hex_value(s[2 * k + 1]);
        assert(is_lower_hex_char(s[2 * k]));
        assert(is_lower_hex_char(s[2 * k + 1]));
        assert(0 <= hi < 16 && 0 <= lo < 16);
        assert(b[k] as int == hi * 16 + lo);
        assert((hi * 16 + lo) / 16 == hi && (hi * 16 + lo) % 16 == lo) by (nonlinear_arith)
            requires
                0 <= hi < 16,
                0 <= lo < 16,
        ;
        lemma_lower_digit_written_back(s[2 * k]);
        lemma_lower_digit_written_back(s[2 * k + 1]);
        if i % 2 == 0 {
            assert(i == 2 * k);
        } else {
            assert(i == 2 * k + 1);
        }
    }
    assert(hex_text(b) =~= s);
}

/// A lowercase digit is written back from its own value.
pub proof fn lemma_lower_digit_written_back(c: char)
    requires
        is_lower_hex_char(c),
    ensures
        0 <= hex_value(c) < 16,
        hex_digit(hex_value(c)) == c,
{
}

} // verus!
