//! Conversion strategies: stateless pairs of functions between an
//! application value and the value written on the wire.

use crate::identifier::{
    hex_bytes, hex_text, is_canonical_identifier_text,
    lemma_canonical_text_round_trip, lemma_hex_text_round_trip, Identifier,
};
use crate::timestamp::{in_text_range, timestamp_of_text, timestamp_text, Timestamp};
use vstd::prelude::*;

verus! {

/// Why a single value could not be converted.
#[derive(Clone, Copy, Debug, PartialEq, Eq, Structural)]
pub enum ConversionError {
    /// Text that is not 24 lowercase hexadecimal digits.
    MalformedIdentifier,
    /// Text that is not an RFC 3339 timestamp.
    MalformedTimestamp,
    /// An instant that RFC 3339 text cannot carry.
    UnrepresentableTimestamp,
}

/// A result seen through the views of its value.
pub open spec fn view_result<T: View>(r: Result<T, ConversionError>) -> Result<
    T::V,
    ConversionError,
> {
    match r {
        Ok(t) => Ok(t@),
        Err(e) => Err(e),
    }
}

/// A pair of conversions between an application value of type `A` and a wire
/// value of type `W`, stated over their views.
pub trait ConversionStrategy<A: View, W: View> {
    /// What encoding an application value gives.
    spec fn encode_spec(a: A::V) -> Result<W::V, ConversionError>;

    /// What decoding a wire value gives.
    spec fn decode_spec(w: W::V) -> Result<A::V, ConversionError>;

    /// Converts an application value to its wire value.
    fn encode(a: &A) -> (r: Result<W, ConversionError>)
        ensures
            view_result(r) == Self::encode_spec(a@),
    ;

    /// Converts a wire value back to its application value.
    fn decode(w: &W) -> (r: Result<A, ConversionError>)
        ensures
            view_result(r) == Self::decode_spec(w@),
    ;
}

/// An identifier in the application, its hexadecimal text on the wire.
pub struct ObjectIdAsHexString;

/// Hexadecimal text in the application, checked and sent as an identifier.
pub struct HexStringAsObjectId;

/// A timestamp in the application, its RFC 3339 text on the wire.
pub struct BsonDatetimeAsRfc3339String;

/// RFC 3339 text in the application, checked and sent as a timestamp.
pub struct Rfc3339StringAsBsonDatetime;

/// Reading identifier text: the bytes it spells where it is 24 lowercase
/// hexadecimal digits, else `MalformedIdentifier`.
pub open spec fn identifier_from_text(s: Seq<char>) -> Result<Seq<u8>, ConversionError> {
    if is_canonical_identifier_text(s) {
        Ok(hex_bytes(s))
    } else {
        Err(ConversionError::MalformedIdentifier)
    }
}

/// Writing a timestamp as text: the text, or `UnrepresentableTimestamp`.
pub open spec fn text_from_timestamp(millis: i64) -> Result<Seq<char>, ConversionError> {
    match timestamp_text(millis) {
        Some(s) => Ok(s),
        None => Err(ConversionError::UnrepresentableTimestamp),
    }
}

/// Reading timestamp text: the instant, or `MalformedTimestamp`.
pub open spec fn timestamp_from_text(s: Seq<char>) -> Result<i64, ConversionError> {
    match timestamp_of_text(s) {
        Some(m) => Ok(m),
        None => Err(ConversionError::MalformedTimestamp),
    }
}

fn identifier_to_text(id: &Identifier) -> (r: String)
    ensures
        r@ == hex_text(id@),
{
    id.to_hex()
}

fn text_to_identifier(s: &String) -> (r: Result<Identifier, ConversionError>)
    ensures
        view_result(r) == identifier_from_text(s@),
{
    if !Identifier::is_canonical_hex(s.as_str()) {
        return Err(ConversionError::MalformedIdentifier);
    }
    proof {
        lemma_canonical_text_round_trip(s@);
    }
    match Identifier::parse_hex(s.as_str()) {
        Some(id) => Ok(id),
        None => Err(ConversionError::MalformedIdentifier),
    }
}

fn timestamp_to_text(t: &Timestamp) -> (r: Result<String, ConversionError>)
    ensures
        view_result(r) == text_from_timestamp(t@),
{
    match t.to_rfc3339() {
        Some(s) => Ok(s),
        None => Err(ConversionError::UnrepresentableTimestamp),
    }
}

fn text_to_timestamp(s: &String) -> (r: Result<Timestamp, ConversionError>)
    ensures
        view_result(r) == timestamp_from_text(s@),
{
    match Timestamp::parse_rfc3339(s.as_str()) {
        Some(t) => Ok(t),
        None => Err(ConversionError::MalformedTimestamp),
    }
}

impl ConversionStrategy<Identifier, String> for ObjectIdAsHexString {
    open spec fn encode_spec(a: Seq<u8>) -> Result<Seq<char>, ConversionError> {
        Ok(hex_text(a))
    }

    open spec fn decode_spec(w: Seq<char>) -> Result<Seq<u8>, ConversionError> {
        identifier_from_text(w)
    }

    fn encode(a: &Identifier) -> (r: Result<String, ConversionError>) {
        Ok(identifier_to_text(a))
    }

    fn decode(w: &String) -> (r: Result<Identifier, ConversionError>) {
        text_to_identifier(w)
    }
}

impl ConversionStrategy<String, Identifier> for HexStringAsObjectId {
    open spec fn encode_spec(a: Seq<char>) -> Result<Seq<u8>, ConversionError> {
        identifier_from_text(a)
    }

    open spec fn decode_spec(w: Seq<u8>) -> Result<Seq<char>, ConversionError> {
        Ok(hex_text(w))
    }

    fn encode(a: &String) -> (r: Result<Identifier, ConversionError>) {
        text_to_identifier(a)
    }

    fn decode(w: &Identifier) -> (r: Result<String, ConversionError>) {
        Ok(identifier_to_text(w))
    }
}

impl ConversionStrategy<Timestamp, String> for BsonDatetimeAsRfc3339String {
    open spec fn encode_spec(a: i64) -> Result<Seq<char>, ConversionError> {
        text_from_timestamp(a)
    }

    open spec fn decode_spec(w: Seq<char>) -> Result<i64, ConversionError> {
        timestamp_from_text(w)
    }

    fn encode(a: &Timestamp) -> (r: Result<String, ConversionError>) {
        timestamp_to_text(a)
    }

    fn decode(w: &String) -> (r: Result<Timestamp, ConversionError>) {
        text_to_timestamp(w)
    }
}

impl ConversionStrategy<String, Timestamp> for Rfc3339StringAsBsonDatetime {
    open spec fn encode_spec(a: Seq<char>) -> Result<i64, ConversionError> {
        timestamp_from_text(a)
    }

    open spec fn decode_spec(w: i64) -> Result<Seq<char>, ConversionError> {
        text_from_timestamp(w)
    }

    fn encode(a: &String) -> (r: Result<Timestamp, ConversionError>) {
        text_to_timestamp(a)
    }

    fn decode(w: &Timestamp) -> (r: Result<String, ConversionError>) {
        timestamp_to_text(w)
    }
}

/// Decoding the text of any identifier gives that identifier back, under
/// either identifier strategy.
pub proof fn lemma_identifier_round_trip(id: Seq<u8>)
    requires
        id.len() == 12,
    ensures
        ObjectIdAsHexString::encode_spec(id) is Ok,
        ObjectIdAsHexString::decode_spec(ObjectIdAsHexString::encode_spec(id)->Ok_0) == Ok::<
            Seq<u8>,
            ConversionError,
        >(id),
        HexStringAsObjectId::decode_spec(id) is Ok,
        HexStringAsObjectId::encode_spec(HexStringAsObjectId::decode_spec(id)->Ok_0) == Ok::<
            Seq<u8>,
            ConversionError,
        >(id),
{
    lemma_hex_text_round_trip(id);
}

/// Every 24-digit lowercase hexadecimal text decodes, and encoding the result
/// gives the same text back, under either identifier strategy.
pub proof fn lemma_identifier_text_round_trip(s: Seq<char>)
    requires
        is_canonical_identifier_text(s),
    ensures
        ObjectIdAsHexString::decode_spec(s) is Ok,
        ObjectIdAsHexString::encode_spec(ObjectIdAsHexString::decode_spec(s)->Ok_0) == Ok::<
            Seq<char>,
            ConversionError,
        >(s),
        HexStringAsObjectId::encode_spec(s) is Ok,
        HexStringAsObjectId::decode_spec(HexStringAsObjectId::encode_spec(s)->Ok_0) == Ok::<
            Seq<char>,
            ConversionError,
        >(s),
{
    lemma_canonical_text_round_trip(s);
}

/// Every instant that encodes (exactly those within the years 0000 to 9999)
/// decodes from its text to the same instant, under either timestamp
/// strategy.
pub proof fn lemma_timestamp_round_trip(t: i64)
    requires
        timestamp_text(t) is Some,
    ensures
        in_text_range(t),
        BsonDatetimeAsRfc3339String::encode_spec(t) is Ok,
        BsonDatetimeAsRfc3339String::decode_spec(BsonDatetimeAsRfc3339String::encode_spec(t)->Ok_0)
            == Ok::<i64, ConversionError>(t),
        Rfc3339StringAsBsonDatetime::decode_spec(t) is Ok,
        Rfc3339StringAsBsonDatetime::encode_spec(Rfc3339StringAsBsonDatetime::decode_spec(t)->Ok_0)
            == Ok::<i64, ConversionError>(t),
{
}

/// Every text in the accepted profile, that is, the text of some instant,
/// decodes, and encoding the result gives the same text back, under either
/// timestamp strategy.
pub proof fn lemma_timestamp_text_round_trip(s: Seq<char>, t: i64)
    requires
        timestamp_text(t) == Some(s),
    ensures
        BsonDatetimeAsRfc3339String::decode_spec(s) is Ok,
        BsonDatetimeAsRfc3339String::encode_spec(BsonDatetimeAsRfc3339String::decode_spec(s)->Ok_0)
            == Ok::<Seq<char>, ConversionError>(s),
        Rfc3339StringAsBsonDatetime::encode_spec(s) is Ok,
        Rfc3339StringAsBsonDatetime::decode_spec(Rfc3339StringAsBsonDatetime::encode_spec(s)->Ok_0)
            == Ok::<Seq<char>, ConversionError>(s),
{
}

} // verus!
