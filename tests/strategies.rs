use oid_codec::identifier::Identifier;
use oid_codec::strategy::{
    BsonDatetimeAsRfc3339String, ConversionError, ConversionStrategy, HexStringAsObjectId,
    ObjectIdAsHexString, Rfc3339StringAsBsonDatetime,
};
use oid_codec::timestamp::{Timestamp, MAX_TEXT_MILLIS, MIN_TEXT_MILLIS};
use oid_codec::wrappers::{decode_option, decode_seq, encode_option, encode_seq, SequenceElementError};

const SAMPLE_HEX: &str = "507f1f77bcf86cd799439011";
const SAMPLE_BYTES: [u8; 12] = [0x50, 0x7f, 0x1f, 0x77, 0xbc, 0xf8, 0x6c, 0xd7, 0x99, 0x43, 0x90, 0x11];
const SAMPLE_TEXT: &str = "2020-06-09T10:58:07.095Z";
const SAMPLE_MILLIS: i64 = 1591700287095;

fn sample_id() -> Identifier {
    Identifier::from_bytes(SAMPLE_BYTES)
}

#[test]
fn identifier_encodes_as_lowercase_hex() {
    let text = ObjectIdAsHexString::encode(&sample_id()).unwrap();
    assert_eq!(text, SAMPLE_HEX);
    assert_eq!(text.len(), 24);
}

#[test]
fn identifier_hex_decodes_to_its_bytes() {
    let id = ObjectIdAsHexString::decode(&SAMPLE_HEX.to_string()).unwrap();
    assert_eq!(id.bytes, SAMPLE_BYTES);
}

#[test]
fn identifier_round_trip() {
    let id = Identifier::from_bytes([0, 1, 2, 3, 4, 5, 250, 251, 252, 253, 254, 255]);
    let text = ObjectIdAsHexString::encode(&id).unwrap();
    assert_eq!(text, "000102030405fafbfcfdfeff");
    assert_eq!(ObjectIdAsHexString::decode(&text), Ok(id));
}

#[test]
fn hex_text_round_trip_through_inverse_strategy() {
    let wire = HexStringAsObjectId::encode(&SAMPLE_HEX.to_string()).unwrap();
    assert_eq!(wire, sample_id());
    assert_eq!(HexStringAsObjectId::decode(&wire).unwrap(), SAMPLE_HEX);
}

#[test]
fn uppercase_hex_is_rejected() {
    let upper = "507F1F77BCF86CD799439011".to_string();
    assert_eq!(ObjectIdAsHexString::decode(&upper), Err(ConversionError::MalformedIdentifier));
    assert_eq!(HexStringAsObjectId::encode(&upper), Err(ConversionError::MalformedIdentifier));
    let mixed = "507f1f77bcf86cd79943901A".to_string();
    assert_eq!(ObjectIdAsHexString::decode(&mixed), Err(ConversionError::MalformedIdentifier));
}

#[test]
fn sequence_fails_at_first_uppercase_element() {
    let texts = vec![SAMPLE_HEX.to_string(), "507F1F77BCF86CD799439011".to_string()];
    assert_eq!(
        decode_seq::<Identifier, String, ObjectIdAsHexString>(&texts),
        Err(SequenceElementError { index: 1, cause: ConversionError::MalformedIdentifier })
    );
    assert_eq!(
        encode_seq::<String, Identifier, HexStringAsObjectId>(&texts),
        Err(SequenceElementError { index: 1, cause: ConversionError::MalformedIdentifier })
    );
}

#[test]
fn wrong_date_time_separator_is_rejected() {
    let bad = "2020-06-09X10:58:07.095Z".to_string();
    assert_eq!(BsonDatetimeAsRfc3339String::decode(&bad), Err(ConversionError::MalformedTimestamp));
    assert_eq!(Rfc3339StringAsBsonDatetime::encode(&bad), Err(ConversionError::MalformedTimestamp));
    let spaced = "2020-06-09 10:58:07.095Z".to_string();
    assert_eq!(BsonDatetimeAsRfc3339String::decode(&spaced), Err(ConversionError::MalformedTimestamp));
}

#[test]
fn lowercase_t_separator_is_accepted() {
    let t = BsonDatetimeAsRfc3339String::decode(&"2020-06-09t10:58:07.095Z".to_string()).unwrap();
    assert_eq!(t.timestamp_millis(), SAMPLE_MILLIS);
}

#[test]
fn fraction_finer_than_a_millisecond_is_rejected() {
    for s in ["2020-06-09T10:58:07.0951Z", "2020-06-09T10:58:07.095000Z", "2020-06-09T10:58:07.123456789Z"] {
        assert_eq!(
            BsonDatetimeAsRfc3339String::decode(&s.to_string()),
            Err(ConversionError::MalformedTimestamp)
        );
        assert_eq!(
            Rfc3339StringAsBsonDatetime::encode(&s.to_string()),
            Err(ConversionError::MalformedTimestamp)
        );
    }
    let t = BsonDatetimeAsRfc3339String::decode(&"2020-06-09T10:58:07.1Z".to_string()).unwrap();
    assert_eq!(t.timestamp_millis(), 1591700287100);
}

#[test]
fn formatter_text_round_trips_through_inverse_strategy() {
    for millis in [0, -1, 1, SAMPLE_MILLIS, MIN_TEXT_MILLIS, MAX_TEXT_MILLIS] {
        let text = Rfc3339StringAsBsonDatetime::decode(&Timestamp::from_millis(millis)).unwrap();
        let wire = Rfc3339StringAsBsonDatetime::encode(&text).unwrap();
        assert_eq!(wire.timestamp_millis(), millis);
        assert_eq!(BsonDatetimeAsRfc3339String::decode(&text).unwrap().timestamp_millis(), millis);
        assert_eq!(BsonDatetimeAsRfc3339String::encode(&wire).unwrap(), text);
    }
}

#[test]
fn malformed_hex_is_rejected() {
    let bad = "not-a-valid-hex".to_string();
    assert_eq!(ObjectIdAsHexString::decode(&bad), Err(ConversionError::MalformedIdentifier));
    assert_eq!(HexStringAsObjectId::encode(&bad), Err(ConversionError::MalformedIdentifier));
}

#[test]
fn hex_of_wrong_length_is_rejected() {
    for s in ["", "507f1f77bcf86cd79943901", "507f1f77bcf86cd7994390111", "507f1f77bcf86cd79943901100"] {
        assert_eq!(
            ObjectIdAsHexString::decode(&s.to_string()),
            Err(ConversionError::MalformedIdentifier)
        );
    }
}

#[test]
fn hex_with_a_non_hex_digit_is_rejected() {
    let s = "507f1f77bcf86cd79943901g".to_string();
    assert_eq!(ObjectIdAsHexString::decode(&s), Err(ConversionError::MalformedIdentifier));
}

#[test]
fn timestamp_text_decodes_to_millis() {
    let t = BsonDatetimeAsRfc3339String::decode(&SAMPLE_TEXT.to_string()).unwrap();
    assert_eq!(t.timestamp_millis(), SAMPLE_MILLIS);
}

#[test]
fn timestamp_encodes_as_rfc3339() {
    let t = Timestamp::from_millis(SAMPLE_MILLIS);
    assert_eq!(BsonDatetimeAsRfc3339String::encode(&t).unwrap(), SAMPLE_TEXT);
}

#[test]
fn epoch_encodes_without_fraction() {
    let t = Timestamp::from_millis(0);
    assert_eq!(BsonDatetimeAsRfc3339String::encode(&t).unwrap(), "1970-01-01T00:00:00Z");
}

#[test]
fn timestamp_round_trip() {
    for millis in [0, 1, -1, SAMPLE_MILLIS, MIN_TEXT_MILLIS, MAX_TEXT_MILLIS] {
        let t = Timestamp::from_millis(millis);
        let text = BsonDatetimeAsRfc3339String::encode(&t).unwrap();
        assert_eq!(BsonDatetimeAsRfc3339String::decode(&text), Ok(t));
    }
}

#[test]
fn rfc3339_text_round_trip_through_inverse_strategy() {
    let wire = Rfc3339StringAsBsonDatetime::encode(&SAMPLE_TEXT.to_string()).unwrap();
    assert_eq!(wire, Timestamp::from_millis(SAMPLE_MILLIS));
    assert_eq!(Rfc3339StringAsBsonDatetime::decode(&wire).unwrap(), SAMPLE_TEXT);
}

#[test]
fn range_limits_format_as_four_digit_years() {
    let lo = BsonDatetimeAsRfc3339String::encode(&Timestamp::from_millis(MIN_TEXT_MILLIS)).unwrap();
    let hi = BsonDatetimeAsRfc3339String::encode(&Timestamp::from_millis(MAX_TEXT_MILLIS)).unwrap();
    assert_eq!(lo, "0000-01-01T00:00:00Z");
    assert_eq!(hi, "9999-12-31T23:59:59.999Z");
}

#[test]
fn timestamps_outside_four_digit_years_are_unrepresentable() {
    for millis in [MAX_TEXT_MILLIS + 1, MIN_TEXT_MILLIS - 1, i64::MAX, i64::MIN] {
        let t = Timestamp::from_millis(millis);
        assert_eq!(
            BsonDatetimeAsRfc3339String::encode(&t),
            Err(ConversionError::UnrepresentableTimestamp)
        );
        assert_eq!(
            Rfc3339StringAsBsonDatetime::decode(&t),
            Err(ConversionError::UnrepresentableTimestamp)
        );
    }
}

#[test]
fn malformed_timestamp_is_rejected() {
    let bad = "2020-13-40T99:99:99Z".to_string();
    assert_eq!(BsonDatetimeAsRfc3339String::decode(&bad), Err(ConversionError::MalformedTimestamp));
    assert_eq!(Rfc3339StringAsBsonDatetime::encode(&bad), Err(ConversionError::MalformedTimestamp));
}

#[test]
fn timestamp_without_offset_is_rejected() {
    let bad = "2020-06-09T10:58:07.095".to_string();
    assert_eq!(BsonDatetimeAsRfc3339String::decode(&bad), Err(ConversionError::MalformedTimestamp));
    let empty = String::new();
    assert_eq!(BsonDatetimeAsRfc3339String::decode(&empty), Err(ConversionError::MalformedTimestamp));
}

#[test]
fn timestamp_with_offset_is_read_as_utc() {
    let t = BsonDatetimeAsRfc3339String::decode(&"2020-06-09T12:58:07.095+02:00".to_string()).unwrap();
    assert_eq!(t.timestamp_millis(), SAMPLE_MILLIS);
}

#[test]
fn optional_absence_round_trips() {
    let enc = encode_option::<Identifier, String, ObjectIdAsHexString>(&None).unwrap();
    assert_eq!(enc, None);
    let dec = decode_option::<Identifier, String, ObjectIdAsHexString>(&enc).unwrap();
    assert_eq!(dec, None);
}

#[test]
fn optional_presence_round_trips() {
    let enc = encode_option::<Identifier, String, ObjectIdAsHexString>(&Some(sample_id())).unwrap();
    assert_eq!(enc, Some(SAMPLE_HEX.to_string()));
    let dec = decode_option::<Identifier, String, ObjectIdAsHexString>(&enc).unwrap();
    assert_eq!(dec, Some(sample_id()));
}

#[test]
fn optional_failure_is_the_inner_failure() {
    let bad = Some("xyz".to_string());
    assert_eq!(
        decode_option::<Identifier, String, ObjectIdAsHexString>(&bad),
        Err(ConversionError::MalformedIdentifier)
    );
}

#[test]
fn sequence_round_trip_keeps_order_and_length() {
    let ids = vec![
        sample_id(),
        Identifier::from_bytes([1; 12]),
        Identifier::from_bytes([0xab; 12]),
    ];
    let texts = encode_seq::<Identifier, String, ObjectIdAsHexString>(&ids).unwrap();
    assert_eq!(texts, vec![SAMPLE_HEX, "010101010101010101010101", "abababababababababababab"]);
    let back = decode_seq::<Identifier, String, ObjectIdAsHexString>(&texts).unwrap();
    assert_eq!(back, ids);
}

#[test]
fn empty_sequence_round_trips() {
    let texts = encode_seq::<Identifier, String, ObjectIdAsHexString>(&Vec::new()).unwrap();
    assert!(texts.is_empty());
    let back = decode_seq::<Identifier, String, ObjectIdAsHexString>(&texts).unwrap();
    assert!(back.is_empty());
}

#[test]
fn sequence_failure_names_the_first_bad_index() {
    let texts = vec![
        SAMPLE_HEX.to_string(),
        "bad".to_string(),
        "also-bad".to_string(),
    ];
    assert_eq!(
        decode_seq::<Identifier, String, ObjectIdAsHexString>(&texts),
        Err(SequenceElementError { index: 1, cause: ConversionError::MalformedIdentifier })
    );
}

#[test]
fn timestamp_sequence_failure_names_the_index() {
    let times = vec![Timestamp::from_millis(0), Timestamp::from_millis(i64::MAX)];
    assert_eq!(
        encode_seq::<Timestamp, String, BsonDatetimeAsRfc3339String>(&times),
        Err(SequenceElementError { index: 1, cause: ConversionError::UnrepresentableTimestamp })
    );
}
