use oid_codec::binding::{FieldError, RecordError};
use oid_codec::document::{Document, WireScalar, WireValue};
use oid_codec::identifier::Identifier;
use oid_codec::records::{DateTimeAndString, ObjectIdAndString};
use oid_codec::strategy::ConversionError;
use oid_codec::timestamp::Timestamp;
use oid_codec::wrappers::SequenceElementError;

const HEX: &str = "507f1f77bcf86cd799439011";
const HEX2: &str = "5f0a1b2c3d4e5f6a7b8c9d0e";
const DATE_TEXT: &str = "2020-06-09T10:58:07.095Z";
const DATE_MILLIS: i64 = 1591700287095;

fn id_of(hex: &str) -> Identifier {
    Identifier::parse_hex(hex).unwrap()
}

fn object_id_record() -> ObjectIdAndString {
    ObjectIdAndString {
        id: id_of(HEX),
        optional_id: None,
        id_vec: vec![id_of(HEX), id_of(HEX2)],
        hex_string: HEX.to_string(),
        opt_string: Some(HEX2.to_string()),
        string_vec: vec![HEX2.to_string(), HEX.to_string()],
    }
}

fn date_time_record() -> DateTimeAndString {
    DateTimeAndString {
        date: Timestamp::from_millis(DATE_MILLIS),
        optional_date: None,
        date_vec: vec![Timestamp::from_millis(0), Timestamp::from_millis(DATE_MILLIS)],
        string: DATE_TEXT.to_string(),
        optional_string: Some(DATE_TEXT.to_string()),
        string_vec: vec![DATE_TEXT.to_string(), DATE_TEXT.to_string()],
    }
}

fn text(s: &str) -> WireScalar {
    WireScalar::Text(s.to_string())
}

#[test]
fn object_id_record_encodes_fields_in_order() {
    let doc = object_id_record().encode_record().unwrap();
    let keys: Vec<&str> = doc.entries.iter().map(|e| e.key.as_str()).collect();
    assert_eq!(keys, vec!["id", "id_vec", "hex_string", "opt_string", "string_vec"]);
    assert_eq!(doc.get("id"), Some(&WireValue::Scalar(text(HEX))));
    assert!(doc.get("optional_id").is_none());
    assert_eq!(doc.get("id_vec"), Some(&WireValue::Array(vec![text(HEX), text(HEX2)])));
    assert_eq!(
        doc.get("hex_string"),
        Some(&WireValue::Scalar(WireScalar::ObjectId(id_of(HEX))))
    );
    assert_eq!(
        doc.get("string_vec"),
        Some(&WireValue::Array(vec![
            WireScalar::ObjectId(id_of(HEX2)),
            WireScalar::ObjectId(id_of(HEX)),
        ]))
    );
}

#[test]
fn object_id_record_round_trips() {
    let rec = object_id_record();
    let doc = rec.encode_record().unwrap();
    assert_eq!(ObjectIdAndString::decode_record(&doc), Ok(rec));
}

#[test]
fn object_id_record_with_present_option_round_trips() {
    let mut rec = object_id_record();
    rec.optional_id = Some(id_of(HEX2));
    rec.opt_string = None;
    let doc = rec.encode_record().unwrap();
    assert_eq!(doc.get("optional_id"), Some(&WireValue::Scalar(text(HEX2))));
    assert!(doc.get("opt_string").is_none());
    assert_eq!(ObjectIdAndString::decode_record(&doc), Ok(rec));
}

#[test]
fn object_id_record_rejects_malformed_hex_field() {
    let mut rec = object_id_record();
    rec.hex_string = "not-a-valid-hex".to_string();
    assert_eq!(
        rec.encode_record(),
        Err(RecordError {
            field: "hex_string".to_string(),
            error: FieldError::Conversion(ConversionError::MalformedIdentifier),
        })
    );
}

#[test]
fn object_id_record_names_bad_sequence_element() {
    let mut rec = object_id_record();
    rec.string_vec = vec![HEX.to_string(), HEX2.to_string(), "nope".to_string()];
    assert_eq!(
        rec.encode_record(),
        Err(RecordError {
            field: "string_vec".to_string(),
            error: FieldError::SequenceElement(SequenceElementError {
                index: 2,
                cause: ConversionError::MalformedIdentifier,
            }),
        })
    );
}

#[test]
fn decoding_reports_missing_field() {
    let mut doc = object_id_record().encode_record().unwrap();
    doc.entries.retain(|e| e.key != "hex_string");
    assert_eq!(
        ObjectIdAndString::decode_record(&doc),
        Err(RecordError { field: "hex_string".to_string(), error: FieldError::MissingField })
    );
}

#[test]
fn decoding_reports_type_mismatch() {
    let mut doc = Document::new();
    doc.push("id".to_string(), WireValue::Scalar(WireScalar::ObjectId(id_of(HEX))));
    assert_eq!(
        ObjectIdAndString::decode_record(&doc),
        Err(RecordError { field: "id".to_string(), error: FieldError::TypeMismatch })
    );
}

#[test]
fn decoding_reports_scalar_where_array_expected() {
    let mut doc = Document::new();
    doc.push("id".to_string(), WireValue::Scalar(text(HEX)));
    doc.push("id_vec".to_string(), WireValue::Scalar(text(HEX)));
    assert_eq!(
        ObjectIdAndString::decode_record(&doc),
        Err(RecordError { field: "id_vec".to_string(), error: FieldError::TypeMismatch })
    );
}

#[test]
fn decoding_reports_malformed_identifier_text() {
    let mut doc = Document::new();
    doc.push("id".to_string(), WireValue::Scalar(text("not-a-valid-hex")));
    assert_eq!(
        ObjectIdAndString::decode_record(&doc),
        Err(RecordError {
            field: "id".to_string(),
            error: FieldError::Conversion(ConversionError::MalformedIdentifier),
        })
    );
}

#[test]
fn date_time_record_stores_text_as_timestamp() {
    let doc = date_time_record().encode_record().unwrap();
    let stamp = WireScalar::DateTime(Timestamp::from_millis(DATE_MILLIS));
    assert_eq!(doc.get("string"), Some(&WireValue::Scalar(stamp.clone())));
    assert_eq!(doc.get("optional_string"), Some(&WireValue::Scalar(stamp.clone())));
    assert_eq!(doc.get("string_vec"), Some(&WireValue::Array(vec![stamp.clone(), stamp])));
    assert_eq!(doc.get("date"), Some(&WireValue::Scalar(text(DATE_TEXT))));
    assert!(doc.get("optional_date").is_none());
    assert_eq!(
        doc.get("date_vec"),
        Some(&WireValue::Array(vec![text("1970-01-01T00:00:00Z"), text(DATE_TEXT)]))
    );
}

#[test]
fn date_time_record_round_trips() {
    let rec = date_time_record();
    let doc = rec.encode_record().unwrap();
    let back = DateTimeAndString::decode_record(&doc).unwrap();
    assert_eq!(back.string, DATE_TEXT);
    assert_eq!(back, rec);
}

#[test]
fn date_time_record_rejects_malformed_text() {
    let mut rec = date_time_record();
    rec.optional_string = Some("2020-13-40T99:99:99Z".to_string());
    assert_eq!(
        rec.encode_record(),
        Err(RecordError {
            field: "optional_string".to_string(),
            error: FieldError::Conversion(ConversionError::MalformedTimestamp),
        })
    );
}

#[test]
fn date_time_record_rejects_unrepresentable_timestamp() {
    let mut rec = date_time_record();
    rec.date = Timestamp::from_millis(i64::MAX);
    assert_eq!(
        rec.encode_record(),
        Err(RecordError {
            field: "date".to_string(),
            error: FieldError::Conversion(ConversionError::UnrepresentableTimestamp),
        })
    );
}

#[test]
fn first_failing_field_is_reported() {
    let mut rec = date_time_record();
    rec.date = Timestamp::from_millis(i64::MIN);
    rec.string = "garbage".to_string();
    assert_eq!(rec.encode_record().unwrap_err().field, "date");
}

#[test]
fn document_lookup_takes_the_first_entry_with_a_key() {
    let mut doc = Document::new();
    doc.push("k".to_string(), WireValue::Scalar(text("first")));
    doc.push("k".to_string(), WireValue::Scalar(text("second")));
    assert_eq!(doc.get("k"), Some(&WireValue::Scalar(text("first"))));
    assert_eq!(doc.get("missing"), None);
}
