//! Two records whose fields bind the identifier and the timestamp
//! strategies in each of their forms.

use crate::binding::{
    lemma_direct_field_round_trip, lemma_lookup_push_all, lemma_sequence_field_round_trip,
    direct_field, direct_value, optional_field, optional_value, read_direct, read_optional,
    read_sequence, sequence_field, sequence_value, then_optional_value, then_value, write_direct,
    write_optional, write_sequence, EncodedEntries, FieldError, RecordError,
};
use crate::document::{lookup, Document, ValueModel, WireForm};
use crate::identifier::{is_canonical_identifier_text, Identifier};
use crate::strategy::{
    lemma_identifier_round_trip, lemma_identifier_text_round_trip, lemma_timestamp_round_trip,
    lemma_timestamp_text_round_trip, BsonDatetimeAsRfc3339String,
    HexStringAsObjectId, ObjectIdAsHexString, Rfc3339StringAsBsonDatetime,
};
use crate::timestamp::{timestamp_text, Timestamp};
use crate::wrappers::{comes_back_as, option_view, vec_view};
use vstd::prelude::*;

verus! {

/// Identifiers carried as text, and text carried as identifiers.
#[derive(Clone, Debug, PartialEq, Eq)]
pub struct ObjectIdAndString {
    /// Written as hexadecimal text.
    pub id: Identifier,
    /// Written as hexadecimal text when present, left out when absent.
    pub optional_id: Option<Identifier>,
    /// Written as an array of hexadecimal texts.
    pub id_vec: Vec<Identifier>,
    /// Checked and written as an identifier.
    pub hex_string: String,
    /// Checked and written as an identifier when present.
    pub opt_string: Option<String>,
    /// Checked and written as an array of identifiers.
    pub string_vec: Vec<String>,
}

impl View for ObjectIdAndString {
    type V = (Seq<u8>, Option<Seq<u8>>, Seq<Seq<u8>>, Seq<char>, Option<Seq<char>>, Seq<Seq<char>>);

    open spec fn view(&self) -> Self::V {
        (
            self.id@,
            option_view(self.optional_id),
            vec_view(self.id_vec@),
            self.hex_string@,
            option_view(self.opt_string),
            vec_view(self.string_vec@),
        )
    }
}

/// The entries of an encoded `ObjectIdAndString`, in field order, or the
/// first field that fails.
pub open spec fn object_id_entries(
    r: (Seq<u8>, Option<Seq<u8>>, Seq<Seq<u8>>, Seq<char>, Option<Seq<char>>, Seq<Seq<char>>),
) -> EncodedEntries {
    let e1 = then_value(
        Ok(Seq::empty()),
        "id"@,
        direct_value::<Identifier, String, ObjectIdAsHexString>(r.0),
    );
    let e2 = then_optional_value(
        e1,
        "optional_id"@,
        optional_value::<Identifier, String, ObjectIdAsHexString>(r.1),
    );
    let e3 = then_value(
        e2,
        "id_vec"@,
        sequence_value::<Identifier, String, ObjectIdAsHexString>(r.2),
    );
    let e4 = then_value(
        e3,
        "hex_string"@,
        direct_value::<String, Identifier, HexStringAsObjectId>(r.3),
    );
    let e5 = then_optional_value(
        e4,
        "opt_string"@,
        optional_value::<String, Identifier, HexStringAsObjectId>(r.4),
    );
    then_value(
        e5,
        "string_vec"@,
        sequence_value::<String, Identifier, HexStringAsObjectId>(r.5),
    )
}

/// The `ObjectIdAndString` read from a document, or the first field, in
/// declaration order, that cannot be read.
pub open spec fn object_id_fields(d: Seq<(Seq<char>, ValueModel)>) -> Result<
    (Seq<u8>, Option<Seq<u8>>, Seq<Seq<u8>>, Seq<char>, Option<Seq<char>>, Seq<Seq<char>>),
    (Seq<char>, FieldError),
> {
    match direct_field::<Identifier, String, ObjectIdAsHexString>(lookup(d, "id"@)) {
        Err(e) => Err(("id"@, e)),
        Ok(f0) => match optional_field::<Identifier, String, ObjectIdAsHexString>(
            lookup(d, "optional_id"@),
        ) {
            Err(e) => Err(("optional_id"@, e)),
            Ok(f1) => match sequence_field::<Identifier, String, ObjectIdAsHexString>(
                lookup(d, "id_vec"@),
            ) {
                Err(e) => Err(("id_vec"@, e)),
                Ok(f2) => match direct_field::<String, Identifier, HexStringAsObjectId>(
                    lookup(d, "hex_string"@),
                ) {
                    Err(e) => Err(("hex_string"@, e)),
                    Ok(f3) => match optional_field::<String, Identifier, HexStringAsObjectId>(
                        lookup(d, "opt_string"@),
                    ) {
                        Err(e) => Err(("opt_string"@, e)),
                        Ok(f4) => match sequence_field::<String, Identifier, HexStringAsObjectId>(
                            lookup(d, "string_vec"@),
                        ) {
                            Err(e) => Err(("string_vec"@, e)),
                            Ok(f5) => Ok((f0, f1, f2, f3, f4, f5)),
                        },
                    },
                },
            },
        },
    }
}

impl ObjectIdAndString {
    /// Encodes each field with its bound strategy, in declaration order;
    /// stops at the first field that fails.
    pub fn encode_record(&self) -> (r: Result<Document, RecordError>)
        ensures
            match object_id_entries(self@) {
                Ok(es) => r matches Ok(d) && d@ == es,
                Err(e) => r matches Err(re) && re@ == e,
            },
    {
        let mut doc = Document::new();
        match write_direct::<Identifier, String, ObjectIdAsHexString>(&mut doc, "id", &self.id) {
            Ok(()) => {},
            Err(e) => return Err(e),
        }
        match write_optional::<Identifier, String, ObjectIdAsHexString>(
            &mut doc,
            "optional_id",
            &self.optional_id,
        ) {
            Ok(()) => {},
            Err(e) => return Err(e),
        }
        match write_sequence::<Identifier, String, ObjectIdAsHexString>(
            &mut doc,
            "id_vec",
            &self.id_vec,
        ) {
            Ok(()) => {},
            Err(e) => return Err(e),
        }
        match write_direct::<String, Identifier, HexStringAsObjectId>(
            &mut doc,
            "hex_string",
            &self.hex_string,
        ) {
            Ok(()) => {},
            Err(e) => return Err(e),
        }
        match write_optional::<String, Identifier, HexStringAsObjectId>(
            &mut doc,
            "opt_string",
            &self.opt_string,
        ) {
            Ok(()) => {},
            Err(e) => return Err(e),
        }
        match write_sequence::<String, Identifier, HexStringAsObjectId>(
            &mut doc,
            "string_vec",
            &self.string_vec,
        ) {
            Ok(()) => {},
            Err(e) => return Err(e),
        }
        Ok(doc)
    }

    /// Decodes each field with its bound strategy, in declaration order;
    /// stops at the first field that fails.
    pub fn decode_record(doc: &Document) -> (r: Result<ObjectIdAndString, RecordError>)
        ensures
            match object_id_fields(doc@) {
                Ok(x) => r matches Ok(rec) && rec@ == x,
                Err(e) => r matches Err(re) && re@ == e,
            },
    {
        let id = match read_direct::<Identifier, String, ObjectIdAsHexString>(doc, "id") {
            Ok(v) => v,
            Err(e) => return Err(e),
        };
        let optional_id = match read_optional::<Identifier, String, ObjectIdAsHexString>(
            doc,
            "optional_id",
        ) {
            Ok(v) => v,
            Err(e) => return Err(e),
        };
        let id_vec = match read_sequence::<Identifier, String, ObjectIdAsHexString>(doc, "id_vec") {
            Ok(v) => v,
            Err(e) => return Err(e),
        };
        let hex_string = match read_direct::<String, Identifier, HexStringAsObjectId>(
            doc,
            "hex_string",
        ) {
            Ok(v) => v,
            Err(e) => return Err(e),
        };
        let opt_string = match read_optional::<String, Identifier, HexStringAsObjectId>(
            doc,
            "opt_string",
        ) {
            Ok(v) => v,
            Err(e) => return Err(e),
        };
        let string_vec = match read_sequence::<String, Identifier, HexStringAsObjectId>(
            doc,
            "string_vec",
        ) {
            Ok(v) => v,
            Err(e) => return Err(e),
        };
        Ok(ObjectIdAndString { id, optional_id, id_vec, hex_string, opt_string, string_vec })
    }
}

/// Every `ObjectIdAndString` whose text fields hold canonical identifier
/// text (24 lowercase hexadecimal digits) encodes, and decoding its document
/// gives the same record back: absent optional fields stay absent, and
/// sequences keep their length and order.
pub proof fn lemma_object_id_record_round_trip(r: ObjectIdAndString)
    requires
        is_canonical_identifier_text(r.hex_string@),
        r.opt_string matches Some(s) ==> is_canonical_identifier_text(s@),
        forall|i: int|
            0 <= i < r.string_vec@.len() ==> is_canonical_identifier_text(
                #[trigger] r.string_vec@[i]@,
            ),
    ensures
        object_id_entries(r@) is Ok,
        object_id_fields(object_id_entries(r@)->Ok_0) == Ok::<
            (Seq<u8>, Option<Seq<u8>>, Seq<Seq<u8>>, Seq<char>, Option<Seq<char>>, Seq<Seq<char>>),
            (Seq<char>, FieldError),
        >(r@),
{
    reveal_strlit("id");
    reveal_strlit("optional_id");
    reveal_strlit("id_vec");
    reveal_strlit("hex_string");
    reveal_strlit("opt_string");
    reveal_strlit("string_vec");
    assert("id"@.len() == 2 && "optional_id"@.len() == 11 && "id_vec"@.len() == 6);
    assert("hex_string"@[0] == 'h' && "opt_string"@[0] == 'o' && "string_vec"@[0] == 's');
    assert("hex_string"@ != "string_vec"@ && "opt_string"@ != "string_vec"@);
    assert("hex_string"@ != "opt_string"@);
    let v = r@;
    assert(r.id_vec.len() == r.id_vec@.len() && r.string_vec.len() == r.string_vec@.len());
    assert forall|w: Seq<char>| #[trigger] String::from_wire_spec(String::wire_spec(w)) == Some(w) by {}
    assert forall|w: Seq<u8>| #[trigger] Identifier::from_wire_spec(Identifier::wire_spec(w)) == Some(w) by {}
    // id
    lemma_identifier_round_trip(v.0);
    lemma_direct_field_round_trip::<Identifier, String, ObjectIdAsHexString>(v.0);
    // optional_id
    if let Some(x) = v.1 {
        lemma_identifier_round_trip(x);
        lemma_direct_field_round_trip::<Identifier, String, ObjectIdAsHexString>(x);
    }
    // id_vec
    assert forall|i: int| 0 <= i < v.2.len() implies comes_back_as::<
        Identifier,
        String,
        ObjectIdAsHexString,
    >(v.2[i], v.2[i]) by {
        lemma_identifier_round_trip(v.2[i]);
    }
    lemma_sequence_field_round_trip::<Identifier, String, ObjectIdAsHexString>(v.2);
    // hex_string
    lemma_identifier_text_round_trip(v.3);
    lemma_direct_field_round_trip::<String, Identifier, HexStringAsObjectId>(v.3);
    // opt_string
    if let Some(x) = v.4 {
        lemma_identifier_text_round_trip(x);
        lemma_direct_field_round_trip::<String, Identifier, HexStringAsObjectId>(x);
    }
    // string_vec
    assert forall|i: int| 0 <= i < v.5.len() implies comes_back_as::<
        String,
        Identifier,
        HexStringAsObjectId,
    >(v.5[i], v.5[i]) by {
        assert(is_canonical_identifier_text(r.string_vec@[i]@));
        lemma_identifier_text_round_trip(v.5[i]);
    }
    lemma_sequence_field_round_trip::<String, Identifier, HexStringAsObjectId>(v.5);
    // the entries, one push per written field
    let empty = Seq::<(Seq<char>, ValueModel)>::empty();
    let x0 = direct_value::<Identifier, String, ObjectIdAsHexString>(v.0)->Ok_0;
    lemma_lookup_push_all(empty, "id"@, x0);
    let es1 = empty.push(("id"@, x0));
    let es2 = match v.1 {
        None => es1,
        Some(x) => {
            let x1 = direct_value::<Identifier, String, ObjectIdAsHexString>(x)->Ok_0;
            lemma_lookup_push_all(es1, "optional_id"@, x1);
            es1.push(("optional_id"@, x1))
        },
    };
    let x2 = sequence_value::<Identifier, String, ObjectIdAsHexString>(v.2)->Ok_0;
    lemma_lookup_push_all(es2, "id_vec"@, x2);
    let es3 = es2.push(("id_vec"@, x2));
    let x3 = direct_value::<String, Identifier, HexStringAsObjectId>(v.3)->Ok_0;
    lemma_lookup_push_all(es3, "hex_string"@, x3);
    let es4 = es3.push(("hex_string"@, x3));
    let es5 = match v.4 {
        None => es4,
        Some(x) => {
            let x4 = direct_value::<String, Identifier, HexStringAsObjectId>(x)->Ok_0;
            lemma_lookup_push_all(es4, "opt_string"@, x4);
            es4.push(("opt_string"@, x4))
        },
    };
    let x5 = sequence_value::<String, Identifier, HexStringAsObjectId>(v.5)->Ok_0;
    lemma_lookup_push_all(es5, "string_vec"@, x5);
    let es6 = es5.push(("string_vec"@, x5));
    assert(object_id_entries(v) == Ok::<
        Seq<(Seq<char>, ValueModel)>,
        (Seq<char>, FieldError),
    >(es6));
    assert(lookup(empty, "id"@) is None);
    assert(lookup(empty, "optional_id"@) is None);
    assert(lookup(empty, "id_vec"@) is None);
    assert(lookup(empty, "hex_string"@) is None);
    assert(lookup(empty, "opt_string"@) is None);
    assert(lookup(empty, "string_vec"@) is None);
}

/// Timestamps carried as RFC 3339 text, and RFC 3339 text carried as timestamps.
#[derive(Clone, Debug, PartialEq, Eq)]
pub struct DateTimeAndString {
    /// Written as RFC 3339 text.
    pub date: Timestamp,
    /// Written as RFC 3339 text when present, left out when absent.
    pub optional_date: Option<Timestamp>,
    /// Written as an array of RFC 3339 texts.
    pub date_vec: Vec<Timestamp>,
    /// Checked and written as a timestamp.
    pub string: String,
    /// Checked and written as a timestamp when present.
    pub optional_string: Option<String>,
    /// Checked and written as an array of timestamps.
    pub string_vec: Vec<String>,
}

impl View for DateTimeAndString {
    type V = (i64, Option<i64>, Seq<i64>, Seq<char>, Option<Seq<char>>, Seq<Seq<char>>);

    open spec fn view(&self) -> Self::V {
        (
            self.date@,
            option_view(self.optional_date),
            vec_view(self.date_vec@),
            self.string@,
            option_view(self.optional_string),
            vec_view(self.string_vec@),
        )
    }
}

/// The entries of an encoded `DateTimeAndString`, in field order, or the
/// first field that fails.
pub open spec fn date_time_entries(
    r: (i64, Option<i64>, Seq<i64>, Seq<char>, Option<Seq<char>>, Seq<Seq<char>>),
) -> EncodedEntries {
    let e1 = then_value(
        Ok(Seq::empty()),
        "date"@,
        direct_value::<Timestamp, String, BsonDatetimeAsRfc3339String>(r.0),
    );
    let e2 = then_optional_value(
        e1,
        "optional_date"@,
        optional_value::<Timestamp, String, BsonDatetimeAsRfc3339String>(r.1),
    );
    let e3 = then_value(
        e2,
        "date_vec"@,
        sequence_value::<Timestamp, String, BsonDatetimeAsRfc3339String>(r.2),
    );
    let e4 = then_value(
        e3,
        "string"@,
        direct_value::<String, Timestamp, Rfc3339StringAsBsonDatetime>(r.3),
    );
    let e5 = then_optional_value(
        e4,
        "optional_string"@,
        optional_value::<String, Timestamp, Rfc3339StringAsBsonDatetime>(r.4),
    );
    then_value(
        e5,
        "string_vec"@,
        sequence_value::<String, Timestamp, Rfc3339StringAsBsonDatetime>(r.5),
    )
}

/// The `DateTimeAndString` read from a document, or the first field, in
/// declaration order, that cannot be read.
pub open spec fn date_time_fields(d: Seq<(Seq<char>, ValueModel)>) -> Result<
    (i64, Option<i64>, Seq<i64>, Seq<char>, Option<Seq<char>>, Seq<Seq<char>>),
    (Seq<char>, FieldError),
> {
    match direct_field::<Timestamp, String, BsonDatetimeAsRfc3339String>(lookup(d, "date"@)) {
        Err(e) => Err(("date"@, e)),
        Ok(f0) => match optional_field::<Timestamp, String, BsonDatetimeAsRfc3339String>(
            lookup(d, "optional_date"@),
        ) {
            Err(e) => Err(("optional_date"@, e)),
            Ok(f1) => match sequence_field::<Timestamp, String, BsonDatetimeAsRfc3339String>(
                lookup(d, "date_vec"@),
            ) {
                Err(e) => Err(("date_vec"@, e)),
                Ok(f2) => match direct_field::<String, Timestamp, Rfc3339StringAsBsonDatetime>(
                    lookup(d, "string"@),
                ) {
                    Err(e) => Err(("string"@, e)),
                    Ok(f3) => match optional_field::<String, Timestamp, Rfc3339StringAsBsonDatetime>(
                        lookup(d, "optional_string"@),
                    ) {
                        Err(e) => Err(("optional_string"@, e)),
                        Ok(f4) => match sequence_field::<String, Timestamp, Rfc3339StringAsBsonDatetime>(
                            lookup(d, "string_vec"@),
                        ) {
                            Err(e) => Err(("string_vec"@, e)),
                            Ok(f5) => Ok((f0, f1, f2, f3, f4, f5)),
                        },
                    },
                },
            },
        },
    }
}

impl DateTimeAndString {
    /// Encodes each field with its bound strategy, in declaration order;
    /// stops at the first field that fails.
    pub fn encode_record(&self) -> (r: Result<Document, RecordError>)
        ensures
            match date_time_entries(self@) {
                Ok(es) => r matches Ok(d) && d@ == es,
                Err(e) => r matches Err(re) && re@ == e,
            },
    {
        let mut doc = Document::new();
        match write_direct::<Timestamp, String, BsonDatetimeAsRfc3339String>(&mut doc, "date", &self.date) {
            Ok(()) => {},
            Err(e) => return Err(e),
        }
        match write_optional::<Timestamp, String, BsonDatetimeAsRfc3339String>(
            &mut doc,
            "optional_date",
            &self.optional_date,
        ) {
            Ok(()) => {},
            Err(e) => return Err(e),
        }
        match write_sequence::<Timestamp, String, BsonDatetimeAsRfc3339String>(
            &mut doc,
            "date_vec",
            &self.date_vec,
        ) {
            Ok(()) => {},
            Err(e) => return Err(e),
        }
        match write_direct::<String, Timestamp, Rfc3339StringAsBsonDatetime>(
            &mut doc,
            "string",
            &self.string,
        ) {
            Ok(()) => {},
            Err(e) => return Err(e),
        }
        match write_optional::<String, Timestamp, Rfc3339StringAsBsonDatetime>(
            &mut doc,
            "optional_string",
            &self.optional_string,
        ) {
            Ok(()) => {},
            Err(e) => return Err(e),
        }
        match write_sequence::<String, Timestamp, Rfc3339StringAsBsonDatetime>(
            &mut doc,
            "string_vec",
            &self.string_vec,
        ) {
            Ok(()) => {},
            Err(e) => return Err(e),
        }
        Ok(doc)
    }

    /// Decodes each field with its bound strategy, in declaration order;
    /// stops at the first field that fails.
    pub fn decode_record(doc: &Document) -> (r: Result<DateTimeAndString, RecordError>)
        ensures
            match date_time_fields(doc@) {
                Ok(x) => r matches Ok(rec) && rec@ == x,
                Err(e) => r matches Err(re) && re@ == e,
            },
    {
        let date = match read_direct::<Timestamp, String, BsonDatetimeAsRfc3339String>(doc, "date") {
            Ok(v) => v,
            Err(e) => return Err(e),
        };
        let optional_date = match read_optional::<Timestamp, String, BsonDatetimeAsRfc3339String>(
            doc,
            "optional_date",
        ) {
            Ok(v) => v,
            Err(e) => return Err(e),
        };
        let date_vec = match read_sequence::<Timestamp, String, BsonDatetimeAsRfc3339String>(doc, "date_vec") {
            Ok(v) => v,
            Err(e) => return Err(e),
        };
        let string = match read_direct::<String, Timestamp, Rfc3339StringAsBsonDatetime>(
            doc,
            "string",
        ) {
            Ok(v) => v,
            Err(e) => return Err(e),
        };
        let optional_string = match read_optional::<String, Timestamp, Rfc3339StringAsBsonDatetime>(
            doc,
            "optional_string",
        ) {
            Ok(v) => v,
            Err(e) => return Err(e),
        };
        let string_vec = match read_sequence::<String, Timestamp, Rfc3339StringAsBsonDatetime>(
            doc,
            "string_vec",
        ) {
            Ok(v) => v,
            Err(e) => return Err(e),
        };
        Ok(DateTimeAndString { date, optional_date, date_vec, string, optional_string, string_vec })
    }
}

/// Text that the formatter writes for some instant: the accepted profile.
pub open spec fn is_timestamp_text(s: Seq<char>) -> bool {
    exists|t: i64| timestamp_text(t) == Some(s)
}

/// Every `DateTimeAndString` whose instants lie within the years 0000 to
/// 9999 and whose text fields hold text in the accepted profile encodes,
/// and decoding its document gives the same record back: absent optional
/// fields stay absent, and sequences keep their length and order.
pub proof fn lemma_date_time_record_round_trip(r: DateTimeAndString)
    requires
        timestamp_text(r.date@) is Some,
        r.optional_date matches Some(t) ==> timestamp_text(t@) is Some,
        forall|i: int|
            0 <= i < r.date_vec@.len() ==> (timestamp_text(#[trigger] r.date_vec@[i]@) is Some),
        is_timestamp_text(r.string@),
        r.optional_string matches Some(s) ==> is_timestamp_text(s@),
        forall|i: int|
            0 <= i < r.string_vec@.len() ==> is_timestamp_text(#[trigger] r.string_vec@[i]@),
    ensures
        date_time_entries(r@) is Ok,
        date_time_fields(date_time_entries(r@)->Ok_0) == Ok::<
            (i64, Option<i64>, Seq<i64>, Seq<char>, Option<Seq<char>>, Seq<Seq<char>>),
            (Seq<char>, FieldError),
        >(r@),
{
    reveal_strlit("date");
    reveal_strlit("optional_date");
    reveal_strlit("date_vec");
    reveal_strlit("string");
    reveal_strlit("optional_string");
    reveal_strlit("string_vec");
    assert("date"@.len() == 4 && "optional_date"@.len() == 13 && "date_vec"@.len() == 8);
    assert("string"@.len() == 6 && "optional_string"@.len() == 15 && "string_vec"@.len() == 10);
    let v = r@;
    assert(r.date_vec.len() == r.date_vec@.len() && r.string_vec.len() == r.string_vec@.len());
    assert forall|w: Seq<char>| #[trigger] String::from_wire_spec(String::wire_spec(w)) == Some(w) by {}
    assert forall|w: i64| #[trigger] Timestamp::from_wire_spec(Timestamp::wire_spec(w)) == Some(w) by {}
    // date
    lemma_timestamp_round_trip(v.0);
    lemma_direct_field_round_trip::<Timestamp, String, BsonDatetimeAsRfc3339String>(v.0);
    // optional_date
    if let Some(x) = v.1 {
        lemma_timestamp_round_trip(x);
        lemma_direct_field_round_trip::<Timestamp, String, BsonDatetimeAsRfc3339String>(x);
    }
    // date_vec
    assert forall|i: int| 0 <= i < v.2.len() implies comes_back_as::<
        Timestamp,
        String,
        BsonDatetimeAsRfc3339String,
    >(v.2[i], v.2[i]) by {
        assert(timestamp_text(r.date_vec@[i]@) is Some);
        lemma_timestamp_round_trip(v.2[i]);
    }
    lemma_sequence_field_round_trip::<Timestamp, String, BsonDatetimeAsRfc3339String>(v.2);
    // string
    let t3 = choose|t: i64| timestamp_text(t) == Some(v.3);
    lemma_timestamp_text_round_trip(v.3, t3);
    lemma_direct_field_round_trip::<String, Timestamp, Rfc3339StringAsBsonDatetime>(v.3);
    // optional_string
    if let Some(x) = v.4 {
        let t4 = choose|t: i64| timestamp_text(t) == Some(x);
        lemma_timestamp_text_round_trip(x, t4);
        lemma_direct_field_round_trip::<String, Timestamp, Rfc3339StringAsBsonDatetime>(x);
    }
    // string_vec
    assert forall|i: int| 0 <= i < v.5.len() implies comes_back_as::<
        String,
        Timestamp,
        Rfc3339StringAsBsonDatetime,
    >(v.5[i], v.5[i]) by {
        assert(is_timestamp_text(r.string_vec@[i]@));
        let t = choose|t: i64| timestamp_text(t) == Some(v.5[i]);
        lemma_timestamp_text_round_trip(v.5[i], t);
    }
    lemma_sequence_field_round_trip::<String, Timestamp, Rfc3339StringAsBsonDatetime>(v.5);
    // the entries, one push per written field
    let empty = Seq::<(Seq<char>, ValueModel)>::empty();
    let x0 = direct_value::<Timestamp, String, BsonDatetimeAsRfc3339String>(v.0)->Ok_0;
    lemma_lookup_push_all(empty, "date"@, x0);
    let es1 = empty.push(("date"@, x0));
    let es2 = match v.1 {
        None => es1,
        Some(x) => {
            let x1 = direct_value::<Timestamp, String, BsonDatetimeAsRfc3339String>(x)->Ok_0;
            lemma_lookup_push_all(es1, "optional_date"@, x1);
            es1.push(("optional_date"@, x1))
        },
    };
    let x2 = sequence_value::<Timestamp, String, BsonDatetimeAsRfc3339String>(v.2)->Ok_0;
    lemma_lookup_push_all(es2, "date_vec"@, x2);
    let es3 = es2.push(("date_vec"@, x2));
    let x3 = direct_value::<String, Timestamp, Rfc3339StringAsBsonDatetime>(v.3)->Ok_0;
    lemma_lookup_push_all(es3, "string"@, x3);
    let es4 = es3.push(("string"@, x3));
    let es5 = match v.4 {
        None => es4,
        Some(x) => {
            let x4 = direct_value::<String, Timestamp, Rfc3339StringAsBsonDatetime>(x)->Ok_0;
            lemma_lookup_push_all(es4, "optional_string"@, x4);
            es4.push(("optional_string"@, x4))
        },
    };
    let x5 = sequence_value::<String, Timestamp, Rfc3339StringAsBsonDatetime>(v.5)->Ok_0;
    lemma_lookup_push_all(es5, "string_vec"@, x5);
    let es6 = es5.push(("string_vec"@, x5));
    assert(date_time_entries(v) == Ok::<
        Seq<(Seq<char>, ValueModel)>,
        (Seq<char>, FieldError),
    >(es6));
    assert(lookup(empty, "date"@) is None);
    assert(lookup(empty, "optional_date"@) is None);
    assert(lookup(empty, "date_vec"@) is None);
    assert(lookup(empty, "string"@) is None);
    assert(lookup(empty, "optional_string"@) is None);
    assert(lookup(empty, "string_vec"@) is None);
}

} // verus!
