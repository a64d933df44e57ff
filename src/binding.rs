//! Binding a strategy to one field of a record, in its direct, optional or
//! sequence form, for both encoding into and decoding from a document.

use crate::document::{lookup, Document, ScalarModel, ValueModel, WireForm, WireScalar, WireValue};
use crate::strategy::{ConversionError, ConversionStrategy};
use crate::wrappers::{
    decode_seq, decoder, encode_seq, encoder, lift_seq, vec_view, SequenceElementError,
};
use vstd::prelude::*;

verus! {

/// Why one field could not be encoded or decoded.
#[derive(Clone, Copy, Debug, PartialEq, Eq, Structural)]
pub enum FieldError {
    /// The strategy refused the value.
    Conversion(ConversionError),
    /// The strategy refused one element of a sequence.
    SequenceElement(SequenceElementError),
    /// A required key is absent from the document.
    MissingField,
    /// The key holds a value of another shape or kind.
    TypeMismatch,
}

/// A field error, with the key of the field that failed.
#[derive(Clone, Debug, PartialEq, Eq)]
pub struct RecordError {
    pub field: String,
    pub error: FieldError,
}

impl View for RecordError {
    type V = (Seq<char>, FieldError);

    open spec fn view(&self) -> (Seq<char>, FieldError) {
        (self.field@, self.error)
    }
}

/// The wire value of a directly bound field.
pub open spec fn direct_value<A: View, W: WireForm, S: ConversionStrategy<A, W>>(a: A::V) -> Result<
    ValueModel,
    FieldError,
> {
    match S::encode_spec(a) {
        Ok(w) => Ok(ValueModel::Scalar(W::wire_spec(w))),
        Err(e) => Err(FieldError::Conversion(e)),
    }
}

/// The wire value of an optional field; `None` when there is nothing to write.
pub open spec fn optional_value<A: View, W: WireForm, S: ConversionStrategy<A, W>>(
    a: Option<A::V>,
) -> Result<Option<ValueModel>, FieldError> {
    match a {
        None => Ok(None),
        Some(x) => match direct_value::<A, W, S>(x) {
            Ok(v) => Ok(Some(v)),
            Err(e) => Err(e),
        },
    }
}

/// The scalars written for a sequence of wire values.
pub open spec fn wire_scalars<W: WireForm>(ws: Seq<W::V>) -> Seq<ScalarModel> {
    ws.map_values(|w: W::V| W::wire_spec(w))
}

/// The wire value of a sequence field: an array of the encoded elements.
pub open spec fn sequence_value<A: View, W: WireForm, S: ConversionStrategy<A, W>>(
    v: Seq<A::V>,
) -> Result<ValueModel, FieldError> {
    match lift_seq(v, encoder::<A, W, S>()) {
        Ok(ws) => Ok(ValueModel::Array(wire_scalars::<W>(ws))),
        Err(e) => Err(FieldError::SequenceElement(e)),
    }
}

/// Decoding a directly bound field from the value found under its key.
pub open spec fn direct_field<A: View, W: WireForm, S: ConversionStrategy<A, W>>(
    v: Option<ValueModel>,
) -> Result<A::V, FieldError> {
    match v {
        None => Err(FieldError::MissingField),
        Some(ValueModel::Array(_)) => Err(FieldError::TypeMismatch),
        Some(ValueModel::Scalar(s)) => match W::from_wire_spec(s) {
            None => Err(FieldError::TypeMismatch),
            Some(w) => match S::decode_spec(w) {
                Ok(a) => Ok(a),
                Err(e) => Err(FieldError::Conversion(e)),
            },
        },
    }
}

/// Decoding an optional field: an absent key is an absent value.
pub open spec fn optional_field<A: View, W: WireForm, S: ConversionStrategy<A, W>>(
    v: Option<ValueModel>,
) -> Result<Option<A::V>, FieldError> {
    match v {
        None => Ok(None),
        Some(_) => match direct_field::<A, W, S>(v) {
            Ok(a) => Ok(Some(a)),
            Err(e) => Err(e),
        },
    }
}

/// Every scalar of an array is of the kind that `W` is carried as.
pub open spec fn all_of_kind<W: WireForm>(xs: Seq<ScalarModel>) -> bool {
    forall|i: int| 0 <= i < xs.len() ==> (#[trigger] W::from_wire_spec(xs[i])) is Some
}

/// The wire values read from an array whose scalars are all of `W`'s kind.
pub open spec fn read_scalars<W: WireForm>(xs: Seq<ScalarModel>) -> Seq<W::V> {
    xs.map_values(|s: ScalarModel| W::from_wire_spec(s)->Some_0)
}

/// Decoding a sequence field: an array whose scalars are all of the right
/// kind, decoded element by element.
pub open spec fn sequence_field<A: View, W: WireForm, S: ConversionStrategy<A, W>>(
    v: Option<ValueModel>,
) -> Result<Seq<A::V>, FieldError> {
    match v {
        None => Err(FieldError::MissingField),
        Some(ValueModel::Scalar(_)) => Err(FieldError::TypeMismatch),
        Some(ValueModel::Array(xs)) => if all_of_kind::<W>(xs) {
            match lift_seq(read_scalars::<W>(xs), decoder::<A, W, S>()) {
                Ok(a) => Ok(a),
                Err(e) => Err(FieldError::SequenceElement(e)),
            }
        } else {
            Err(FieldError::TypeMismatch)
        },
    }
}

/// Entries of a document being encoded, or the first field error, with its key.
pub type EncodedEntries = Result<Seq<(Seq<char>, ValueModel)>, (Seq<char>, FieldError)>;

/// Adds the value of one more field to the entries encoded so far.
pub open spec fn then_value(acc: EncodedEntries, key: Seq<char>, v: Result<ValueModel, FieldError>) -> EncodedEntries {
    match acc {
        Err(e) => Err(e),
        Ok(es) => match v {
            Ok(x) => Ok(es.push((key, x))),
            Err(e) => Err((key, e)),
        },
    }
}

/// Adds the value of one more optional field, if it has one, to the entries
/// encoded so far.
pub open spec fn then_optional_value(
    acc: EncodedEntries,
    key: Seq<char>,
    v: Result<Option<ValueModel>, FieldError>,
) -> EncodedEntries {
    match acc {
        Err(e) => Err(e),
        Ok(es) => match v {
            Ok(None) => Ok(es),
            Ok(Some(x)) => Ok(es.push((key, x))),
            Err(e) => Err((key, e)),
        },
    }
}

fn field_error(key: &str, error: FieldError) -> (r: RecordError)
    ensures
        r@ == (key@, error),
{
    RecordError { field: key.to_owned(), error }
}

/// Writes a directly bound field under `key`.
pub fn write_direct<A: View, W: WireForm, S: ConversionStrategy<A, W>>(
    doc: &mut Document,
    key: &str,
    a: &A,
) -> (r: Result<(), RecordError>)
    ensures
        match direct_value::<A, W, S>(a@) {
            Ok(v) => r is Ok && final(doc)@ == old(doc)@.push((key@, v)),
            Err(e) => r matches Err(re) && re@ == (key@, e) && final(doc)@ == old(doc)@,
        },
{
    match S::encode(a) {
        Ok(w) => {
            let s = w.to_wire();
            doc.push(key.to_owned(), WireValue::Scalar(s));
            Ok(())
        },
        Err(e) => Err(field_error(key, FieldError::Conversion(e))),
    }
}

/// Writes an optional field under `key`; writes nothing for an absent value.
pub fn write_optional<A: View, W: WireForm, S: ConversionStrategy<A, W>>(
    doc: &mut Document,
    key: &str,
    a: &Option<A>,
) -> (r: Result<(), RecordError>)
    ensures
        match optional_value::<A, W, S>(crate::wrappers::option_view(*a)) {
            Ok(None) => r is Ok && final(doc)@ == old(doc)@,
            Ok(Some(v)) => r is Ok && final(doc)@ == old(doc)@.push((key@, v)),
            Err(e) => r matches Err(re) && re@ == (key@, e) && final(doc)@ == old(doc)@,
        },
{
    match a {
        None => Ok(()),
        Some(x) => write_direct::<A, W, S>(doc, key, x),
    }
}

/// Writes a sequence field under `key`, as an array.
pub fn write_sequence<A: View, W: WireForm, S: ConversionStrategy<A, W>>(
    doc: &mut Document,
    key: &str,
    v: &Vec<A>,
) -> (r: Result<(), RecordError>)
    ensures
        match sequence_value::<A, W, S>(vec_view(v@)) {
            Ok(val) => r is Ok && final(doc)@ == old(doc)@.push((key@, val)),
            Err(e) => r matches Err(re) && re@ == (key@, e) && final(doc)@ == old(doc)@,
        },
{
    match encode_seq::<A, W, S>(v) {
        Ok(ws) => {
            let mut out: Vec<WireScalar> = Vec::new();
            let mut i: usize = 0;
            while i < ws.len()
                invariant
                    i <= ws.len(),
                    crate::document::scalars_view(out@) == wire_scalars::<W>(vec_view(ws@)).take(
                        i as int,
                    ),
                decreases ws.len() - i,
            {
                let s = ws[i].to_wire();
                let ghost before = crate::document::scalars_view(out@);
                out.push(s);
                assert(crate::document::scalars_view(out@) =~= before.push(s@));
                assert(crate::document::scalars_view(out@) =~= wire_scalars::<W>(
                    vec_view(ws@),
                ).take(i + 1));
                i += 1;
            }
            assert(wire_scalars::<W>(vec_view(ws@)).take(ws.len() as int) =~= wire_scalars::<W>(
                vec_view(ws@),
            ));
            doc.push(key.to_owned(), WireValue::Array(out));
            Ok(())
        },
        Err(e) => Err(field_error(key, FieldError::SequenceElement(e))),
    }
}

/// Reads a directly bound field from the value under `key`.
pub fn read_direct<A: View, W: WireForm, S: ConversionStrategy<A, W>>(doc: &Document, key: &str) -> (r:
    Result<A, RecordError>)
    ensures
        match direct_field::<A, W, S>(lookup(doc@, key@)) {
            Ok(x) => r matches Ok(a) && a@ == x,
            Err(e) => r matches Err(re) && re@ == (key@, e),
        },
{
    match doc.get(key) {
        None => Err(field_error(key, FieldError::MissingField)),
        Some(WireValue::Array(_)) => Err(field_error(key, FieldError::TypeMismatch)),
        Some(WireValue::Scalar(s)) => match W::from_wire(s) {
            None => Err(field_error(key, FieldError::TypeMismatch)),
            Some(w) => match S::decode(&w) {
                Ok(a) => Ok(a),
                Err(e) => Err(field_error(key, FieldError::Conversion(e))),
            },
        },
    }
}

/// Reads an optional field; an absent key gives an absent value.
pub fn read_optional<A: View, W: WireForm, S: ConversionStrategy<A, W>>(
    doc: &Document,
    key: &str,
) -> (r: Result<Option<A>, RecordError>)
    ensures
        match optional_field::<A, W, S>(lookup(doc@, key@)) {
            Ok(x) => r matches Ok(a) && crate::wrappers::option_view(a) == x,
            Err(e) => r matches Err(re) && re@ == (key@, e),
        },
{
    match doc.get(key) {
        None => Ok(None),
        Some(_) => match read_direct::<A, W, S>(doc, key) {
            Ok(a) => Ok(Some(a)),
            Err(e) => Err(e),
        },
    }
}

/// Reads a sequence field from the array under `key`.
pub fn read_sequence<A: View, W: WireForm, S: ConversionStrategy<A, W>>(
    doc: &Document,
    key: &str,
) -> (r: Result<Vec<A>, RecordError>)
    ensures
        match sequence_field::<A, W, S>(lookup(doc@, key@)) {
            Ok(x) => r matches Ok(a) && vec_view(a@) == x,
            Err(e) => r matches Err(re) && re@ == (key@, e),
        },
{
    match doc.get(key) {
        None => Err(field_error(key, FieldError::MissingField)),
        Some(WireValue::Scalar(_)) => Err(field_error(key, FieldError::TypeMismatch)),
        Some(WireValue::Array(xs)) => {
            let ghost m = crate::document::scalars_view(xs@);
            let mut ws: Vec<W> = Vec::new();
            let mut i: usize = 0;
            while i < xs.len()
                invariant
                    i <= xs.len(),
                    m == crate::document::scalars_view(xs@),
                    lookup(doc@, key@) == Some(ValueModel::Array(m)),
                    forall|j: int| 0 <= j < i ==> (#[trigger] W::from_wire_spec(m[j])) is Some,
                    vec_view(ws@) == read_scalars::<W>(m).take(i as int),
                decreases xs.len() - i,
            {
                let got = W::from_wire(&xs[i]);
                assert(m[i as int] == xs@[i as int]@);
                match got {
                    None => {
                        assert(W::from_wire_spec(m[i as int]) is None);
                        assert(!all_of_kind::<W>(m));
                        assert(lookup(doc@, key@) == Some(ValueModel::Array(m)));
                        assert(sequence_field::<A, W, S>(lookup(doc@, key@)) == Err::<
                            Seq<A::V>,
                            FieldError,
                        >(FieldError::TypeMismatch));
                        return Err(field_error(key, FieldError::TypeMismatch));
                    },
                    Some(w) => {
                        let ghost before = vec_view(ws@);
                        ws.push(w);
                        assert(vec_view(ws@) =~= before.push(w@));
                        assert(vec_view(ws@) =~= read_scalars::<W>(m).take(i + 1));
                    },
                }
                i += 1;
            }
            assert(all_of_kind::<W>(m));
            assert(read_scalars::<W>(m).take(xs.len() as int) =~= read_scalars::<W>(m));
            match decode_seq::<A, W, S>(&ws) {
                Ok(a) => Ok(a),
                Err(e) => Err(field_error(key, FieldError::SequenceElement(e))),
            }
        },
    }
}

/// Looking a key up after one more entry: an earlier entry with the key
/// wins, else the new entry if it has the key.
pub proof fn lemma_lookup_push(
    es: Seq<(Seq<char>, ValueModel)>,
    k: Seq<char>,
    v: ValueModel,
    key: Seq<char>,
)
    ensures
        lookup(es.push((k, v)), key) == if lookup(es, key) is Some {
            lookup(es, key)
        } else if k == key {
            Some(v)
        } else {
            None
        },
    decreases es.len(),
{
    let es2 = es.push((k, v));
    if es.len() > 0 {
        assert(es2[0] == es[0]);
        assert(es2.drop_first() =~= es.drop_first().push((k, v)));
        lemma_lookup_push(es.drop_first(), k, v, key);
    } else {
        assert(es2[0] == (k, v));
        assert(es2.drop_first() =~= Seq::<(Seq<char>, ValueModel)>::empty());
        assert(lookup(es2.drop_first(), key) is None);
    }
}

/// `lemma_lookup_push` for every key at once.
pub proof fn lemma_lookup_push_all(es: Seq<(Seq<char>, ValueModel)>, k: Seq<char>, v: ValueModel)
    ensures
        forall|key: Seq<char>|
            #[trigger] lookup(es.push((k, v)), key) == if lookup(es, key) is Some {
                lookup(es, key)
            } else if k == key {
                Some(v)
            } else {
                None
            },
{
    assert forall|key: Seq<char>|
        #[trigger] lookup(es.push((k, v)), key) == if lookup(es, key) is Some {
            lookup(es, key)
        } else if k == key {
            Some(v)
        } else {
            None
        } by {
        lemma_lookup_push(es, k, v, key);
    }
}

/// A field written directly reads back as the strategy's decoding of its
/// encoding.
pub proof fn lemma_direct_field_round_trip<A: View, W: WireForm, S: ConversionStrategy<A, W>>(
    a: A::V,
)
    requires
        crate::wrappers::comes_back_as::<A, W, S>(a, a),
        forall|w: W::V| #[trigger] W::from_wire_spec(W::wire_spec(w)) == Some(w),
    ensures
        direct_value::<A, W, S>(a) is Ok,
        direct_field::<A, W, S>(Some(direct_value::<A, W, S>(a)->Ok_0)) == Ok::<
            A::V,
            FieldError,
        >(a),
{
    let w = S::encode_spec(a)->Ok_0;
    assert(W::from_wire_spec(W::wire_spec(w)) == Some(w));
}

/// A sequence field written element by element reads back the same
/// sequence when every element comes back as itself.
pub proof fn lemma_sequence_field_round_trip<A: View, W: WireForm, S: ConversionStrategy<A, W>>(
    v: Seq<A::V>,
)
    requires
        v.len() <= usize::MAX,
        forall|i: int| 0 <= i < v.len() ==> crate::wrappers::comes_back_as::<A, W, S>(v[i], v[i]),
        forall|w: W::V| #[trigger] W::from_wire_spec(W::wire_spec(w)) == Some(w),
    ensures
        sequence_value::<A, W, S>(v) is Ok,
        sequence_field::<A, W, S>(Some(sequence_value::<A, W, S>(v)->Ok_0)) == Ok::<
            Seq<A::V>,
            FieldError,
        >(v),
{
    let enc = encoder::<A, W, S>();
    let dec = decoder::<A, W, S>();
    crate::wrappers::lemma_lift_seq(v, enc);
    assert forall|i: int| 0 <= i < v.len() implies (#[trigger] enc(v[i])) is Ok by {
        assert(crate::wrappers::comes_back_as::<A, W, S>(v[i], v[i]));
    }
    let ws = lift_seq(v, enc)->Ok_0;
    let xs = wire_scalars::<W>(ws);
    assert forall|i: int| 0 <= i < xs.len() implies (#[trigger] W::from_wire_spec(xs[i])) is Some by {
        assert(W::from_wire_spec(W::wire_spec(ws[i])) == Some(ws[i]));
    }
    assert(read_scalars::<W>(xs) =~= ws) by {
        assert forall|i: int| 0 <= i < ws.len() implies read_scalars::<W>(xs)[i] == ws[i] by {
            assert(W::from_wire_spec(W::wire_spec(ws[i])) == Some(ws[i]));
        }
    }
    crate::wrappers::lemma_lift_seq(ws, dec);
    assert forall|i: int| 0 <= i < ws.len() implies (#[trigger] dec(ws[i])) is Ok by {
        assert(crate::wrappers::comes_back_as::<A, W, S>(v[i], v[i]));
        assert(enc(v[i]) == Ok::<W::V, ConversionError>(ws[i]));
    }
    let back = lift_seq(ws, dec)->Ok_0;
    assert(back =~= v) by {
        assert forall|i: int| 0 <= i < v.len() implies back[i] == v[i] by {
            assert(crate::wrappers::comes_back_as::<A, W, S>(v[i], v[i]));
            assert(enc(v[i]) == Ok::<W::V, ConversionError>(ws[i]));
            assert(dec(ws[i]) == Ok::<A::V, ConversionError>(back[i]));
        }
    }
}

} // verus!
