//! The wire document: an ordered list of keyed values, each a scalar or an
//! array of scalars.

use crate::identifier::Identifier;
use crate::timestamp::Timestamp;
use crate::wrappers::option_view;
use vstd::prelude::*;

verus! {

/// A single value as written on the wire.
#[derive(Clone, Debug, PartialEq, Eq)]
pub enum WireScalar {
    Text(String),
    ObjectId(Identifier),
    DateTime(Timestamp),
}

/// What a wire scalar holds.
pub enum ScalarModel {
    Text(Seq<char>),
    ObjectId(Seq<u8>),
    DateTime(i64),
}

impl View for WireScalar {
    type V = ScalarModel;

    open spec fn view(&self) -> ScalarModel {
        match self {
            WireScalar::Text(s) => ScalarModel::Text(s@),
            WireScalar::ObjectId(id) => ScalarModel::ObjectId(id@),
            WireScalar::DateTime(t) => ScalarModel::DateTime(t@),
        }
    }
}

/// The value stored under one key.
#[derive(Clone, Debug, PartialEq, Eq)]
pub enum WireValue {
    Scalar(WireScalar),
    Array(Vec<WireScalar>),
}

/// What a wire value holds.
pub enum ValueModel {
    Scalar(ScalarModel),
    Array(Seq<ScalarModel>),
}

/// The scalars of an array, seen through their views.
pub open spec fn scalars_view(v: Seq<WireScalar>) -> Seq<ScalarModel> {
    v.map_values(|s: WireScalar| s@)
}

impl View for WireValue {
    type V = ValueModel;

    open spec fn view(&self) -> ValueModel {
        match self {
            WireValue::Scalar(s) => ValueModel::Scalar(s@),
            WireValue::Array(v) => ValueModel::Array(scalars_view(v@)),
        }
    }
}

/// One key and its value.
#[derive(Clone, Debug, PartialEq, Eq)]
pub struct WireEntry {
    pub key: String,
    pub value: WireValue,
}

impl View for WireEntry {
    type V = (Seq<char>, ValueModel);

    open spec fn view(&self) -> (Seq<char>, ValueModel) {
        (self.key@, self.value@)
    }
}

/// An encoded record: its entries in the order the fields were declared.
#[derive(Clone, Debug, PartialEq, Eq)]
pub struct Document {
    pub entries: Vec<WireEntry>,
}

impl View for Document {
    type V = Seq<(Seq<char>, ValueModel)>;

    open spec fn view(&self) -> Seq<(Seq<char>, ValueModel)> {
        self.entries@.map_values(|e: WireEntry| e@)
    }
}

/// The value of the first entry with the given key, if any.
pub open spec fn lookup(d: Seq<(Seq<char>, ValueModel)>, key: Seq<char>) -> Option<ValueModel>
    decreases d.len(),
{
    if d.len() == 0 {
        None
    } else if d[0].0 == key {
        Some(d[0].1)
    } else {
        lookup(d.drop_first(), key)
    }
}

impl Document {
    /// A document with no entries.
    pub fn new() -> (r: Document)
        ensures
            r@ == Seq::<(Seq<char>, ValueModel)>::empty(),
    {
        let r = Document { entries: Vec::new() };
        assert(r@ =~= Seq::<(Seq<char>, ValueModel)>::empty());
        r
    }

    /// Appends an entry at the end.
    pub fn push(&mut self, key: String, value: WireValue)
        ensures
            final(self)@ == old(self)@.push((key@, value@)),
    {
        let ghost before = self@;
        self.entries.push(WireEntry { key, value });
        assert(self@ =~= before.push((key@, value@)));
    }

    /// The value of the first entry with the given key, if any.
    pub fn get(&self, key: &str) -> (r: Option<&WireValue>)
        ensures
            r matches Some(v) ==> lookup(self@, key@) == Some(v@),
            r is None ==> lookup(self@, key@) is None,
    {
        let k = key.to_owned();
        let mut i: usize = 0;
        assert(self@.skip(0) =~= self@);
        while i < self.entries.len()
            invariant
                i <= self.entries.len(),
                k@ == key@,
                lookup(self@, key@) == lookup(self@.skip(i as int), key@),
            decreases self.entries.len() - i,
        {
            let ghost rest = self@.skip(i as int);
            assert(rest[0] == self.entries@[i as int]@);
            if self.entries[i].key == k {
                return Some(&self.entries[i].value);
            }
            assert(rest.drop_first() =~= self@.skip(i + 1));
            i += 1;
        }
        None
    }
}

/// A type that is carried on the wire as one kind of scalar.
pub trait WireForm: View + Sized {
    /// The scalar written for a value.
    spec fn wire_spec(v: Self::V) -> ScalarModel;

    /// The value read from a scalar, if the scalar is of this kind.
    spec fn from_wire_spec(s: ScalarModel) -> Option<Self::V>;

    /// Writes the value as a scalar.
    fn to_wire(&self) -> (r: WireScalar)
        ensures
            r@ == Self::wire_spec(self@),
    ;

    /// Reads a value from a scalar of this kind.
    fn from_wire(s: &WireScalar) -> (r: Option<Self>)
        ensures
            option_view(r) == Self::from_wire_spec(s@),
    ;
}

impl WireForm for String {
    open spec fn wire_spec(v: Seq<char>) -> ScalarModel {
        ScalarModel::Text(v)
    }

    open spec fn from_wire_spec(s: ScalarModel) -> Option<Seq<char>> {
        match s {
            ScalarModel::Text(t) => Some(t),
            _ => None,
        }
    }

    fn to_wire(&self) -> (r: WireScalar) {
        WireScalar::Text(self.clone())
    }

    fn from_wire(s: &WireScalar) -> (r: Option<String>) {
        match s {
            WireScalar::Text(t) => Some(t.clone()),
            _ => None,
        }
    }
}

impl WireForm for Identifier {
    open spec fn wire_spec(v: Seq<u8>) -> ScalarModel {
        ScalarModel::ObjectId(v)
    }

    open spec fn from_wire_spec(s: ScalarModel) -> Option<Seq<u8>> {
        match s {
            ScalarModel::ObjectId(b) => Some(b),
            _ => None,
        }
    }

    fn to_wire(&self) -> (r: WireScalar) {
        WireScalar::ObjectId(*self)
    }

    fn from_wire(s: &WireScalar) -> (r: Option<Identifier>) {
        match s {
            WireScalar::ObjectId(id) => Some(*id),
            _ => None,
        }
    }
}

impl WireForm for Timestamp {
    open spec fn wire_spec(v: i64) -> ScalarModel {
        ScalarModel::DateTime(v)
    }

    open spec fn from_wire_spec(s: ScalarModel) -> Option<i64> {
        match s {
            ScalarModel::DateTime(m) => Some(m),
            _ => None,
        }
    }

    fn to_wire(&self) -> (r: WireScalar) {
        WireScalar::DateTime(*self)
    }

    fn from_wire(s: &WireScalar) -> (r: Option<Timestamp>) {
        match s {
            WireScalar::DateTime(t) => Some(*t),
            _ => None,
        }
    }
}

} // verus!
