//! Lifting any conversion strategy to optional values and to sequences.

use crate::strategy::{view_result, ConversionError, ConversionStrategy};
use vstd::prelude::*;

verus! {

/// A sequence conversion stopped at the element `index`, for `cause`.
#[derive(Clone, Copy, Debug, PartialEq, Eq, Structural)]
pub struct SequenceElementError {
    pub index: usize,
    pub cause: ConversionError,
}

/// An optional value seen through the view of its content.
pub open spec fn option_view<T: View>(o: Option<T>) -> Option<T::V> {
    match o {
        Some(t) => Some(t@),
        None => None,
    }
}

/// A vector seen through the views of its elements.
pub open spec fn vec_view<T: View>(v: Seq<T>) -> Seq<T::V> {
    v.map_values(|t: T| t@)
}

/// A result of an optional value seen through the view of its content.
pub open spec fn view_option_result<T: View>(r: Result<Option<T>, ConversionError>) -> Result<
    Option<T::V>,
    ConversionError,
> {
    match r {
        Ok(o) => Ok(option_view(o)),
        Err(e) => Err(e),
    }
}

/// A result of a vector seen through the views of its elements.
pub open spec fn view_seq_result<T: View>(r: Result<Vec<T>, SequenceElementError>) -> Result<
    Seq<T::V>,
    SequenceElementError,
> {
    match r {
        Ok(v) => Ok(vec_view(v@)),
        Err(e) => Err(e),
    }
}

/// A conversion applied to the content of an optional value: absence stays
/// absence, and a failure of the content is the failure of the whole.
pub open spec fn lift_option<X, Y>(
    o: Option<X>,
    f: spec_fn(X) -> Result<Y, ConversionError>,
) -> Result<Option<Y>, ConversionError> {
    match o {
        None => Ok(None),
        Some(x) => match f(x) {
            Ok(y) => Ok(Some(y)),
            Err(e) => Err(e),
        },
    }
}

/// A conversion applied element by element: the converted sequence in the
/// same order, or the first element that fails, with its index and cause.
pub open spec fn lift_seq<X, Y>(
    s: Seq<X>,
    f: spec_fn(X) -> Result<Y, ConversionError>,
) -> Result<Seq<Y>, SequenceElementError>
    decreases s.len(),
{
    if s.len() == 0 {
        Ok(Seq::empty())
    } else {
        match lift_seq(s.drop_last(), f) {
            Err(e) => Err(e),
            Ok(ys) => match f(s.last()) {
                Ok(y) => Ok(ys.push(y)),
                Err(c) => Err(SequenceElementError { index: (s.len() - 1) as usize, cause: c }),
            },
        }
    }
}

/// The encoding of a strategy, as a function of views.
pub open spec fn encoder<A: View, W: View, S: ConversionStrategy<A, W>>() -> spec_fn(A::V) -> Result<
    W::V,
    ConversionError,
> {
    |x: A::V| S::encode_spec(x)
}

/// The decoding of a strategy, as a function of views.
pub open spec fn decoder<A: View, W: View, S: ConversionStrategy<A, W>>() -> spec_fn(W::V) -> Result<
    A::V,
    ConversionError,
> {
    |x: W::V| S::decode_spec(x)
}

/// Encodes the content of an optional value, if there is one.
pub fn encode_option<A: View, W: View, S: ConversionStrategy<A, W>>(a: &Option<A>) -> (r: Result<
    Option<W>,
    ConversionError,
>)
    ensures
        view_option_result(r) == lift_option(option_view(*a), encoder::<A, W, S>()),
{
    match a {
        None => Ok(None),
        Some(x) => {
            let res = S::encode(x);
            match res {
                Ok(w) => Ok(Some(w)),
                Err(e) => Err(e),
            }
        },
    }
}

/// Decodes the content of an optional value, if there is one.
pub fn decode_option<A: View, W: View, S: ConversionStrategy<A, W>>(w: &Option<W>) -> (r: Result<
    Option<A>,
    ConversionError,
>)
    ensures
        view_option_result(r) == lift_option(option_view(*w), decoder::<A, W, S>()),
{
    match w {
        None => Ok(None),
        Some(x) => {
            let res = S::decode(x);
            match res {
                Ok(a) => Ok(Some(a)),
                Err(e) => Err(e),
            }
        },
    }
}

/// Once a prefix of a sequence fails, the whole sequence fails the same way.
proof fn lemma_lift_seq_failure_extends<X, Y>(
    s: Seq<X>,
    f: spec_fn(X) -> Result<Y, ConversionError>,
    n: int,
)
    requires
        0 <= n <= s.len(),
        lift_seq(s.take(n), f) is Err,
    ensures
        lift_seq(s, f) == lift_seq(s.take(n), f),
    decreases s.len() - n,
{
    if n < s.len() {
        assert(s.take(n + 1).drop_last() =~= s.take(n));
        lemma_lift_seq_failure_extends(s, f, n + 1);
    } else {
        assert(s.take(n) =~= s);
    }
}

/// Encodes each element in order; stops at the first element that fails.
pub fn encode_seq<A: View, W: View, S: ConversionStrategy<A, W>>(v: &Vec<A>) -> (r: Result<
    Vec<W>,
    SequenceElementError,
>)
    ensures
        view_seq_result(r) == lift_seq(vec_view(v@), encoder::<A, W, S>()),
{
    let ghost f = encoder::<A, W, S>();
    let ghost s = vec_view(v@);
    let mut out: Vec<W> = Vec::new();
    let mut i: usize = 0;
    proof {
        assert(s.take(0) =~= Seq::<A::V>::empty());
        assert(vec_view(out@) =~= Seq::<W::V>::empty());
    }
    while i < v.len()
        invariant
            i <= v.len(),
            s == vec_view(v@),
            f == encoder::<A, W, S>(),
            lift_seq(s.take(i as int), f) == Ok::<Seq<W::V>, SequenceElementError>(vec_view(out@)),
        decreases v.len() - i,
    {
        let res = S::encode(&v[i]);
        proof {
            assert(s.take(i + 1).drop_last() =~= s.take(i as int));
            assert(s.take(i + 1).last() == v@[i as int]@);
        }
        match res {
            Ok(w) => {
                let ghost before = vec_view(out@);
                out.push(w);
                proof {
                    assert(vec_view(out@) =~= before.push(w@));
                }
            },
            Err(e) => {
                proof {
                    lemma_lift_seq_failure_extends(s, f, i + 1);
                }
                return Err(SequenceElementError { index: i, cause: e });
            },
        }
        i += 1;
    }
    proof {
        assert(s.take(v.len() as int) =~= s);
    }
    Ok(out)
}

/// Decodes each element in order; stops at the first element that fails.
pub fn decode_seq<A: View, W: View, S: ConversionStrategy<A, W>>(v: &Vec<W>) -> (r: Result<
    Vec<A>,
    SequenceElementError,
>)
    ensures
        view_seq_result(r) == lift_seq(vec_view(v@), decoder::<A, W, S>()),
{
    let ghost f = decoder::<A, W, S>();
    let ghost s = vec_view(v@);
    let mut out: Vec<A> = Vec::new();
    let mut i: usize = 0;
    proof {
        assert(s.take(0) =~= Seq::<W::V>::empty());
        assert(vec_view(out@) =~= Seq::<A::V>::empty());
    }
    while i < v.len()
        invariant
            i <= v.len(),
            s == vec_view(v@),
            f == decoder::<A, W, S>(),
            lift_seq(s.take(i as int), f) == Ok::<Seq<A::V>, SequenceElementError>(vec_view(out@)),
        decreases v.len() - i,
    {
        let res = S::decode(&v[i]);
        proof {
            assert(s.take(i + 1).drop_last() =~= s.take(i as int));
            assert(s.take(i + 1).last() == v@[i as int]@);
        }
        match res {
            Ok(a) => {
                let ghost before = vec_view(out@);
                out.push(a);
                proof {
                    assert(vec_view(out@) =~= before.push(a@));
                }
            },
            Err(e) => {
                proof {
                    lemma_lift_seq_failure_extends(s, f, i + 1);
                }
                return Err(SequenceElementError { index: i, cause: e });
            },
        }
        i += 1;
    }
    proof {
        assert(s.take(v.len() as int) =~= s);
    }
    Ok(out)
}

/// What a conversion of an optional value gives when applied to the result
/// of an earlier one.
pub open spec fn then_option<X, Y>(
    r: Result<Option<X>, ConversionError>,
    f: spec_fn(X) -> Result<Y, ConversionError>,
) -> Result<Option<Y>, ConversionError> {
    match r {
        Ok(o) => lift_option(o, f),
        Err(e) => Err(e),
    }
}

/// Under the optional form of any strategy, absence encodes and decodes back
/// to absence, and a present value comes back as the strategy's own decoding
/// of its own encoding, failures included.
pub proof fn lemma_option_round_trip<A: View, W: View, S: ConversionStrategy<A, W>>(x: A::V)
    ensures
        then_option(lift_option(None::<A::V>, encoder::<A, W, S>()), decoder::<A, W, S>())
            == Ok::<Option<A::V>, ConversionError>(None),
        then_option(lift_option(Some(x), encoder::<A, W, S>()), decoder::<A, W, S>()) == match S::encode_spec(x) {
            Ok(w) => match S::decode_spec(w) {
                Ok(a) => Ok(Some(a)),
                Err(e) => Err(e),
            },
            Err(e) => Err(e),
        },
{
}

/// Element-wise conversion: success keeps the length and converts each
/// element in place; failure names the first element that fails, with its
/// cause, and every element before it converts.
pub proof fn lemma_lift_seq<X, Y>(s: Seq<X>, f: spec_fn(X) -> Result<Y, ConversionError>)
    requires
        s.len() <= usize::MAX,
    ensures
        (forall|i: int| 0 <= i < s.len() ==> (#[trigger] f(s[i])) is Ok) <==> lift_seq(s, f) is Ok,
        lift_seq(s, f) matches Ok(ys) ==> ys.len() == s.len() && forall|i: int|
            0 <= i < s.len() ==> f(s[i]) == Ok::<Y, ConversionError>(#[trigger] ys[i]),
        lift_seq(s, f) matches Err(e) ==> e.index < s.len() && f(s[e.index as int]) == Err::<
            Y,
            ConversionError,
        >(e.cause) && forall|j: int| 0 <= j < e.index ==> (#[trigger] f(s[j])) is Ok,
    decreases s.len(),
{
    if s.len() > 0 {
        let p = s.drop_last();
        lemma_lift_seq(p, f);
        assert forall|i: int| 0 <= i < p.len() implies p[i] == s[i] by {}
        match lift_seq(p, f) {
            Ok(ys) => {
                match f(s.last()) {
                    Ok(y) => {
                        let zs = ys.push(y);
                        assert forall|i: int| 0 <= i < s.len() implies f(s[i]) == Ok::<
                            Y,
                            ConversionError,
                        >(#[trigger] zs[i]) by {
                            if i < p.len() {
                                assert(f(p[i]) == Ok::<Y, ConversionError>(ys[i]));
                            }
                        }
                    },
                    Err(c) => {
                        assert forall|j: int| 0 <= j < s.len() - 1 implies (#[trigger] f(s[j])) is Ok by {
                            assert(f(p[j]) is Ok);
                        }
                    },
                }
            },
            Err(e) => {
                assert forall|j: int| 0 <= j < e.index implies (#[trigger] f(s[j])) is Ok by {
                    assert(f(p[j]) is Ok);
                }
                assert(f(p[e.index as int]) is Err);
            },
        }
    }
}

/// Encoding `a` succeeds and decoding its encoding gives `b`.
pub open spec fn comes_back_as<A: View, W: View, S: ConversionStrategy<A, W>>(a: A::V, b: A::V) -> bool {
    S::encode_spec(a) is Ok && S::decode_spec(S::encode_spec(a)->Ok_0) == Ok::<A::V, ConversionError>(b)
}

/// Under the sequence form of any strategy, a successful encoding and
/// decoding keeps the length and the order, each element coming back as the
/// strategy's own decoding of its own encoding; a failure at index `k`
/// reports index `k`, every element before it converts, and no sequence
/// is produced.
pub proof fn lemma_seq_round_trip<A: View, W: View, S: ConversionStrategy<A, W>>(v: Seq<A::V>)
    requires
        v.len() <= usize::MAX,
    ensures
        lift_seq(v, encoder::<A, W, S>()) is Ok && lift_seq(
            lift_seq(v, encoder::<A, W, S>())->Ok_0,
            decoder::<A, W, S>(),
        ) is Ok ==> ({
            let back = lift_seq(lift_seq(v, encoder::<A, W, S>())->Ok_0, decoder::<A, W, S>())->Ok_0;
            back.len() == v.len() && forall|i: int|
                0 <= i < v.len() ==> comes_back_as::<A, W, S>(v[i], #[trigger] back[i])
        }),
        lift_seq(v, encoder::<A, W, S>()) matches Err(e) ==> e.index < v.len() && S::encode_spec(
            v[e.index as int],
        ) == Err::<W::V, ConversionError>(e.cause) && forall|j: int|
            0 <= j < e.index ==> (#[trigger] S::encode_spec(v[j])) is Ok,
{
    let enc = encoder::<A, W, S>();
    let dec = decoder::<A, W, S>();
    lemma_lift_seq(v, enc);
    if let Ok(ws) = lift_seq(v, enc) {
        lemma_lift_seq(ws, dec);
        if let Ok(back) = lift_seq(ws, dec) {
            assert(ws.len() == v.len());
            assert(back.len() == ws.len());
            assert forall|i: int| 0 <= i < v.len() implies comes_back_as::<A, W, S>(
                v[i],
                #[trigger] back[i],
            ) by {
                assert(enc(v[i]) == Ok::<W::V, ConversionError>(ws[i]));
                assert(dec(ws[i]) == Ok::<A::V, ConversionError>(back[i]));
            }
        }
    }
    if let Err(e) = lift_seq(v, enc) {
        assert forall|j: int| 0 <= j < e.index implies (#[trigger] S::encode_spec(v[j])) is Ok by {
            assert(enc(v[j]) is Ok);
        }
    }
}

} // verus!
