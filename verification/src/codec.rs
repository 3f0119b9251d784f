//! The schema-element interface: a type that encodes to and decodes from
//! one wire shape, together with the shared encoder and decoder for arrays
//! of such elements.

use vstd::prelude::*;

use crate::json::{jv_seq, lemma_jv_seq, res_view, DecodeError, ErrV, Json, JsonV};

verus! {

/// One schema element: its wire form, its decode, and the round-trip law
/// tying the two together.
pub trait JsonCodec: DeepView + Sized {
    /// The wire form of a value.
    spec fn spec_enc(v: Self::V) -> JsonV;

    /// The decode of a wire value.
    spec fn spec_dec(j: JsonV) -> Result<Self::V, ErrV>;

    /// Encode to the wire form.
    fn enc(&self) -> (r: Json)
        ensures
            r.deep_view() == Self::spec_enc(self.deep_view()),
    ;

    /// Decode from a wire value.
    fn dec(j: &Json) -> (r: Result<Self, DecodeError>)
        ensures
            res_view(r) == Self::spec_dec(j.deep_view()),
    ;

    /// Every value survives the round trip through its wire form.
    proof fn lemma_round_trip(v: Self::V)
        ensures
            Self::spec_dec(Self::spec_enc(v)) == Ok::<Self::V, ErrV>(v),
    ;
}

/// The wire form of a sequence of elements, in order.
pub open spec fn spec_encode_list<T: JsonCodec>(s: Seq<T::V>) -> Seq<JsonV>
    decreases s.len(),
{
    if s.len() == 0 {
        Seq::empty()
    } else {
        seq![T::spec_enc(s.first())] + spec_encode_list::<T>(s.drop_first())
    }
}

/// The decode of a sequence of wire values: the first failing element's
/// error, or all elements in order.
pub open spec fn spec_decode_list<T: JsonCodec>(s: Seq<JsonV>) -> Result<Seq<T::V>, ErrV>
    decreases s.len(),
{
    if s.len() == 0 {
        Ok(Seq::empty())
    } else {
        match T::spec_dec(s.first()) {
            Err(e) => Err(e),
            Ok(x) => match spec_decode_list::<T>(s.drop_first()) {
                Err(e) => Err(e),
                Ok(rest) => Ok(seq![x] + rest),
            },
        }
    }
}

/// A sequence of elements survives the round trip through its wire form.
pub proof fn lemma_list_round_trip<T: JsonCodec>(s: Seq<T::V>)
    ensures
        spec_decode_list::<T>(spec_encode_list::<T>(s)) == Ok::<Seq<T::V>, ErrV>(s),
    decreases s.len(),
{
    if s.len() == 0 {
        assert(s =~= Seq::<T::V>::empty());
    } else {
        let e = spec_encode_list::<T>(s);
        assert(e.first() == T::spec_enc(s.first()));
        assert(e.drop_first() =~= spec_encode_list::<T>(s.drop_first()));
        T::lemma_round_trip(s.first());
        lemma_list_round_trip::<T>(s.drop_first());
        assert(T::spec_dec(e.first()) == Ok::<T::V, ErrV>(s.first()));
        assert(spec_decode_list::<T>(e.drop_first()) == Ok::<Seq<T::V>, ErrV>(s.drop_first()));
        assert(spec_decode_list::<T>(e) == Ok::<Seq<T::V>, ErrV>(seq![s.first()] + s.drop_first()));
        assert(seq![s.first()] + s.drop_first() =~= s);
    }
}

/// Encode the elements of `v` from position `i` on.
fn encode_list_from<T: JsonCodec>(v: &Vec<T>, i: usize) -> (r: Vec<Json>)
    requires
        i <= v@.len(),
    ensures
        jv_seq(r@) == spec_encode_list::<T>(v.deep_view().skip(i as int)),
    decreases v@.len() - i,
{
    if i == v.len() {
        let r: Vec<Json> = Vec::new();
        proof {
            assert(v.deep_view().skip(i as int) =~= Seq::<T::V>::empty());
            assert(jv_seq(r@) =~= Seq::<JsonV>::empty());
        }
        r
    } else {
        let x = v[i].enc();
        let ghost xv = x.deep_view();
        let mut rest = encode_list_from(v, i + 1);
        let ghost rv = rest@;
        rest.insert(0, x);
        proof {
            let s = v.deep_view().skip(i as int);
            assert(s.first() == v.deep_view()[i as int]);
            assert(s.drop_first() =~= v.deep_view().skip(i as int + 1));
            lemma_jv_seq(rest@);
            lemma_jv_seq(rv);
            assert(rest@ =~= seq![x] + rv);
            assert(jv_seq(rest@) =~= seq![xv] + jv_seq(rv));
        }
        rest
    }
}

/// Encode the elements of `v`, in order.
pub fn encode_list<T: JsonCodec>(v: &Vec<T>) -> (r: Vec<Json>)
    ensures
        jv_seq(r@) == spec_encode_list::<T>(v.deep_view()),
{
    let r = encode_list_from(v, 0);
    proof {
        assert(v.deep_view().skip(0) =~= v.deep_view());
    }
    r
}

/// Decode the elements of `v` from position `i` on.
fn decode_list_from<T: JsonCodec>(v: &Vec<Json>, i: usize) -> (r: Result<Vec<T>, DecodeError>)
    requires
        i <= v@.len(),
    ensures
        res_view(r) == spec_decode_list::<T>(jv_seq(v@).skip(i as int)),
    decreases v@.len() - i,
{
    proof {
        lemma_jv_seq(v@);
    }
    if i == v.len() {
        let r: Vec<T> = Vec::new();
        proof {
            assert(jv_seq(v@).skip(i as int) =~= Seq::<JsonV>::empty());
            assert(r.deep_view() =~= Seq::<T::V>::empty());
        }
        Ok(r)
    } else {
        let ghost s = jv_seq(v@).skip(i as int);
        proof {
            assert(s.first() == v@[i as int].deep_view());
            assert(s.drop_first() =~= jv_seq(v@).skip(i as int + 1));
        }
        let x = match T::dec(&v[i]) {
            Ok(x) => x,
            Err(e) => {
                return Err(e);
            },
        };
        let mut rest = match decode_list_from::<T>(v, i + 1) {
            Ok(r) => r,
            Err(e) => {
                return Err(e);
            },
        };
        let ghost rv = rest.deep_view();
        let ghost xv = x.deep_view();
        rest.insert(0, x);
        proof {
            assert(rest@ =~= seq![rest@[0]] + rest@.drop_first());
            assert(rest.deep_view() =~= seq![xv] + rv);
        }
        Ok(rest)
    }
}

/// Decode the elements of `v`, in order.
pub fn decode_list<T: JsonCodec>(v: &Vec<Json>) -> (r: Result<Vec<T>, DecodeError>)
    ensures
        res_view(r) == spec_decode_list::<T>(jv_seq(v@)),
{
    let r = decode_list_from::<T>(v, 0);
    proof {
        assert(jv_seq(v@).skip(0) =~= jv_seq(v@));
    }
    r
}

} // verus!
