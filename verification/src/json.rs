//! A structured dynamic value, the common source and target of every
//! encoder and decoder in this crate, together with the decode error
//! taxonomy and the field-access helpers the decoders share.

use vstd::prelude::*;

verus! {

/// A JSON-like structured value.
///
/// Objects keep their entries in insertion order; a lookup returns the
/// first entry with the requested key, and entries with other keys are
/// ignored by every decoder (unknown-field tolerance).
#[derive(Debug, PartialEq)]
pub enum Json {
    Null,
    Bool(bool),
    Int(i64),
    Str(String),
    Arr(Vec<Json>),
    Obj(Vec<(String, Json)>),
}

/// The mathematical counterpart of [`Json`], used by every contract.
pub enum JsonV {
    Null,
    Bool(bool),
    Int(int),
    Str(Seq<char>),
    Arr(Seq<JsonV>),
    Obj(Seq<(Seq<char>, JsonV)>),
}

impl DeepView for Json {
    type V = JsonV;

    open spec fn deep_view(&self) -> JsonV
        decreases self,
    {
        match self {
            Json::Null => JsonV::Null,
            Json::Bool(b) => JsonV::Bool(*b),
            Json::Int(i) => JsonV::Int(*i as int),
            Json::Str(s) => JsonV::Str(s@),
            Json::Arr(v) => JsonV::Arr(jv_seq(v@)),
            Json::Obj(v) => JsonV::Obj(jv_entries(v@)),
        }
    }
}

/// The deep view of each element of a sequence of values.
pub open spec fn jv_seq(s: Seq<Json>) -> Seq<JsonV>
    decreases s,
{
    if s.len() == 0 {
        Seq::empty()
    } else {
        jv_seq(s.drop_last()).push(s.last().deep_view())
    }
}

/// The deep view of each entry of a sequence of object entries.
pub open spec fn jv_entries(s: Seq<(String, Json)>) -> Seq<(Seq<char>, JsonV)>
    decreases s,
{
    if s.len() == 0 {
        Seq::empty()
    } else {
        jv_entries(s.drop_last()).push((s.last().0@, s.last().1.deep_view()))
    }
}

impl View for Json {
    type V = JsonV;

    open spec fn view(&self) -> JsonV {
        self.deep_view()
    }
}

/// `jv_seq` maps the deep view over the sequence, element by element.
pub broadcast proof fn lemma_jv_seq(s: Seq<Json>)
    ensures
        (#[trigger] jv_seq(s)).len() == s.len(),
        forall|i: int| 0 <= i < s.len() ==> jv_seq(s)[i] == s[i].deep_view(),
    decreases s.len(),
{
    if s.len() > 0 {
        lemma_jv_seq(s.drop_last());
        assert(jv_seq(s) == jv_seq(s.drop_last()).push(s.last().deep_view()));
        assert forall|i: int| 0 <= i < s.len() implies jv_seq(s)[i] == s[i].deep_view() by {
            if i < s.len() - 1 {
                assert(s.drop_last()[i] == s[i]);
            } else {
                assert(s.last() == s[i]);
            }
        }
    }
}

/// `jv_entries` maps the deep view over the entries, entry by entry.
pub broadcast proof fn lemma_jv_entries(s: Seq<(String, Json)>)
    ensures
        (#[trigger] jv_entries(s)).len() == s.len(),
        forall|i: int|
            0 <= i < s.len() ==> jv_entries(s)[i] == (s[i].0@, s[i].1.deep_view()),
    decreases s.len(),
{
    if s.len() > 0 {
        lemma_jv_entries(s.drop_last());
        assert(jv_entries(s) == jv_entries(s.drop_last()).push(
            (s.last().0@, s.last().1.deep_view()),
        ));
        assert forall|i: int|
            0 <= i < s.len() implies jv_entries(s)[i] == (s[i].0@, s[i].1.deep_view()) by {
            if i < s.len() - 1 {
                assert(s.drop_last()[i] == s[i]);
            } else {
                assert(s.last() == s[i]);
            }
        }
    }
}

/// `Json::Arr(v)` viewed deeply is the deep view of `v`, element by element.
pub broadcast proof fn lemma_deep_view_arr(v: Vec<Json>)
    ensures
        (#[trigger] Json::Arr(v).deep_view()) == JsonV::Arr(v.deep_view()),
{
    lemma_jv_seq(v@);
    assert(jv_seq(v@) =~= v.deep_view());
}

/// `Json::Obj(v)` viewed deeply is the deep view of `v`, entry by entry.
pub broadcast proof fn lemma_deep_view_obj(v: Vec<(String, Json)>)
    ensures
        (#[trigger] Json::Obj(v).deep_view()) == JsonV::Obj(v.deep_view()),
{
    lemma_jv_entries(v@);
    assert(jv_entries(v@) =~= v.deep_view());
}

/// Why a decode failed.
#[derive(Debug, PartialEq)]
pub enum DecodeError {
    /// The input, or a part that had to be an object, is not an object.
    NotAnObject,
    /// The discriminator value is outside the union's tag set; the raw
    /// string is kept for diagnosis.
    UnknownVariant(String),
    /// A required field is absent; the field's wire name is kept.
    MissingField(String),
    /// A field is present but has the wrong shape; the field's wire name
    /// is kept.
    TypeMismatch(String),
    /// Decoding the payload of the named variant failed; the inner error
    /// is kept.
    Payload(String, Box<DecodeError>),
}

/// The mathematical counterpart of [`DecodeError`].
pub enum ErrV {
    NotAnObject,
    UnknownVariant(Seq<char>),
    MissingField(Seq<char>),
    TypeMismatch(Seq<char>),
    Payload(Seq<char>, Box<ErrV>),
}

impl DeepView for DecodeError {
    type V = ErrV;

    open spec fn deep_view(&self) -> ErrV
        decreases self,
    {
        match self {
            DecodeError::NotAnObject => ErrV::NotAnObject,
            DecodeError::UnknownVariant(s) => ErrV::UnknownVariant(s@),
            DecodeError::MissingField(s) => ErrV::MissingField(s@),
            DecodeError::TypeMismatch(s) => ErrV::TypeMismatch(s@),
            DecodeError::Payload(v, e) => ErrV::Payload(v@, Box::new((**e).deep_view())),
        }
    }
}

impl View for DecodeError {
    type V = ErrV;

    open spec fn view(&self) -> ErrV {
        self.deep_view()
    }
}

/// The deep view of a `Result`, for stating decoder contracts.
pub open spec fn res_view<T: DeepView, E: DeepView>(r: Result<T, E>) -> Result<T::V, E::V> {
    match r {
        Ok(t) => Ok(t.deep_view()),
        Err(e) => Err(e.deep_view()),
    }
}

/// The first entry of `entries` whose key is `key`, if any.
pub open spec fn lookup(entries: Seq<(Seq<char>, JsonV)>, key: Seq<char>) -> Option<JsonV>
    decreases entries.len(),
{
    if entries.len() == 0 {
        None
    } else if entries[0].0 == key {
        Some(entries[0].1)
    } else {
        lookup(entries.drop_first(), key)
    }
}

/// Appending an entry changes a lookup only for its own key, and only
/// when the key was absent before.
pub broadcast proof fn lemma_lookup_push(
    entries: Seq<(Seq<char>, JsonV)>,
    k: Seq<char>,
    v: JsonV,
    key: Seq<char>,
)
    ensures
        #[trigger] lookup(entries.push((k, v)), key) == if lookup(entries, key) is Some {
            lookup(entries, key)
        } else if key == k {
            Some(v)
        } else {
            None::<JsonV>
        },
    decreases entries.len(),
{
    if entries.len() == 0 {
        assert(entries.push((k, v)).drop_first() =~= entries);
    } else {
        assert(entries.push((k, v)).drop_first() =~= entries.drop_first().push((k, v)));
        lemma_lookup_push(entries.drop_first(), k, v, key);
    }
}

/// A lookup on the empty entry list finds nothing.
pub broadcast proof fn lemma_lookup_empty(key: Seq<char>)
    ensures
        #[trigger] lookup(Seq::<(Seq<char>, JsonV)>::empty(), key) is None,
{
}

/// If `key` stands at position `i` and at no earlier position, the lookup
/// returns the value at `i`.
pub proof fn lemma_lookup_at(entries: Seq<(Seq<char>, JsonV)>, key: Seq<char>, i: int)
    requires
        0 <= i < entries.len(),
        entries[i].0 == key,
        forall|j: int| 0 <= j < i ==> entries[j].0 != key,
    ensures
        lookup(entries, key) == Some(entries[i].1),
    decreases i,
{
    if i > 0 {
        lemma_lookup_at(entries.drop_first(), key, i - 1);
    }
}

/// If no entry has `key`, the lookup finds nothing.
pub proof fn lemma_lookup_none(entries: Seq<(Seq<char>, JsonV)>, key: Seq<char>)
    requires
        forall|j: int| 0 <= j < entries.len() ==> entries[j].0 != key,
    ensures
        lookup(entries, key) is None,
    decreases entries.len(),
{
    if entries.len() > 0 {
        lemma_lookup_none(entries.drop_first(), key);
    }
}

/// Appending an object entry appends its view to the entry views.
pub broadcast proof fn lemma_jv_entries_push(s: Seq<(String, Json)>, x: (String, Json))
    ensures
        #[trigger] jv_entries(s.push(x)) == jv_entries(s).push((x.0@, x.1.deep_view())),
{
    assert(s.push(x).drop_last() =~= s);
}

/// Appending an array element appends its view to the element views.
pub broadcast proof fn lemma_jv_seq_push(s: Seq<Json>, x: Json)
    ensures
        #[trigger] jv_seq(s.push(x)) == jv_seq(s).push(x.deep_view()),
{
    assert(s.push(x).drop_last() =~= s);
}

/// Object entries extended by one field.
pub open spec fn put(o: Seq<(Seq<char>, JsonV)>, k: Seq<char>, v: JsonV) -> Seq<
    (Seq<char>, JsonV),
> {
    o.push((k, v))
}

/// Object entries extended by one field when it is set, unchanged when not:
/// an unset optional field is elided from the wire form.
pub open spec fn put_opt(o: Seq<(Seq<char>, JsonV)>, k: Seq<char>, v: Option<JsonV>) -> Seq<
    (Seq<char>, JsonV),
> {
    match v {
        Some(x) => o.push((k, x)),
        None => o,
    }
}

/// An optional string as an optional wire value.
pub open spec fn opt_str_json(s: Option<Seq<char>>) -> Option<JsonV> {
    match s {
        Some(x) => Some(JsonV::Str(x)),
        None => None,
    }
}

/// Append the field `key` with value `val` to the object entries.
pub fn put_field(o: &mut Vec<(String, Json)>, key: &str, val: Json)
    ensures
        jv_entries(final(o)@) == put(jv_entries(old(o)@), key@, val.deep_view()),
{
    let ghost o0 = o@;
    let entry = (key.to_owned(), val);
    let ghost e0 = entry;
    o.push(entry);
    proof {
        lemma_jv_entries_push(o0, e0);
    }
}

/// Whether two strings hold the same characters.
pub fn str_eq(a: &str, b: &str) -> (r: bool)
    ensures
        r == (a@ == b@),
{
    let x: String = a.to_owned();
    let y: String = b.to_owned();
    x == y
}

/// The first entry of `entries` whose key is `key`, if any.
pub fn lookup_field<'a>(entries: &'a Vec<(String, Json)>, key: &str) -> (r: Option<&'a Json>)
    ensures
        match r {
            Some(j) => lookup(jv_entries(entries@), key@) == Some(j.deep_view()),
            None => lookup(jv_entries(entries@), key@) is None,
        },
{
    let ghost all = jv_entries(entries@);
    proof {
        lemma_jv_entries(entries@);
    }
    let mut i: usize = 0;
    while i < entries.len()
        invariant
            0 <= i <= entries@.len(),
            all == jv_entries(entries@),
            all.len() == entries@.len(),
            forall|j: int| 0 <= j < all.len() ==> all[j] == (entries@[j].0@, entries@[j].1.deep_view()),
            forall|j: int| 0 <= j < i ==> all[j].0 != key@,
        decreases entries@.len() - i,
    {
        if str_eq(entries[i].0.as_str(), key) {
            proof {
                lemma_lookup_at(all, key@, i as int);
            }
            return Some(&entries[i].1);
        }
        i += 1;
    }
    proof {
        lemma_lookup_none(all, key@);
    }
    None
}

/// The required field `k` as a string: absent is a missing-field error,
/// another shape a type mismatch.
pub open spec fn spec_req_str(o: Seq<(Seq<char>, JsonV)>, k: Seq<char>) -> Result<Seq<char>, ErrV> {
    match lookup(o, k) {
        Some(JsonV::Str(s)) => Ok(s),
        Some(_) => Err(ErrV::TypeMismatch(k)),
        None => Err(ErrV::MissingField(k)),
    }
}

/// Read a required string field.
pub fn req_str(entries: &Vec<(String, Json)>, key: &str) -> (r: Result<String, DecodeError>)
    ensures
        res_view(r) == spec_req_str(jv_entries(entries@), key@),
{
    match lookup_field(entries, key) {
        Some(Json::Str(s)) => Ok(s.clone()),
        Some(_) => Err(DecodeError::TypeMismatch(key.to_owned())),
        None => Err(DecodeError::MissingField(key.to_owned())),
    }
}

/// The optional field `k` as a string: absent is `None`, another shape a
/// type mismatch.
pub open spec fn spec_opt_str(o: Seq<(Seq<char>, JsonV)>, k: Seq<char>) -> Result<Option<Seq<char>>, ErrV> {
    match lookup(o, k) {
        Some(JsonV::Str(s)) => Ok(Some(s)),
        Some(_) => Err(ErrV::TypeMismatch(k)),
        None => Ok(None),
    }
}

/// Read an optional string field.
pub fn opt_str(entries: &Vec<(String, Json)>, key: &str) -> (r: Result<Option<String>, DecodeError>)
    ensures
        res_view(r) == spec_opt_str(jv_entries(entries@), key@),
{
    match lookup_field(entries, key) {
        Some(Json::Str(s)) => Ok(Some(s.clone())),
        Some(_) => Err(DecodeError::TypeMismatch(key.to_owned())),
        None => Ok(None),
    }
}

/// The field `k` as a boolean that defaults to `d` when absent.
pub open spec fn spec_bool_or(o: Seq<(Seq<char>, JsonV)>, k: Seq<char>, d: bool) -> Result<bool, ErrV> {
    match lookup(o, k) {
        Some(JsonV::Bool(b)) => Ok(b),
        Some(_) => Err(ErrV::TypeMismatch(k)),
        None => Ok(d),
    }
}

/// Read a boolean field that defaults to `d` when absent.
pub fn bool_or(entries: &Vec<(String, Json)>, key: &str, d: bool) -> (r: Result<bool, DecodeError>)
    ensures
        res_view(r) == spec_bool_or(jv_entries(entries@), key@, d),
{
    match lookup_field(entries, key) {
        Some(Json::Bool(b)) => Ok(*b),
        Some(_) => Err(DecodeError::TypeMismatch(key.to_owned())),
        None => Ok(d),
    }
}

/// The required field `k` as an integer in `u32` range.
pub open spec fn spec_req_u32(o: Seq<(Seq<char>, JsonV)>, k: Seq<char>) -> Result<u32, ErrV> {
    match lookup(o, k) {
        Some(JsonV::Int(i)) => if 0 <= i <= u32::MAX {
            Ok(i as u32)
        } else {
            Err(ErrV::TypeMismatch(k))
        },
        Some(_) => Err(ErrV::TypeMismatch(k)),
        None => Err(ErrV::MissingField(k)),
    }
}

/// Read a required integer field in `u32` range.
pub fn req_u32(entries: &Vec<(String, Json)>, key: &str) -> (r: Result<u32, DecodeError>)
    ensures
        res_view(r) == spec_req_u32(jv_entries(entries@), key@),
{
    match lookup_field(entries, key) {
        Some(Json::Int(i)) => {
            let iv: i64 = *i;
            if 0 <= iv && iv <= u32::MAX as i64 {
                Ok(iv as u32)
            } else {
                Err(DecodeError::TypeMismatch(key.to_owned()))
            }
        },
        Some(_) => Err(DecodeError::TypeMismatch(key.to_owned())),
        None => Err(DecodeError::MissingField(key.to_owned())),
    }
}

/// The required field `k`, whatever its shape.
pub open spec fn spec_req_field(o: Seq<(Seq<char>, JsonV)>, k: Seq<char>) -> Result<JsonV, ErrV> {
    match lookup(o, k) {
        Some(j) => Ok(j),
        None => Err(ErrV::MissingField(k)),
    }
}

/// Read a required field of any shape, as an owned value.
pub fn req_field(entries: &Vec<(String, Json)>, key: &str) -> (r: Result<Json, DecodeError>)
    ensures
        res_view(r) == spec_req_field(jv_entries(entries@), key@),
{
    match lookup_field(entries, key) {
        Some(j) => Ok(j.duplicate()),
        None => Err(DecodeError::MissingField(key.to_owned())),
    }
}

impl Json {
    /// An owned value with the same structure.
    #[verifier::loop_isolation(false)]
    pub fn duplicate(&self) -> (r: Json)
        ensures
            r.deep_view() == self.deep_view(),
        decreases self,
    {
        match self {
            Json::Null => Json::Null,
            Json::Bool(b) => Json::Bool(*b),
            Json::Int(i) => Json::Int(*i),
            Json::Str(s) => Json::Str(s.clone()),
            Json::Arr(v) => {
                let mut out: Vec<Json> = Vec::new();
                let mut i: usize = 0;
                while i < v.len()
                    invariant
                        0 <= i <= v@.len(),
                        out@.len() == i,
                        forall|j: int|
                            0 <= j < i ==> out@[j].deep_view() == v@[j].deep_view(),
                    decreases v@.len() - i,
                {
                    out.push(v[i].duplicate());
                    i += 1;
                }
                proof {
                    lemma_jv_seq(out@);
                    lemma_jv_seq(v@);
                    assert(jv_seq(out@) =~= jv_seq(v@));
                }
                Json::Arr(out)
            },
            Json::Obj(v) => {
                let mut out: Vec<(String, Json)> = Vec::new();
                let mut i: usize = 0;
                while i < v.len()
                    invariant
                        0 <= i <= v@.len(),
                        out@.len() == i,
                        forall|j: int|
                            0 <= j < i ==> out@[j].0@ == v@[j].0@ && out@[j].1.deep_view()
                                == v@[j].1.deep_view(),
                    decreases v@.len() - i,
                {
                    out.push((v[i].0.clone(), v[i].1.duplicate()));
                    i += 1;
                }
                proof {
                    lemma_jv_entries(out@);
                    lemma_jv_entries(v@);
                    assert(jv_entries(out@) =~= jv_entries(v@));
                }
                Json::Obj(out)
            },
        }
    }
}

} // verus!
