//! Conversions between token values and the messages of the serialized format.
//!
//! Each conversion from a token value to a message is described by a relation
//! `*_encoded(message, model)`, and each conversion from a message to a token
//! value by a function `*_decoded(message)` that gives the model of the value,
//! or the error, that comes out. The laws state that decoding an encoded value
//! gives the value back.
use crate::crypto::{
    group_order, le_value, point_encoding, ristretto_decompresses, ristretto_point_encoding, scalar_encoding,
    scalar_from_canonical_bytes, TokenSignature, TokenSignatureModel,
};
use crate::datalog::{
    distinct_views, lemma_views_push, view_set, views, Caveat, Fact,
    PredicateModel, Rule, RuleModel, SymbolTable,
};
use crate::error::{deserialization, result_view, Format, FormatModel};
use crate::format::schema;
use crate::token::{opt_string_view, Block, BlockModel, MAX_SCHEMA_VERSION};
use vstd::string::StringExecFns;
use std::collections::HashSet;
use std::hash::Hash;
use vstd::prelude::*;
use vstd::std_specs::iter::IteratorSpec;

pub mod v0;
pub mod v1;

verus! {

broadcast use vstd::seq_lib::group_seq_properties, vstd::seq::Seq::lemma_push_to_set_commute;

// ---------------------------------------------------------------------------
// Sequences of conversions
// ---------------------------------------------------------------------------

/// Decodes the elements of `s` in order; the first error stops the decoding.
pub open spec fn decode_seq<A, B>(s: Seq<A>, f: spec_fn(A) -> Result<B, FormatModel>) -> Result<
    Seq<B>,
    FormatModel,
>
    decreases s.len(),
{
    if s.len() == 0 {
        Ok(Seq::empty())
    } else {
        match decode_seq(s.drop_last(), f) {
            Err(e) => Err(e),
            Ok(prefix) => match f(s.last()) {
                Err(e) => Err(e),
                Ok(b) => Ok(prefix.push(b)),
            },
        }
    }
}

/// Decoding one more element of a prefix.
pub proof fn lemma_decode_seq_step<A, B>(
    s: Seq<A>,
    f: spec_fn(A) -> Result<B, FormatModel>,
    i: int,
)
    requires
        0 <= i < s.len(),
    ensures
        decode_seq(s.take(i + 1), f) == match decode_seq(s.take(i), f) {
            Err(e) => Err(e),
            Ok(prefix) => match f(s[i]) {
                Err(e) => Err(e),
                Ok(b) => Ok(prefix.push(b)),
            },
        },
{
    assert(s.take(i + 1).drop_last() =~= s.take(i));
}

/// Once a prefix fails to decode, every longer prefix fails with the same error.
pub proof fn lemma_decode_seq_error_stays<A, B>(
    s: Seq<A>,
    f: spec_fn(A) -> Result<B, FormatModel>,
    i: int,
    j: int,
)
    requires
        0 <= i <= j <= s.len(),
        decode_seq(s.take(i), f) is Err,
    ensures
        decode_seq(s.take(j), f) == decode_seq(s.take(i), f),
    decreases j - i,
{
    if j > i {
        lemma_decode_seq_error_stays(s, f, i, j - 1);
        lemma_decode_seq_step(s, f, j - 1);
    }
}

/// A sequence that decodes is as long as its decoding, and each element
/// decodes to the element at its place.
pub proof fn lemma_decode_seq_ok<A, B>(
    s: Seq<A>,
    f: spec_fn(A) -> Result<B, FormatModel>,
    ts: Seq<B>,
)
    requires
        decode_seq(s, f) == Ok::<Seq<B>, FormatModel>(ts),
    ensures
        ts.len() == s.len(),
        forall|i: int| 0 <= i < s.len() ==> f(#[trigger] s[i]) == Ok::<B, FormatModel>(ts[i]),
    decreases s.len(),
{
    if s.len() > 0 {
        let prefix = decode_seq(s.drop_last(), f)->Ok_0;
        lemma_decode_seq_ok(s.drop_last(), f, prefix);
        assert forall|i: int| 0 <= i < s.len() implies f(#[trigger] s[i]) == Ok::<B, FormatModel>(
            ts[i],
        ) by {
            if i < s.len() - 1 {
                assert(s.drop_last()[i] == s[i]);
            }
        }
    }
}

/// A sequence that fails to decode holds an element that fails with that
/// error, and every element before it decodes.
pub proof fn lemma_decode_seq_err<A, B>(
    s: Seq<A>,
    f: spec_fn(A) -> Result<B, FormatModel>,
    e: FormatModel,
)
    requires
        decode_seq(s, f) == Err::<Seq<B>, FormatModel>(e),
    ensures
        exists|i: int|
            #![trigger s[i]]
            0 <= i < s.len() && f(s[i]) == Err::<B, FormatModel>(e) && forall|j: int|
                0 <= j < i ==> (#[trigger] f(s[j])) is Ok,
    decreases s.len(),
{
    let prefix = decode_seq(s.drop_last(), f);
    if prefix is Err {
        lemma_decode_seq_err(s.drop_last(), f, e);
        let i = choose|i: int|
            #![trigger s.drop_last()[i]]
            0 <= i < s.drop_last().len() && f(s.drop_last()[i]) == Err::<B, FormatModel>(e)
                && forall|j: int| 0 <= j < i ==> (#[trigger] f(s.drop_last()[j])) is Ok;
        assert(s.drop_last()[i] == s[i]);
        assert forall|j: int| 0 <= j < i implies (#[trigger] f(s[j])) is Ok by {
            assert(s.drop_last()[j] == s[j]);
        }
    } else {
        lemma_decode_seq_ok(s.drop_last(), f, prefix->Ok_0);
        let i = s.len() - 1;
        assert forall|j: int| 0 <= j < i implies (#[trigger] f(s[j])) is Ok by {
            assert(s.drop_last()[j] == s[j]);
        }
        assert(f(s[i]) == Err::<B, FormatModel>(e));
    }
}

/// What decoding a sequence gives, element by element: on success each
/// element decodes to the element at its place; a failure is the failure of
/// one of the elements; when every element decodes, so does the sequence.
pub proof fn lemma_decode_seq_elementwise<A, B>(s: Seq<A>, f: spec_fn(A) -> Result<B, FormatModel>)
    ensures
        decode_seq(s, f) matches Ok(ts) ==> ts.len() == s.len() && forall|i: int|
            0 <= i < s.len() ==> f(#[trigger] s[i]) == Ok::<B, FormatModel>(ts[i]),
        decode_seq(s, f) matches Err(e) ==> exists|i: int|
            0 <= i < s.len() && f(#[trigger] s[i]) == Err::<B, FormatModel>(e),
        (forall|i: int| 0 <= i < s.len() ==> (#[trigger] f(s[i])) is Ok) ==> decode_seq(s, f) is Ok,
{
    match decode_seq(s, f) {
        Ok(ts) => lemma_decode_seq_ok(s, f, ts),
        Err(e) => lemma_decode_seq_err(s, f, e),
    }
}

/// The error of a sequence is that of its first element that fails.
pub proof fn lemma_decode_seq_first_error<A, B>(
    s: Seq<A>,
    f: spec_fn(A) -> Result<B, FormatModel>,
    i: int,
)
    requires
        0 <= i < s.len(),
        f(s[i]) is Err,
        forall|j: int| 0 <= j < i ==> (#[trigger] f(s[j])) is Ok,
    ensures
        decode_seq(s, f) == Err::<Seq<B>, FormatModel>(f(s[i])->Err_0),
{
    let ts = Seq::new(i as nat, |j: int| f(s[j])->Ok_0);
    assert forall|j: int| 0 <= j < s.take(i).len() implies f(#[trigger] s.take(i)[j])
        == Ok::<B, FormatModel>(ts[j]) by {
        assert(s.take(i)[j] == s[j]);
        assert(f(s[j]) is Ok);
    }
    lemma_decode_seq_all(s.take(i), ts, f);
    lemma_decode_seq_step(s, f, i);
    lemma_decode_seq_error_stays(s, f, i + 1, s.len() as int);
    assert(s.take(s.len() as int) =~= s);
}

/// A sequence decodes element by element when every element decodes.
pub proof fn lemma_decode_seq_all<A, B>(
    s: Seq<A>,
    ts: Seq<B>,
    f: spec_fn(A) -> Result<B, FormatModel>,
)
    requires
        s.len() == ts.len(),
        forall|i: int| 0 <= i < s.len() ==> f(#[trigger] s[i]) == Ok::<B, FormatModel>(ts[i]),
    ensures
        decode_seq(s, f) == Ok::<Seq<B>, FormatModel>(ts),
    decreases s.len(),
{
    if s.len() > 0 {
        assert forall|i: int| 0 <= i < s.drop_last().len() implies f(
            #[trigger] s.drop_last()[i],
        ) == Ok::<B, FormatModel>(ts.drop_last()[i]) by {
            assert(s.drop_last()[i] == s[i]);
        }
        lemma_decode_seq_all(s.drop_last(), ts.drop_last(), f);
        assert(f(s[s.len() - 1]) == Ok::<B, FormatModel>(ts[ts.len() - 1]));
        assert(ts.drop_last().push(ts.last()) =~= ts);
    }
}

/// The elements of `ps` encode the elements of `ts`, one for one.
pub open spec fn encodes_all<P, T>(ps: Seq<P>, ts: Seq<T>, rel: spec_fn(P, T) -> bool) -> bool {
    &&& ps.len() == ts.len()
    &&& forall|i: int| 0 <= i < ps.len() ==> #[trigger] rel(ps[i], ts[i])
}

/// Decoding a sequence of encodings gives back the encoded values, when that
/// holds of each element.
pub proof fn lemma_decode_encoded_seq<P, T>(
    ps: Seq<P>,
    ts: Seq<T>,
    rel: spec_fn(P, T) -> bool,
    f: spec_fn(P) -> Result<T, FormatModel>,
)
    requires
        encodes_all(ps, ts, rel),
        forall|p: P, t: T| #[trigger] rel(p, t) ==> f(p) == Ok::<T, FormatModel>(t),
    ensures
        decode_seq(ps, f) == Ok::<Seq<T>, FormatModel>(ts),
{
    assert forall|i: int| 0 <= i < ps.len() implies f(#[trigger] ps[i]) == Ok::<T, FormatModel>(ts[i]) by {
        assert(rel(ps[i], ts[i]));
    }
    lemma_decode_seq_all(ps, ts, f);
}

/// The model of the outcome of converting a list.
pub open spec fn results_view<T: View>(r: Result<Vec<T>, Format>) -> Result<Seq<T::V>, FormatModel> {
    match r {
        Ok(v) => Ok(views(v@)),
        Err(e) => Err(e@),
    }
}

/// Converts each element of a list with `f`, in order, and stops at the first
/// error. `decoder` is what `f` computes, and `inv` holds of what it returns.
pub(crate) fn decode_vec<A, B: View, F: Fn(&A) -> Result<B, Format>>(
    items: &Vec<A>,
    f: F,
    decoder: Ghost<spec_fn(A) -> Result<B::V, FormatModel>>,
    inv: Ghost<spec_fn(B) -> bool>,
) -> (res: Result<Vec<B>, Format>)
    requires
        forall|a: &A| #[trigger] f.requires((a,)),
        forall|a: &A, r: Result<B, Format>|
            #[trigger] f.ensures((a,), r) ==> result_view(r) == decoder@(*a) && (r matches Ok(
                b,
            ) ==> inv@(b)),
    ensures
        results_view(res) == decode_seq(items@, decoder@),
        res matches Ok(v) ==> forall|i: int| 0 <= i < v@.len() ==> inv@(#[trigger] v@[i]),
{
    let mut out: Vec<B> = Vec::new();
    let mut i: usize = 0;
    assert(views(out@) =~= Seq::<B::V>::empty());
    assert(items@.take(0).len() == 0);
    while i < items.len()
        invariant
            i <= items@.len(),
            forall|a: &A| #[trigger] f.requires((a,)),
            forall|a: &A, r: Result<B, Format>|
                #[trigger] f.ensures((a,), r) ==> result_view(r) == decoder@(*a) && (r matches Ok(
                    b,
                ) ==> inv@(b)),
            decode_seq(items@.take(i as int), decoder@) == Ok::<Seq<B::V>, FormatModel>(
                views(out@),
            ),
            forall|j: int| 0 <= j < out@.len() ==> inv@(#[trigger] out@[j]),
        decreases items.len() - i,
    {
        proof {
            lemma_decode_seq_step(items@, decoder@, i as int);
        }
        match f(&items[i]) {
            Ok(b) => {
                proof {
                    lemma_views_push(out@, b);
                }
                out.push(b);
            },
            Err(e) => {
                proof {
                    lemma_decode_seq_error_stays(items@, decoder@, i + 1, items@.len() as int);
                    assert(items@.take(items@.len() as int) =~= items@);
                }
                return Err(e);
            },
        }
        i += 1;
    }
    assert(items@.take(i as int) =~= items@);
    Ok(out)
}

/// Converts each element of a list with `f`, in order. `rel` relates what `f`
/// returns to the model of its argument.
pub(crate) fn encode_vec<A: View, P, F: Fn(&A) -> P>(
    items: &Vec<A>,
    f: F,
    rel: Ghost<spec_fn(P, A::V) -> bool>,
) -> (res: Vec<P>)
    requires
        forall|i: int| 0 <= i < items@.len() ==> f.requires((&#[trigger] items@[i],)),
        forall|a: &A, p: P| #[trigger] f.ensures((a,), p) ==> rel@(p, a@),
    ensures
        encodes_all(res@, views(items@), rel@),
{
    let mut out: Vec<P> = Vec::new();
    let mut i: usize = 0;
    while i < items.len()
        invariant
            i <= items@.len(),
            forall|i: int| 0 <= i < items@.len() ==> f.requires((&#[trigger] items@[i],)),
            forall|a: &A, p: P| #[trigger] f.ensures((a,), p) ==> rel@(p, a@),
            out@.len() == i,
            forall|j: int| 0 <= j < i ==> #[trigger] rel@(out@[j], items@[j]@),
        decreases items.len() - i,
    {
        let p = f(&items[i]);
        out.push(p);
        i += 1;
    }
    assert forall|j: int| 0 <= j < out@.len() implies #[trigger] rel@(out@[j], views(items@)[j]) by {
        assert(rel@(out@[j], items@[j]@));
    }
    out
}

// ---------------------------------------------------------------------------
// Sets
// ---------------------------------------------------------------------------

/// `v` lists the elements of `s`, each once.
pub open spec fn lists_set<T>(v: Seq<T>, s: Set<T>) -> bool {
    v.no_duplicates() && v.to_set() == s
}

/// The elements of a hash set, each once, in the order in which the set hands
/// them out.
pub fn hash_set_to_vec<T: Copy>(s: &HashSet<T>) -> (v: Vec<T>)
    requires
        vstd::std_specs::hash::obeys_key_model::<T>(),
    ensures
        lists_set(v@, s@),
{
    let mut v: Vec<T> = Vec::new();
    let iter = s.iter();
    let ghost keys: Seq<T> = iter.remaining().unref();
    for x in it: iter
        invariant
            keys == it.seq().unref(),
            keys.to_set() == s@,
            keys.no_duplicates(),
            v@ == keys.take(it.index() as int),
    {
        v.push(*x);
    }
    assert(v@ =~= keys);
    v
}

/// The hash set of the elements of `v`.
pub fn vec_to_hash_set<T: Copy + Hash + Eq>(v: &Vec<T>) -> (s: HashSet<T>)
    requires
        vstd::std_specs::hash::obeys_key_model::<T>(),
    ensures
        s@ == v@.to_set(),
{
    let mut s: HashSet<T> = HashSet::new();
    let mut i: usize = 0;
    while i < v.len()
        invariant
            i <= v@.len(),
            s@ == v@.take(i as int).to_set(),
            vstd::std_specs::hash::obeys_key_model::<T>(),
        decreases v.len() - i,
    {
        assert(v@.take(i + 1) =~= v@.take(i as int).push(v@[i as int]));
        assert(v@.take(i + 1).to_set() == v@.take(i as int).to_set().insert(v@[i as int]));
        s.insert(v[i]);
        i += 1;
    }
    assert(v@.take(i as int) =~= v@);
    s
}

/// A copy of a byte string.
pub fn copy_bytes(b: &Vec<u8>) -> (res: Vec<u8>)
    ensures
        res@ == b@,
{
    let mut res: Vec<u8> = Vec::new();
    let mut i: usize = 0;
    while i < b.len()
        invariant
            i <= b@.len(),
            res@ == b@.take(i as int),
        decreases b.len() - i,
    {
        res.push(b[i]);
        i += 1;
        assert(res@ =~= b@.take(i as int));
    }
    assert(b@.take(i as int) =~= b@);
    res
}

/// A copy of a list of strings.
pub fn copy_strings(v: &Vec<String>) -> (res: Vec<String>)
    ensures
        views(res@) == views(v@),
{
    let mut res: Vec<String> = Vec::new();
    let mut i: usize = 0;
    while i < v.len()
        invariant
            i <= v@.len(),
            views(res@) == views(v@.take(i as int)),
        decreases v.len() - i,
    {
        proof {
            lemma_views_push(res@, v@[i as int]);
            lemma_views_push(v@.take(i as int), v@[i as int]);
            assert(v@.take(i + 1) =~= v@.take(i as int).push(v@[i as int]));
        }
        res.push(v[i].clone());
        i += 1;
    }
    assert(v@.take(i as int) =~= v@);
    res
}

/// A copy of a list of byte strings.
pub fn copy_byte_strings(v: &Vec<Vec<u8>>) -> (res: Vec<Vec<u8>>)
    ensures
        views(res@) == views(v@),
{
    let mut res: Vec<Vec<u8>> = Vec::new();
    let mut i: usize = 0;
    while i < v.len()
        invariant
            i <= v@.len(),
            views(res@) == views(v@.take(i as int)),
        decreases v.len() - i,
    {
        let b = copy_bytes(&v[i]);
        proof {
            lemma_views_push(res@, b);
            lemma_views_push(v@.take(i as int), v@[i as int]);
            assert(v@.take(i + 1) =~= v@.take(i as int).push(v@[i as int]));
        }
        res.push(b);
        i += 1;
    }
    assert(v@.take(i as int) =~= v@);
    res
}

/// Whether a list of strings holds one equal to `s`.
pub fn contains_string(v: &Vec<String>, s: &String) -> (res: bool)
    ensures
        res == views(v@).contains(s@),
{
    let mut i: usize = 0;
    while i < v.len()
        invariant
            i <= v@.len(),
            forall|j: int| 0 <= j < i ==> (#[trigger] v@[j])@ != s@,
        decreases v.len() - i,
    {
        if v[i] == *s {
            assert(views(v@)[i as int] == s@);
            return true;
        }
        i += 1;
    }
    proof {
        if views(v@).contains(s@) {
            let j: int = choose|j: int| 0 <= j < views(v@).len() && views(v@)[j] == s@;
            assert(v@[j]@ == s@);
        }
    }
    false
}

/// Whether two byte strings are equal.
pub fn bytes_equal(a: &Vec<u8>, b: &Vec<u8>) -> (res: bool)
    ensures
        res == (a@ == b@),
{
    if a.len() != b.len() {
        return false;
    }
    let mut i: usize = 0;
    while i < a.len()
        invariant
            i <= a@.len(),
            a@.len() == b@.len(),
            forall|j: int| 0 <= j < i ==> a@[j] == b@[j],
        decreases a.len() - i,
    {
        if a[i] != b[i] {
            return false;
        }
        i += 1;
    }
    assert(a@ =~= b@);
    true
}

/// Whether a list of byte strings holds one equal to `b`.
pub fn contains_bytes(v: &Vec<Vec<u8>>, b: &Vec<u8>) -> (res: bool)
    ensures
        res == views(v@).contains(b@),
{
    let mut i: usize = 0;
    while i < v.len()
        invariant
            i <= v@.len(),
            forall|j: int| 0 <= j < i ==> (#[trigger] v@[j])@ != b@,
        decreases v.len() - i,
    {
        if bytes_equal(&v[i], b) {
            assert(views(v@)[i as int] == b@);
            return true;
        }
        i += 1;
    }
    proof {
        if views(v@).contains(b@) {
            let j: int = choose|j: int| 0 <= j < views(v@).len() && views(v@)[j] == b@;
            assert(v@[j]@ == b@);
        }
    }
    false
}

/// The strings of `v`, each once, in the order of their first occurrence.
pub fn distinct_strings(v: &Vec<String>) -> (res: Vec<String>)
    ensures
        distinct_views(res@),
        view_set(res@) == view_set(v@),
{
    let mut res: Vec<String> = Vec::new();
    let mut i: usize = 0;
    while i < v.len()
        invariant
            i <= v@.len(),
            distinct_views(res@),
            view_set(res@) == view_set(v@.take(i as int)),
        decreases v.len() - i,
    {
        let ghost before = res@;
        proof {
            lemma_views_push(v@.take(i as int), v@[i as int]);
            assert(v@.take(i + 1) =~= v@.take(i as int).push(v@[i as int]));
        }
        if !contains_string(&res, &v[i]) {
            let s = v[i].clone();
            proof {
                lemma_views_push(res@, s);
            }
            res.push(s);
        } else {
            assert(views(before).to_set().insert(v@[i as int]@) =~= views(before).to_set());
        }
        i += 1;
    }
    assert(v@.take(i as int) =~= v@);
    res
}

/// The byte strings of `v`, each once, in the order of their first occurrence.
pub fn distinct_byte_strings(v: &Vec<Vec<u8>>) -> (res: Vec<Vec<u8>>)
    ensures
        distinct_views(res@),
        view_set(res@) == view_set(v@),
{
    let mut res: Vec<Vec<u8>> = Vec::new();
    let mut i: usize = 0;
    while i < v.len()
        invariant
            i <= v@.len(),
            distinct_views(res@),
            view_set(res@) == view_set(v@.take(i as int)),
        decreases v.len() - i,
    {
        let ghost before = res@;
        proof {
            lemma_views_push(v@.take(i as int), v@[i as int]);
            assert(v@.take(i + 1) =~= v@.take(i as int).push(v@[i as int]));
        }
        if !contains_bytes(&res, &v[i]) {
            let b = copy_bytes(&v[i]);
            proof {
                lemma_views_push(res@, b);
            }
            res.push(b);
        } else {
            assert(views(before).to_set().insert(v@[i as int]@) =~= views(before).to_set());
        }
        i += 1;
    }
    assert(v@.take(i as int) =~= v@);
    res
}

// ---------------------------------------------------------------------------
// Numbers in messages
// ---------------------------------------------------------------------------

/// The character of a decimal digit.
pub open spec fn digit_char(d: nat) -> char {
    (d + 48) as char
}

/// The decimal digits of a number, most significant first, without leading zeros.
pub open spec fn decimal(n: nat) -> Seq<char>
    decreases n,
{
    if n < 10 {
        seq![digit_char(n)]
    } else {
        decimal(n / 10).push(digit_char(n % 10))
    }
}

/// A deserialization error whose text is `prefix`, the decimal digits of `n`,
/// then `suffix`.
fn error_with_number(prefix: &str, n: usize, suffix: &str) -> (res: Format)
    ensures
        res@ == deserialization(prefix@ + decimal(n as nat) + suffix@),
{
    let mut text = prefix.to_string();
    let digits = usize_to_string(n);
    text.append(digits.as_str());
    text.append(suffix);
    Format::DeserializationError(text)
}

/// Calls std's `ToString::to_string` on a `usize`, which writes it in decimal
/// as its `Display` implementation documents; the contract states those digits.
#[verifier::external_body]
fn usize_to_string(n: usize) -> (s: String)
    ensures
        s@ == decimal(n as nat),
{
    n.to_string()
}

// ---------------------------------------------------------------------------
// Signatures
// ---------------------------------------------------------------------------

/// `p` is the encoding of the signature `t`.
pub open spec fn signature_encoded(p: schema::Signature, t: TokenSignatureModel) -> bool {
    views(p.parameters@) == t.parameters && p.z@ == t.z
}

/// The point that the bytes `d` decode to (held as its encoding), or the error.
pub open spec fn parameter_decoded(d: Seq<u8>) -> Result<Seq<u8>, FormatModel> {
    if d.len() == 32 {
        if ristretto_point_encoding(d) {
            Ok(d)
        } else {
            Err(deserialization("deserialization error: cannot decompress parameters point"@))
        }
    } else {
        Err(
            deserialization(
                "deserialization error: invalid size for parameters = "@ + decimal(d.len()) + ""@,
            ),
        )
    }
}

pub open spec fn parameter_decoder() -> spec_fn(Vec<u8>) -> Result<Seq<u8>, FormatModel> {
    |d: Vec<u8>| parameter_decoded(d@)
}

/// The signature that `p` decodes to, or the first error: the parameters are
/// read in order, then `z`.
pub open spec fn signature_decoded(p: schema::Signature) -> Result<TokenSignatureModel, FormatModel> {
    match decode_seq(p.parameters@, parameter_decoder()) {
        Err(e) => Err(e),
        Ok(parameters) => if p.z@.len() == 32 {
            if le_value(p.z@) < group_order() {
                Ok(TokenSignatureModel { parameters, z: p.z@ })
            } else {
                Err(deserialization("deserialization error: non canonical z scalar"@))
            }
        } else {
            Err(
                deserialization(
                    "deserialization error: invalid size for z = "@ + decimal(p.z@.len())
                        + " bytes"@,
                ),
            )
        },
    }
}

pub fn token_sig_to_proto_sig(input: &TokenSignature) -> (res: schema::Signature)
    ensures
        signature_encoded(res, input@),
{
    schema::Signature { parameters: copy_byte_strings(&input.parameters), z: copy_bytes(&input.z) }
}

/// What is made of 32 bytes once the curve library has told whether they
/// decompress to a point: the point, held as its encoding, or the error.
pub fn parameter_from_decompression(data: &Vec<u8>, decompressed: bool) -> (res: Result<
    Vec<u8>,
    Format,
>)
    requires
        data@.len() == 32,
    ensures
        result_view(res) == if decompressed {
            Ok::<Seq<u8>, FormatModel>(data@)
        } else {
            Err::<Seq<u8>, FormatModel>(
                deserialization("deserialization error: cannot decompress parameters point"@),
            )
        },
{
    if decompressed {
        Ok(copy_bytes(data))
    } else {
        Err(
            Format::DeserializationError(
                "deserialization error: cannot decompress parameters point".to_string(),
            ),
        )
    }
}

/// Reads one parameter of a signature: 32 bytes that decompress to a point.
fn proto_parameter_to_point(data: &Vec<u8>) -> (res: Result<Vec<u8>, Format>)
    ensures
        result_view(res) == parameter_decoded(data@),
        res matches Ok(b) ==> point_encoding(b@),
{
    if data.len() == 32 {
        let decompressed = ristretto_decompresses(data.as_slice());
        parameter_from_decompression(data, decompressed)
    } else {
        Err(error_with_number("deserialization error: invalid size for parameters = ", data.len(), ""))
    }
}

pub fn proto_sig_to_token_sig(input: schema::Signature) -> (res: Result<TokenSignature, Format>)
    ensures
        result_view(res) == signature_decoded(input),
        res matches Ok(s) ==> s@.wf(),
{
    let parameters = match decode_vec(
        &input.parameters,
        proto_parameter_to_point,
        Ghost(parameter_decoder()),
        Ghost(|b: Vec<u8>| point_encoding(b@)),
    ) {
        Ok(parameters) => parameters,
        Err(e) => return Err(e),
    };

    if input.z.len() == 32 {
        if scalar_from_canonical_bytes(input.z.as_slice()) {
            Ok(TokenSignature { parameters, z: input.z })
        } else {
            Err(
                Format::DeserializationError(
                    "deserialization error: non canonical z scalar".to_string(),
                ),
            )
        }
    } else {
        Err(error_with_number("deserialization error: invalid size for z = ", input.z.len(), " bytes"))
    }
}

/// Decoding the encoding of a signature whose parameters are points and whose
/// `z` is a canonical scalar gives the signature back.
pub proof fn lemma_signature_roundtrip(p: schema::Signature, t: TokenSignatureModel)
    requires
        signature_encoded(p, t),
        t.wf(),
    ensures
        signature_decoded(p) == Ok::<TokenSignatureModel, FormatModel>(t),
{
    assert forall|i: int| 0 <= i < p.parameters@.len() implies #[trigger] parameter_decoder()(
        p.parameters@[i],
    ) == Ok::<Seq<u8>, FormatModel>(t.parameters[i]) by {
        assert(views(p.parameters@)[i] == p.parameters@[i]@);
        assert(point_encoding(t.parameters[i]));
    }
    lemma_decode_seq_all(p.parameters@, t.parameters, parameter_decoder());
}

// ---------------------------------------------------------------------------
// Blocks
// ---------------------------------------------------------------------------

/// `p` is the encoding of the block `t`: written with the version of `t`, in
/// the fields of schema version 1.
pub open spec fn block_encoded(p: schema::Block, t: BlockModel) -> bool {
    &&& p.index == t.index
    &&& views(p.symbols@) == t.symbols
    &&& p.facts_v0@.len() == 0
    &&& p.rules_v0@.len() == 0
    &&& p.caveats_v0@.len() == 0
    &&& opt_string_view(p.context) == t.context
    &&& p.version == Some(t.version)
    &&& encodes_all(p.facts_v1@, t.facts, v1::fact_encoding())
    &&& encodes_all(p.rules_v1@, t.rules, v1::rule_encoding())
    &&& encodes_all(p.caveats_v1@, t.caveats, v1::caveat_encoding())
}

/// The block made of its decoded parts, or the first error among them.
pub open spec fn assemble_block(
    p: schema::Block,
    facts: Result<Seq<PredicateModel>, FormatModel>,
    rules: Result<Seq<RuleModel>, FormatModel>,
    caveats: Result<Seq<Seq<RuleModel>>, FormatModel>,
    version: u32,
) -> Result<BlockModel, FormatModel> {
    match facts {
        Err(e) => Err(e),
        Ok(facts) => match rules {
            Err(e) => Err(e),
            Ok(rules) => match caveats {
                Err(e) => Err(e),
                Ok(caveats) => Ok(
                    BlockModel {
                        index: p.index,
                        symbols: views(p.symbols@),
                        facts,
                        rules,
                        caveats,
                        context: opt_string_view(p.context),
                        version,
                    },
                ),
            },
        },
    }
}

/// The block that `p` decodes to, or the error. A missing version is 0; a
/// version above the highest known one is refused; version 0 is read from the
/// version 0 fields and any other from the version 1 fields, facts first, then
/// rules, then caveats.
pub open spec fn block_decoded(p: schema::Block) -> Result<BlockModel, FormatModel> {
    let version: u32 = match p.version {
        Some(v) => v,
        None => 0,
    };
    if version > MAX_SCHEMA_VERSION {
        Err(FormatModel::Version { maximum: MAX_SCHEMA_VERSION, actual: version })
    } else if version == 0 {
        assemble_block(
            p,
            decode_seq(p.facts_v0@, v0::fact_decoder()),
            decode_seq(p.rules_v0@, v0::rule_decoder()),
            decode_seq(p.caveats_v0@, v0::caveat_decoder()),
            version,
        )
    } else {
        assemble_block(
            p,
            decode_seq(p.facts_v1@, v1::fact_decoder()),
            decode_seq(p.rules_v1@, v1::rule_decoder()),
            decode_seq(p.caveats_v1@, v1::caveat_decoder()),
            version,
        )
    }
}

/// A copy of an optional string.
fn copy_opt_string(s: &Option<String>) -> (res: Option<String>)
    ensures
        opt_string_view(res) == opt_string_view(*s),
{
    match s {
        Some(s) => Some(s.clone()),
        None => None,
    }
}

pub fn token_block_to_proto_block(input: &Block) -> (res: schema::Block)
    requires
        input.wf(),
    ensures
        block_encoded(res, input@),
{
    schema::Block {
        index: input.index,
        symbols: copy_strings(&input.symbols.symbols),
        facts_v0: Vec::new(),
        rules_v0: Vec::new(),
        caveats_v0: Vec::new(),
        context: copy_opt_string(&input.context),
        version: Some(input.version),
        facts_v1: encode_vec(&input.facts, v1::token_fact_to_proto_fact, Ghost(v1::fact_encoding())),
        rules_v1: encode_vec(&input.rules, v1::token_rule_to_proto_rule, Ghost(v1::rule_encoding())),
        caveats_v1: encode_vec(
            &input.caveats,
            v1::token_caveat_to_proto_caveat,
            Ghost(v1::caveat_encoding()),
        ),
    }
}

pub fn proto_block_to_token_block(input: &schema::Block) -> (res: Result<Block, Format>)
    ensures
        result_view(res) == block_decoded(*input),
        res matches Ok(b) ==> b.wf(),
{
    let version: u32 = match input.version {
        Some(v) => v,
        None => 0,
    };
    if version > MAX_SCHEMA_VERSION {
        return Err(Format::Version { maximum: MAX_SCHEMA_VERSION, actual: version });
    }
    let facts;
    let rules;
    let caveats;
    if version == 0 {
        facts = match decode_vec(
            &input.facts_v0,
            v0::proto_fact_to_token_fact,
            Ghost(v0::fact_decoder()),
            Ghost(|f: Fact| true),
        ) {
            Ok(facts) => facts,
            Err(e) => return Err(e),
        };
        rules = match decode_vec(
            &input.rules_v0,
            v0::proto_rule_to_token_rule,
            Ghost(v0::rule_decoder()),
            Ghost(|r: Rule| r.wf()),
        ) {
            Ok(rules) => rules,
            Err(e) => return Err(e),
        };
        caveats = match decode_vec(
            &input.caveats_v0,
            v0::proto_caveat_to_token_caveat,
            Ghost(v0::caveat_decoder()),
            Ghost(|c: Caveat| c.wf()),
        ) {
            Ok(caveats) => caveats,
            Err(e) => return Err(e),
        };
    } else {
        facts = match decode_vec(
            &input.facts_v1,
            v1::proto_fact_to_token_fact,
            Ghost(v1::fact_decoder()),
            Ghost(|f: Fact| true),
        ) {
            Ok(facts) => facts,
            Err(e) => return Err(e),
        };
        rules = match decode_vec(
            &input.rules_v1,
            v1::proto_rule_to_token_rule,
            Ghost(v1::rule_decoder()),
            Ghost(|r: Rule| r.wf()),
        ) {
            Ok(rules) => rules,
            Err(e) => return Err(e),
        };
        caveats = match decode_vec(
            &input.caveats_v1,
            v1::proto_caveat_to_token_caveat,
            Ghost(v1::caveat_decoder()),
            Ghost(|c: Caveat| c.wf()),
        ) {
            Ok(caveats) => caveats,
            Err(e) => return Err(e),
        };
    }

    let context = copy_opt_string(&input.context);

    Ok(
        Block {
            index: input.index,
            symbols: SymbolTable { symbols: copy_strings(&input.symbols) },
            facts,
            rules,
            caveats,
            context,
            version,
        },
    )
}

/// Decoding the encoding of a block gives the block back, when its version is
/// 1, or when it is 0 and the block holds no fact, rule or caveat (a block is
/// written in the version 1 fields, which version 0 does not read).
pub proof fn lemma_block_roundtrip(p: schema::Block, t: BlockModel)
    requires
        block_encoded(p, t),
        t.version == 1 || (t.version == 0 && t.facts.len() == 0 && t.rules.len() == 0
            && t.caveats.len() == 0),
    ensures
        block_decoded(p) == Ok::<BlockModel, FormatModel>(t),
{
    if t.version == 0 {
        assert(t.facts =~= Seq::<PredicateModel>::empty());
        assert(t.rules =~= Seq::<RuleModel>::empty());
        assert(t.caveats =~= Seq::<Seq<RuleModel>>::empty());
    } else {
        assert forall|q: schema::FactV1, u: PredicateModel| #[trigger]
            v1::fact_encoding()(q, u) implies v1::fact_decoder()(q) == Ok::<
            PredicateModel,
            FormatModel,
        >(u) by {
            v1::lemma_fact_roundtrip(q, u);
        }
        assert forall|q: schema::RuleV1, u: RuleModel| #[trigger]
            v1::rule_encoding()(q, u) implies v1::rule_decoder()(q) == Ok::<RuleModel, FormatModel>(
            u,
        ) by {
            v1::lemma_rule_roundtrip(q, u);
        }
        assert forall|q: schema::CaveatV1, u: Seq<RuleModel>| #[trigger]
            v1::caveat_encoding()(q, u) implies v1::caveat_decoder()(q) == Ok::<
            Seq<RuleModel>,
            FormatModel,
        >(u) by {
            v1::lemma_caveat_roundtrip(q, u);
        }
        lemma_decode_encoded_seq(p.facts_v1@, t.facts, v1::fact_encoding(), v1::fact_decoder());
        lemma_decode_encoded_seq(p.rules_v1@, t.rules, v1::rule_encoding(), v1::rule_decoder());
        lemma_decode_encoded_seq(
            p.caveats_v1@,
            t.caveats,
            v1::caveat_encoding(),
            v1::caveat_decoder(),
        );
    }
}

// ---------------------------------------------------------------------------
// Laws on blocks and signatures, field by field
// ---------------------------------------------------------------------------

/// How a block message is read. A missing version is 0, and a version above
/// 1 is refused. Otherwise the block keeps the message's index, symbols and
/// context, and has the message's version; a version 0 block has the facts,
/// rules and caveats of the version 0 fields, and a version 1 block those of
/// the version 1 fields, each decoded one by one. A failure is the failure of
/// one of them.
pub proof fn law_block_decoding(p: schema::Block)
    ensures
        p.version matches Some(v) ==> (v > 1 ==> block_decoded(p) == Err::<BlockModel, FormatModel>(
            FormatModel::Version { maximum: 1, actual: v },
        )),
        block_decoded(p) matches Ok(b) ==> {
            &&& b.index == p.index
            &&& b.symbols == views(p.symbols@)
            &&& b.context == opt_string_view(p.context)
            &&& b.version == match p.version {
                Some(v) => v,
                None => 0u32,
            }
            &&& b.version <= 1
        },
        block_decoded(p) matches Ok(b) ==> b.version == 0 ==> {
            &&& b.facts.len() == p.facts_v0@.len()
            &&& forall|i: int|
                0 <= i < p.facts_v0@.len() ==> v0::fact_decoded(#[trigger] p.facts_v0@[i]) == Ok::<
                    PredicateModel,
                    FormatModel,
                >(b.facts[i])
            &&& b.rules.len() == p.rules_v0@.len()
            &&& forall|i: int|
                0 <= i < p.rules_v0@.len() ==> v0::rule_decoded(#[trigger] p.rules_v0@[i]) == Ok::<
                    RuleModel,
                    FormatModel,
                >(b.rules[i])
            &&& b.caveats.len() == p.caveats_v0@.len()
            &&& forall|i: int|
                0 <= i < p.caveats_v0@.len() ==> v0::caveat_decoded(#[trigger] p.caveats_v0@[i])
                    == Ok::<Seq<RuleModel>, FormatModel>(b.caveats[i])
        },
        block_decoded(p) matches Ok(b) ==> b.version == 1 ==> {
            &&& b.facts.len() == p.facts_v1@.len()
            &&& forall|i: int|
                0 <= i < p.facts_v1@.len() ==> v1::fact_decoded(#[trigger] p.facts_v1@[i]) == Ok::<
                    PredicateModel,
                    FormatModel,
                >(b.facts[i])
            &&& b.rules.len() == p.rules_v1@.len()
            &&& forall|i: int|
                0 <= i < p.rules_v1@.len() ==> v1::rule_decoded(#[trigger] p.rules_v1@[i]) == Ok::<
                    RuleModel,
                    FormatModel,
                >(b.rules[i])
            &&& b.caveats.len() == p.caveats_v1@.len()
            &&& forall|i: int|
                0 <= i < p.caveats_v1@.len() ==> v1::caveat_decoded(#[trigger] p.caveats_v1@[i])
                    == Ok::<Seq<RuleModel>, FormatModel>(b.caveats[i])
        },
        (p.version is None || p.version == Some(0u32)) && (forall|i: int|
            0 <= i < p.facts_v0@.len() ==> (#[trigger] v0::fact_decoded(p.facts_v0@[i])) is Ok) && (
        forall|i: int|
            0 <= i < p.rules_v0@.len() ==> (#[trigger] v0::rule_decoded(p.rules_v0@[i])) is Ok) && (
        forall|i: int|
            0 <= i < p.caveats_v0@.len() ==> (#[trigger] v0::caveat_decoded(p.caveats_v0@[i])) is Ok)
            ==> block_decoded(p) is Ok,
        p.version == Some(1u32) && (forall|i: int|
            0 <= i < p.facts_v1@.len() ==> (#[trigger] v1::fact_decoded(p.facts_v1@[i])) is Ok) && (
        forall|i: int|
            0 <= i < p.rules_v1@.len() ==> (#[trigger] v1::rule_decoded(p.rules_v1@[i])) is Ok) && (
        forall|i: int|
            0 <= i < p.caveats_v1@.len() ==> (#[trigger] v1::caveat_decoded(p.caveats_v1@[i])) is Ok)
            ==> block_decoded(p) is Ok,
{
    lemma_decode_seq_elementwise(p.facts_v0@, v0::fact_decoder());
    lemma_decode_seq_elementwise(p.rules_v0@, v0::rule_decoder());
    lemma_decode_seq_elementwise(p.caveats_v0@, v0::caveat_decoder());
    lemma_decode_seq_elementwise(p.facts_v1@, v1::fact_decoder());
    lemma_decode_seq_elementwise(p.rules_v1@, v1::rule_decoder());
    lemma_decode_seq_elementwise(p.caveats_v1@, v1::caveat_decoder());
    assert forall|i: int| 0 <= i < p.facts_v0@.len() implies v0::fact_decoder()(p.facts_v0@[i])
        == v0::fact_decoded(#[trigger] p.facts_v0@[i]) by {}
    assert forall|i: int| 0 <= i < p.rules_v0@.len() implies v0::rule_decoder()(p.rules_v0@[i])
        == v0::rule_decoded(#[trigger] p.rules_v0@[i]) by {}
    assert forall|i: int| 0 <= i < p.caveats_v0@.len() implies v0::caveat_decoder()(
        p.caveats_v0@[i],
    ) == v0::caveat_decoded(#[trigger] p.caveats_v0@[i]) by {}
    assert forall|i: int| 0 <= i < p.facts_v1@.len() implies v1::fact_decoder()(p.facts_v1@[i])
        == v1::fact_decoded(#[trigger] p.facts_v1@[i]) by {}
    assert forall|i: int| 0 <= i < p.rules_v1@.len() implies v1::rule_decoder()(p.rules_v1@[i])
        == v1::rule_decoded(#[trigger] p.rules_v1@[i]) by {}
    assert forall|i: int| 0 <= i < p.caveats_v1@.len() implies v1::caveat_decoder()(
        p.caveats_v1@[i],
    ) == v1::caveat_decoded(#[trigger] p.caveats_v1@[i]) by {}
}

/// How a block is written: its index, symbols, context and version as they
/// are, nothing in the version 0 fields, and its facts, rules and caveats in
/// the version 1 fields, each encoded one by one.
pub proof fn law_block_encoding(p: schema::Block, t: BlockModel)
    requires
        block_encoded(p, t),
    ensures
        p.index == t.index,
        views(p.symbols@) == t.symbols,
        opt_string_view(p.context) == t.context,
        p.version == Some(t.version),
        p.facts_v0@.len() == 0 && p.rules_v0@.len() == 0 && p.caveats_v0@.len() == 0,
        p.facts_v1@.len() == t.facts.len(),
        forall|i: int| 0 <= i < t.facts.len() ==> v1::fact_encoded(#[trigger] p.facts_v1@[i], t.facts[i]),
        p.rules_v1@.len() == t.rules.len(),
        forall|i: int| 0 <= i < t.rules.len() ==> v1::rule_encoded(#[trigger] p.rules_v1@[i], t.rules[i]),
        p.caveats_v1@.len() == t.caveats.len(),
        forall|i: int|
            0 <= i < t.caveats.len() ==> v1::caveat_encoded(#[trigger] p.caveats_v1@[i], t.caveats[i]),
{
    assert forall|i: int| 0 <= i < t.facts.len() implies v1::fact_encoded(
        #[trigger] p.facts_v1@[i],
        t.facts[i],
    ) by {
        assert(v1::fact_encoding()(p.facts_v1@[i], t.facts[i]));
    }
    assert forall|i: int| 0 <= i < t.rules.len() implies v1::rule_encoded(
        #[trigger] p.rules_v1@[i],
        t.rules[i],
    ) by {
        assert(v1::rule_encoding()(p.rules_v1@[i], t.rules[i]));
    }
    assert forall|i: int| 0 <= i < t.caveats.len() implies v1::caveat_encoded(
        #[trigger] p.caveats_v1@[i],
        t.caveats[i],
    ) by {
        assert(v1::caveat_encoding()(p.caveats_v1@[i], t.caveats[i]));
    }
}

/// A version 0 block message (version 0 or absent) whose version 0 fields
/// hold the encodings of a block's facts, rules and caveats, with the same
/// index, symbols and context, decodes to that block, with its contents:
/// nothing of a version 0 block is dropped. (Its rules must be ones that
/// version 0 carries back: no symbol constraint and no empty set.)
pub proof fn law_block_v0_roundtrip(p: schema::Block, t: BlockModel)
    requires
        p.version is None || p.version == Some(0u32),
        t.version == 0,
        p.index == t.index,
        views(p.symbols@) == t.symbols,
        opt_string_view(p.context) == t.context,
        p.facts_v0@.len() == t.facts.len(),
        forall|i: int| 0 <= i < t.facts.len() ==> v0::fact_encoded(#[trigger] p.facts_v0@[i], t.facts[i]),
        p.rules_v0@.len() == t.rules.len(),
        forall|i: int|
            0 <= i < t.rules.len() ==> v0::rule_encoded(#[trigger] p.rules_v0@[i], t.rules[i])
                && v0::rule_readable(t.rules[i]),
        p.caveats_v0@.len() == t.caveats.len(),
        forall|i: int|
            0 <= i < t.caveats.len() ==> v0::caveat_encoded(#[trigger] p.caveats_v0@[i], t.caveats[i])
                && v0::caveat_readable(t.caveats[i]),
    ensures
        block_decoded(p) == Ok::<BlockModel, FormatModel>(t),
{
    assert forall|i: int| 0 <= i < p.facts_v0@.len() implies v0::fact_decoder()(
        #[trigger] p.facts_v0@[i],
    ) == Ok::<PredicateModel, FormatModel>(t.facts[i]) by {
        v0::lemma_fact_roundtrip(p.facts_v0@[i], t.facts[i]);
    }
    assert forall|i: int| 0 <= i < p.rules_v0@.len() implies v0::rule_decoder()(
        #[trigger] p.rules_v0@[i],
    ) == Ok::<RuleModel, FormatModel>(t.rules[i]) by {
        v0::lemma_rule_roundtrip(p.rules_v0@[i], t.rules[i]);
    }
    assert forall|i: int| 0 <= i < p.caveats_v0@.len() implies v0::caveat_decoder()(
        #[trigger] p.caveats_v0@[i],
    ) == Ok::<Seq<RuleModel>, FormatModel>(t.caveats[i]) by {
        v0::lemma_caveat_roundtrip(p.caveats_v0@[i], t.caveats[i]);
    }
    lemma_decode_seq_all(p.facts_v0@, t.facts, v0::fact_decoder());
    lemma_decode_seq_all(p.rules_v0@, t.rules, v0::rule_decoder());
    lemma_decode_seq_all(p.caveats_v0@, t.caveats, v0::caveat_decoder());
}

/// Which error a version 0 block message (version 0 or absent) gives: that of
/// its first failing fact; when every fact is read, that of its first failing
/// rule; when every rule is read too, that of its first failing caveat.
pub proof fn law_block_v0_error_order(p: schema::Block, i: int)
    requires
        p.version is None || p.version == Some(0u32),
    ensures
        0 <= i < p.facts_v0@.len() && v0::fact_decoded(p.facts_v0@[i]) is Err && (forall|j: int|
            0 <= j < i ==> (#[trigger] v0::fact_decoded(p.facts_v0@[j])) is Ok) ==> block_decoded(p)
            == Err::<BlockModel, FormatModel>(v0::fact_decoded(p.facts_v0@[i])->Err_0),
        (forall|j: int| 0 <= j < p.facts_v0@.len() ==> (#[trigger] v0::fact_decoded(p.facts_v0@[j])) is Ok)
            && 0 <= i < p.rules_v0@.len() && v0::rule_decoded(p.rules_v0@[i]) is Err && (forall|j: int|
            0 <= j < i ==> (#[trigger] v0::rule_decoded(p.rules_v0@[j])) is Ok) ==> block_decoded(p)
            == Err::<BlockModel, FormatModel>(v0::rule_decoded(p.rules_v0@[i])->Err_0),
        (forall|j: int| 0 <= j < p.facts_v0@.len() ==> (#[trigger] v0::fact_decoded(p.facts_v0@[j])) is Ok)
            && (forall|j: int| 0 <= j < p.rules_v0@.len() ==> (#[trigger] v0::rule_decoded(p.rules_v0@[j])) is Ok)
            && 0 <= i < p.caveats_v0@.len() && v0::caveat_decoded(p.caveats_v0@[i]) is Err && (forall|j: int|
            0 <= j < i ==> (#[trigger] v0::caveat_decoded(p.caveats_v0@[j])) is Ok) ==> block_decoded(p)
            == Err::<BlockModel, FormatModel>(v0::caveat_decoded(p.caveats_v0@[i])->Err_0),
{
    assert forall|j: int| 0 <= j < p.facts_v0@.len() implies v0::fact_decoder()(p.facts_v0@[j])
        == v0::fact_decoded(#[trigger] p.facts_v0@[j]) by {}
    assert forall|j: int| 0 <= j < p.rules_v0@.len() implies v0::rule_decoder()(p.rules_v0@[j])
        == v0::rule_decoded(#[trigger] p.rules_v0@[j]) by {}
    assert forall|j: int| 0 <= j < p.caveats_v0@.len() implies v0::caveat_decoder()(
        p.caveats_v0@[j],
    ) == v0::caveat_decoded(#[trigger] p.caveats_v0@[j]) by {}
    lemma_decode_seq_elementwise(p.facts_v0@, v0::fact_decoder());
    lemma_decode_seq_elementwise(p.rules_v0@, v0::rule_decoder());
    lemma_decode_seq_elementwise(p.caveats_v0@, v0::caveat_decoder());
    if 0 <= i < p.facts_v0@.len() && v0::fact_decoded(p.facts_v0@[i]) is Err && (forall|j: int|
        0 <= j < i ==> (#[trigger] v0::fact_decoded(p.facts_v0@[j])) is Ok) {
        assert forall|j: int| 0 <= j < i implies (#[trigger] v0::fact_decoder()(p.facts_v0@[j])) is Ok by {
            assert(v0::fact_decoded(p.facts_v0@[j]) is Ok);
        }
        lemma_decode_seq_first_error(p.facts_v0@, v0::fact_decoder(), i);
    }
    if 0 <= i < p.rules_v0@.len() && v0::rule_decoded(p.rules_v0@[i]) is Err && (forall|j: int|
        0 <= j < i ==> (#[trigger] v0::rule_decoded(p.rules_v0@[j])) is Ok) {
        assert forall|j: int| 0 <= j < i implies (#[trigger] v0::rule_decoder()(p.rules_v0@[j])) is Ok by {
            assert(v0::rule_decoded(p.rules_v0@[j]) is Ok);
        }
        lemma_decode_seq_first_error(p.rules_v0@, v0::rule_decoder(), i);
    }
    if 0 <= i < p.caveats_v0@.len() && v0::caveat_decoded(p.caveats_v0@[i]) is Err && (forall|j: int|
        0 <= j < i ==> (#[trigger] v0::caveat_decoded(p.caveats_v0@[j])) is Ok) {
        assert forall|j: int| 0 <= j < i implies (#[trigger] v0::caveat_decoder()(p.caveats_v0@[j])) is Ok by {
            assert(v0::caveat_decoded(p.caveats_v0@[j]) is Ok);
        }
        lemma_decode_seq_first_error(p.caveats_v0@, v0::caveat_decoder(), i);
    }
}

/// Which error a version 1 block message gives: that of
/// its first failing fact; when every fact is read, that of its first failing
/// rule; when every rule is read too, that of its first failing caveat.
pub proof fn law_block_v1_error_order(p: schema::Block, i: int)
    requires
        p.version == Some(1u32),
    ensures
        0 <= i < p.facts_v1@.len() && v1::fact_decoded(p.facts_v1@[i]) is Err && (forall|j: int|
            0 <= j < i ==> (#[trigger] v1::fact_decoded(p.facts_v1@[j])) is Ok) ==> block_decoded(p)
            == Err::<BlockModel, FormatModel>(v1::fact_decoded(p.facts_v1@[i])->Err_0),
        (forall|j: int| 0 <= j < p.facts_v1@.len() ==> (#[trigger] v1::fact_decoded(p.facts_v1@[j])) is Ok)
            && 0 <= i < p.rules_v1@.len() && v1::rule_decoded(p.rules_v1@[i]) is Err && (forall|j: int|
            0 <= j < i ==> (#[trigger] v1::rule_decoded(p.rules_v1@[j])) is Ok) ==> block_decoded(p)
            == Err::<BlockModel, FormatModel>(v1::rule_decoded(p.rules_v1@[i])->Err_0),
        (forall|j: int| 0 <= j < p.facts_v1@.len() ==> (#[trigger] v1::fact_decoded(p.facts_v1@[j])) is Ok)
            && (forall|j: int| 0 <= j < p.rules_v1@.len() ==> (#[trigger] v1::rule_decoded(p.rules_v1@[j])) is Ok)
            && 0 <= i < p.caveats_v1@.len() && v1::caveat_decoded(p.caveats_v1@[i]) is Err && (forall|j: int|
            0 <= j < i ==> (#[trigger] v1::caveat_decoded(p.caveats_v1@[j])) is Ok) ==> block_decoded(p)
            == Err::<BlockModel, FormatModel>(v1::caveat_decoded(p.caveats_v1@[i])->Err_0),
{
    assert forall|j: int| 0 <= j < p.facts_v1@.len() implies v1::fact_decoder()(p.facts_v1@[j])
        == v1::fact_decoded(#[trigger] p.facts_v1@[j]) by {}
    assert forall|j: int| 0 <= j < p.rules_v1@.len() implies v1::rule_decoder()(p.rules_v1@[j])
        == v1::rule_decoded(#[trigger] p.rules_v1@[j]) by {}
    assert forall|j: int| 0 <= j < p.caveats_v1@.len() implies v1::caveat_decoder()(
        p.caveats_v1@[j],
    ) == v1::caveat_decoded(#[trigger] p.caveats_v1@[j]) by {}
    lemma_decode_seq_elementwise(p.facts_v1@, v1::fact_decoder());
    lemma_decode_seq_elementwise(p.rules_v1@, v1::rule_decoder());
    lemma_decode_seq_elementwise(p.caveats_v1@, v1::caveat_decoder());
    if 0 <= i < p.facts_v1@.len() && v1::fact_decoded(p.facts_v1@[i]) is Err && (forall|j: int|
        0 <= j < i ==> (#[trigger] v1::fact_decoded(p.facts_v1@[j])) is Ok) {
        assert forall|j: int| 0 <= j < i implies (#[trigger] v1::fact_decoder()(p.facts_v1@[j])) is Ok by {
            assert(v1::fact_decoded(p.facts_v1@[j]) is Ok);
        }
        lemma_decode_seq_first_error(p.facts_v1@, v1::fact_decoder(), i);
    }
    if 0 <= i < p.rules_v1@.len() && v1::rule_decoded(p.rules_v1@[i]) is Err && (forall|j: int|
        0 <= j < i ==> (#[trigger] v1::rule_decoded(p.rules_v1@[j])) is Ok) {
        assert forall|j: int| 0 <= j < i implies (#[trigger] v1::rule_decoder()(p.rules_v1@[j])) is Ok by {
            assert(v1::rule_decoded(p.rules_v1@[j]) is Ok);
        }
        lemma_decode_seq_first_error(p.rules_v1@, v1::rule_decoder(), i);
    }
    if 0 <= i < p.caveats_v1@.len() && v1::caveat_decoded(p.caveats_v1@[i]) is Err && (forall|j: int|
        0 <= j < i ==> (#[trigger] v1::caveat_decoded(p.caveats_v1@[j])) is Ok) {
        assert forall|j: int| 0 <= j < i implies (#[trigger] v1::caveat_decoder()(p.caveats_v1@[j])) is Ok by {
            assert(v1::caveat_decoded(p.caveats_v1@[j]) is Ok);
        }
        lemma_decode_seq_first_error(p.caveats_v1@, v1::caveat_decoder(), i);
    }
}

/// A signature message is read exactly when every parameter is the 32-byte
/// encoding of a point and `z` the 32-byte encoding of a canonical scalar;
/// the signature then holds those bytes as they are. Otherwise the first
/// failing parameter's error comes out, else the error on `z`.
pub proof fn law_signature_decoding(p: schema::Signature)
    ensures
        signature_decoded(p) is Ok <==> (forall|i: int|
            0 <= i < p.parameters@.len() ==> point_encoding(#[trigger] p.parameters@[i]@))
            && scalar_encoding(p.z@),
        signature_decoded(p) matches Ok(s) ==> s.parameters == views(p.parameters@) && s.z == p.z@,
        signature_decoded(p) matches Err(e) ==> ((exists|i: int|
            0 <= i < p.parameters@.len() && !point_encoding(#[trigger] p.parameters@[i]@))
            ==> exists|i: int|
            0 <= i < p.parameters@.len() && parameter_decoded(#[trigger] p.parameters@[i]@)
                == Err::<Seq<u8>, FormatModel>(e)),
        (forall|i: int| 0 <= i < p.parameters@.len() ==> point_encoding(#[trigger] p.parameters@[i]@))
            && p.z@.len() != 32 ==> signature_decoded(p) == Err::<TokenSignatureModel, FormatModel>(
            deserialization(
                "deserialization error: invalid size for z = "@ + decimal(p.z@.len()) + " bytes"@,
            ),
        ),
        (forall|i: int| 0 <= i < p.parameters@.len() ==> point_encoding(#[trigger] p.parameters@[i]@))
            && p.z@.len() == 32 && !scalar_encoding(p.z@) ==> signature_decoded(p) == Err::<
            TokenSignatureModel,
            FormatModel,
        >(deserialization("deserialization error: non canonical z scalar"@)),
{
    lemma_decode_seq_elementwise(p.parameters@, parameter_decoder());
    assert forall|i: int| 0 <= i < p.parameters@.len() implies parameter_decoder()(
        p.parameters@[i],
    ) == parameter_decoded(#[trigger] p.parameters@[i]@) by {}
    if forall|i: int| 0 <= i < p.parameters@.len() ==> point_encoding(#[trigger] p.parameters@[i]@) {
        assert forall|i: int| 0 <= i < p.parameters@.len() implies #[trigger] parameter_decoder()(
            p.parameters@[i],
        ) == Ok::<Seq<u8>, FormatModel>(views(p.parameters@)[i]) by {}
        lemma_decode_seq_all(p.parameters@, views(p.parameters@), parameter_decoder());
    }
    if signature_decoded(p) is Ok {
        let ps = decode_seq(p.parameters@, parameter_decoder())->Ok_0;
        assert forall|i: int| 0 <= i < p.parameters@.len() implies point_encoding(
            #[trigger] p.parameters@[i]@,
        ) by {
            assert(parameter_decoder()(p.parameters@[i]) == Ok::<Seq<u8>, FormatModel>(ps[i]));
        }
        assert(ps =~= views(p.parameters@));
    }
    if signature_decoded(p) is Err && exists|i: int|
        0 <= i < p.parameters@.len() && !point_encoding(#[trigger] p.parameters@[i]@) {
        let i = choose|i: int| 0 <= i < p.parameters@.len() && !point_encoding(#[trigger] p.parameters@[i]@);
        assert(parameter_decoder()(p.parameters@[i]) is Err);
    }
}

/// A signature is written with its parameters and `z` as they are.
pub proof fn law_signature_encoding(p: schema::Signature, t: TokenSignatureModel)
    requires
        signature_encoded(p, t),
    ensures
        p.parameters@.len() == t.parameters.len(),
        forall|i: int| 0 <= i < t.parameters.len() ==> (#[trigger] p.parameters@[i])@ == t.parameters[i],
        p.z@ == t.z,
{
    assert forall|i: int| 0 <= i < t.parameters.len() implies (#[trigger] p.parameters@[i])@
        == t.parameters[i] by {
        assert(views(p.parameters@)[i] == p.parameters@[i]@);
    }
}

/// One parameter of a signature message: 32 bytes that encode a point are
/// kept as they are; 32 bytes that do not are refused as not decompressing;
/// any other length is refused with that length in the text.
pub proof fn law_parameter_decoding(d: Seq<u8>)
    ensures
        d.len() == 32 && ristretto_point_encoding(d) ==> parameter_decoded(d) == Ok::<
            Seq<u8>,
            FormatModel,
        >(d),
        d.len() == 32 && !ristretto_point_encoding(d) ==> parameter_decoded(d) == Err::<
            Seq<u8>,
            FormatModel,
        >(deserialization("deserialization error: cannot decompress parameters point"@)),
        d.len() != 32 ==> parameter_decoded(d) == Err::<Seq<u8>, FormatModel>(
            deserialization("deserialization error: invalid size for parameters = "@ + decimal(d.len())),
        ),
{
    assert("deserialization error: invalid size for parameters = "@ + decimal(d.len()) + ""@
        =~= "deserialization error: invalid size for parameters = "@ + decimal(d.len())) by {
        reveal_strlit("");
    }
}

} // verus!
