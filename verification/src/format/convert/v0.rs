//! Conversions for version 0 of the block schema, where a term or a
//! constraint carries a kind number and one optional field per alternative.
use crate::datalog::{
    views, BytesConstraint, BytesConstraintModel, Caveat, Constraint, ConstraintKind,
    ConstraintKindModel, ConstraintModel, DateConstraint, Fact, IntConstraint, IntConstraintModel,
    Predicate, PredicateModel, Rule, RuleModel, StrConstraint, StrConstraintModel,
    SymbolConstraint, SymbolConstraintModel, ID, IDModel, view_set,
};
use crate::error::{deserialization, result_view, Format, FormatModel};
use crate::format::convert::{
    copy_byte_strings, copy_bytes, copy_strings, decode_seq, decode_vec, distinct_byte_strings,
    distinct_strings, encode_vec, encodes_all, hash_set_to_vec, lemma_decode_encoded_seq,
    lemma_decode_seq_elementwise, lemma_decode_seq_first_error, lists_set, vec_to_hash_set,
};
use crate::format::schema;
use crate::format::schema::{
    BytesConstraintV0Kind, ConstraintV0Kind, DateConstraintV0Kind, Idv0Kind, IntConstraintV0Kind,
    StringConstraintV0Kind, SymbolConstraintV0Kind,
};
use vstd::prelude::*;

verus! {

// ---------------------------------------------------------------------------
// Terms
// ---------------------------------------------------------------------------

/// Which of the optional fields of a term are set.
pub open spec fn idv0_fields_set(
    p: schema::Idv0,
    symbol: bool,
    variable: bool,
    integer: bool,
    str: bool,
    date: bool,
    bytes: bool,
) -> bool {
    &&& (p.symbol is Some) == symbol
    &&& (p.variable is Some) == variable
    &&& (p.integer is Some) == integer
    &&& (p.str is Some) == str
    &&& (p.date is Some) == date
    &&& (p.bytes is Some) == bytes
}

/// `p` is the encoding of the term `t`: the kind names the alternative, its
/// field holds the value, and no other field is set.
pub open spec fn id_encoded(p: schema::Idv0, t: IDModel) -> bool {
    match t {
        IDModel::Symbol(s) => p.kind == Idv0Kind::Symbol.spec_to_i32() && p.symbol == Some(s)
            && idv0_fields_set(p, true, false, false, false, false, false),
        IDModel::Variable(v) => p.kind == Idv0Kind::Variable.spec_to_i32() && p.variable == Some(v)
            && idv0_fields_set(p, false, true, false, false, false, false),
        IDModel::Integer(i) => p.kind == Idv0Kind::Integer.spec_to_i32() && p.integer == Some(i)
            && idv0_fields_set(p, false, false, true, false, false, false),
        IDModel::Str(s) => p.kind == Idv0Kind::Str.spec_to_i32() && (p.str matches Some(x) && x@
            == s) && idv0_fields_set(p, false, false, false, true, false, false),
        IDModel::Date(d) => p.kind == Idv0Kind::Date.spec_to_i32() && p.date == Some(d)
            && idv0_fields_set(p, false, false, false, false, true, false),
        IDModel::Bytes(b) => p.kind == Idv0Kind::Bytes.spec_to_i32() && (p.bytes matches Some(x)
            && x@ == b) && idv0_fields_set(p, false, false, false, false, false, true),
    }
}

/// The term that `p` decodes to, or the error: the kind must be known and
/// its field set; the other fields are not read.
pub open spec fn id_decoded(p: schema::Idv0) -> Result<IDModel, FormatModel> {
    let invalid = deserialization("deserialization error: invalid id"@);
    match Idv0Kind::spec_from_i32(p.kind) {
        None => Err(deserialization("deserialization error: invalid id kind"@)),
        Some(Idv0Kind::Symbol) => match p.symbol {
            Some(s) => Ok(IDModel::Symbol(s)),
            None => Err(invalid),
        },
        Some(Idv0Kind::Variable) => match p.variable {
            Some(v) => Ok(IDModel::Variable(v)),
            None => Err(invalid),
        },
        Some(Idv0Kind::Integer) => match p.integer {
            Some(i) => Ok(IDModel::Integer(i)),
            None => Err(invalid),
        },
        Some(Idv0Kind::Str) => match p.str {
            Some(s) => Ok(IDModel::Str(s@)),
            None => Err(invalid),
        },
        Some(Idv0Kind::Date) => match p.date {
            Some(d) => Ok(IDModel::Date(d)),
            None => Err(invalid),
        },
        Some(Idv0Kind::Bytes) => match p.bytes {
            Some(b) => Ok(IDModel::Bytes(b@)),
            None => Err(invalid),
        },
    }
}

pub open spec fn id_encoding() -> spec_fn(schema::Idv0, IDModel) -> bool {
    |p: schema::Idv0, t: IDModel| id_encoded(p, t)
}

pub open spec fn id_decoder() -> spec_fn(schema::Idv0) -> Result<IDModel, FormatModel> {
    |p: schema::Idv0| id_decoded(p)
}

pub fn token_id_to_proto_id(input: &ID) -> (res: schema::Idv0)
    ensures
        id_encoded(res, input@),
{
    match input {
        ID::Symbol(s) => schema::Idv0 {
            kind: Idv0Kind::Symbol.to_i32(),
            symbol: Some(*s),
            variable: None,
            integer: None,
            str: None,
            date: None,
            bytes: None,
        },
        ID::Variable(v) => schema::Idv0 {
            kind: Idv0Kind::Variable.to_i32(),
            symbol: None,
            variable: Some(*v),
            integer: None,
            str: None,
            date: None,
            bytes: None,
        },
        ID::Integer(i) => schema::Idv0 {
            kind: Idv0Kind::Integer.to_i32(),
            symbol: None,
            variable: None,
            integer: Some(*i),
            str: None,
            date: None,
            bytes: None,
        },
        ID::Str(s) => schema::Idv0 {
            kind: Idv0Kind::Str.to_i32(),
            symbol: None,
            variable: None,
            integer: None,
            str: Some(s.clone()),
            date: None,
            bytes: None,
        },
        ID::Date(d) => schema::Idv0 {
            kind: Idv0Kind::Date.to_i32(),
            symbol: None,
            variable: None,
            integer: None,
            str: None,
            date: Some(*d),
            bytes: None,
        },
        ID::Bytes(s) => schema::Idv0 {
            kind: Idv0Kind::Bytes.to_i32(),
            symbol: None,
            variable: None,
            integer: None,
            str: None,
            date: None,
            bytes: Some(copy_bytes(s)),
        },
    }
}

pub fn proto_id_to_token_id(input: &schema::Idv0) -> (res: Result<ID, Format>)
    ensures
        result_view(res) == id_decoded(*input),
{
    let kind = if let Some(i) = Idv0Kind::from_i32(input.kind) {
        i
    } else {
        return Err(
            Format::DeserializationError("deserialization error: invalid id kind".to_string()),
        );
    };

    match kind {
        Idv0Kind::Symbol => {
            if let Some(s) = input.symbol {
                return Ok(ID::Symbol(s));
            }
        },
        Idv0Kind::Variable => {
            if let Some(v) = input.variable {
                return Ok(ID::Variable(v));
            }
        },
        Idv0Kind::Integer => {
            if let Some(i) = input.integer {
                return Ok(ID::Integer(i));
            }
        },
        Idv0Kind::Str => {
            if let Some(s) = &input.str {
                return Ok(ID::Str(s.clone()));
            }
        },
        Idv0Kind::Date => {
            if let Some(d) = input.date {
                return Ok(ID::Date(d));
            }
        },
        Idv0Kind::Bytes => {
            if let Some(s) = &input.bytes {
                return Ok(ID::Bytes(copy_bytes(s)));
            }
        },
    }

    Err(Format::DeserializationError("deserialization error: invalid id".to_string()))
}

/// Decoding the encoding of a term gives the term back.
pub proof fn lemma_id_roundtrip(p: schema::Idv0, t: IDModel)
    requires
        id_encoded(p, t),
    ensures
        id_decoded(p) == Ok::<IDModel, FormatModel>(t),
{
}

// ---------------------------------------------------------------------------
// Predicates and facts
// ---------------------------------------------------------------------------

/// `p` is the encoding of the predicate `t`.
pub open spec fn predicate_encoded(p: schema::PredicateV0, t: PredicateModel) -> bool {
    p.name == t.name && encodes_all(p.ids@, t.ids, id_encoding())
}

/// The predicate that `p` decodes to, or the first error among its terms.
pub open spec fn predicate_decoded(p: schema::PredicateV0) -> Result<PredicateModel, FormatModel> {
    match decode_seq(p.ids@, id_decoder()) {
        Err(e) => Err(e),
        Ok(ids) => Ok(PredicateModel { name: p.name, ids }),
    }
}

pub open spec fn predicate_encoding() -> spec_fn(schema::PredicateV0, PredicateModel) -> bool {
    |p: schema::PredicateV0, t: PredicateModel| predicate_encoded(p, t)
}

pub open spec fn predicate_decoder() -> spec_fn(schema::PredicateV0) -> Result<
    PredicateModel,
    FormatModel,
> {
    |p: schema::PredicateV0| predicate_decoded(p)
}

pub fn token_predicate_to_proto_predicate(input: &Predicate) -> (res: schema::PredicateV0)
    ensures
        predicate_encoded(res, input@),
{
    schema::PredicateV0 {
        name: input.name,
        ids: encode_vec(&input.ids, token_id_to_proto_id, Ghost(id_encoding())),
    }
}

pub fn proto_predicate_to_token_predicate(input: &schema::PredicateV0) -> (res: Result<
    Predicate,
    Format,
>)
    ensures
        result_view(res) == predicate_decoded(*input),
{
    let ids = decode_vec(
        &input.ids,
        proto_id_to_token_id,
        Ghost(id_decoder()),
        Ghost(|id: ID| true),
    );
    match ids {
        Ok(ids) => Ok(Predicate { name: input.name, ids }),
        Err(e) => Err(e),
    }
}

/// Decoding the encoding of a predicate gives the predicate back.
pub proof fn lemma_predicate_roundtrip(p: schema::PredicateV0, t: PredicateModel)
    requires
        predicate_encoded(p, t),
    ensures
        predicate_decoded(p) == Ok::<PredicateModel, FormatModel>(t),
{
    assert forall|q: schema::Idv0, u: IDModel| #[trigger]
        id_encoding()(q, u) implies id_decoder()(q) == Ok::<IDModel, FormatModel>(u) by {
        lemma_id_roundtrip(q, u);
    }
    lemma_decode_encoded_seq(p.ids@, t.ids, id_encoding(), id_decoder());
}

/// `p` is the encoding of the fact `t`.
pub open spec fn fact_encoded(p: schema::FactV0, t: PredicateModel) -> bool {
    predicate_encoded(p.predicate, t)
}

/// The fact that `p` decodes to, or the error.
pub open spec fn fact_decoded(p: schema::FactV0) -> Result<PredicateModel, FormatModel> {
    predicate_decoded(p.predicate)
}

pub open spec fn fact_encoding() -> spec_fn(schema::FactV0, PredicateModel) -> bool {
    |p: schema::FactV0, t: PredicateModel| fact_encoded(p, t)
}

pub open spec fn fact_decoder() -> spec_fn(schema::FactV0) -> Result<PredicateModel, FormatModel> {
    |p: schema::FactV0| fact_decoded(p)
}

pub fn token_fact_to_proto_fact(input: &Fact) -> (res: schema::FactV0)
    ensures
        fact_encoded(res, input@),
{
    schema::FactV0 { predicate: token_predicate_to_proto_predicate(&input.predicate) }
}

pub fn proto_fact_to_token_fact(input: &schema::FactV0) -> (res: Result<Fact, Format>)
    ensures
        result_view(res) == fact_decoded(*input),
{
    match proto_predicate_to_token_predicate(&input.predicate) {
        Ok(predicate) => Ok(Fact { predicate }),
        Err(e) => Err(e),
    }
}

/// Decoding the encoding of a fact gives the fact back.
pub proof fn lemma_fact_roundtrip(p: schema::FactV0, t: PredicateModel)
    requires
        fact_encoded(p, t),
    ensures
        fact_decoded(p) == Ok::<PredicateModel, FormatModel>(t),
{
    lemma_predicate_roundtrip(p.predicate, t);
}

// ---------------------------------------------------------------------------
// Integer constraints
// ---------------------------------------------------------------------------

/// Which of the optional fields of an integer constraint are set.
pub open spec fn int_constraint_options_set(
    p: schema::IntConstraintV0,
    lower: bool,
    larger: bool,
    lower_or_equal: bool,
    larger_or_equal: bool,
    equal: bool,
) -> bool {
    &&& (p.lower is Some) == lower
    &&& (p.larger is Some) == larger
    &&& (p.lower_or_equal is Some) == lower_or_equal
    &&& (p.larger_or_equal is Some) == larger_or_equal
    &&& (p.equal is Some) == equal
}

/// `p` is the encoding of the integer constraint `t`.
pub open spec fn int_constraint_encoded(p: schema::IntConstraintV0, t: IntConstraintModel) -> bool {
    match t {
        IntConstraintModel::LessThan(i) => p.kind == IntConstraintV0Kind::Lower.spec_to_i32()
            && p.lower == Some(i) && int_constraint_options_set(p, true, false, false, false, false)
            && p.in_set@.len() == 0 && p.not_in_set@.len() == 0,
        IntConstraintModel::GreaterThan(i) => p.kind == IntConstraintV0Kind::Larger.spec_to_i32()
            && p.larger == Some(i) && int_constraint_options_set(p, false, true, false, false, false)
            && p.in_set@.len() == 0 && p.not_in_set@.len() == 0,
        IntConstraintModel::LessOrEqual(i) => p.kind
            == IntConstraintV0Kind::LowerOrEqual.spec_to_i32() && p.lower_or_equal == Some(i)
            && int_constraint_options_set(p, false, false, true, false, false) && p.in_set@.len()
            == 0 && p.not_in_set@.len() == 0,
        IntConstraintModel::GreaterOrEqual(i) => p.kind
            == IntConstraintV0Kind::LargerOrEqual.spec_to_i32() && p.larger_or_equal == Some(i)
            && int_constraint_options_set(p, false, false, false, true, false) && p.in_set@.len()
            == 0 && p.not_in_set@.len() == 0,
        IntConstraintModel::Equal(i) => p.kind == IntConstraintV0Kind::Equal.spec_to_i32()
            && p.equal == Some(i) && int_constraint_options_set(p, false, false, false, false, true)
            && p.in_set@.len() == 0 && p.not_in_set@.len() == 0,
        IntConstraintModel::In(s) => p.kind == IntConstraintV0Kind::In.spec_to_i32()
            && int_constraint_options_set(p, false, false, false, false, false) && lists_set(
            p.in_set@,
            s,
        ) && p.not_in_set@.len() == 0,
        IntConstraintModel::NotIn(s) => p.kind == IntConstraintV0Kind::NotIn.spec_to_i32()
            && int_constraint_options_set(p, false, false, false, false, false) && p.in_set@.len()
            == 0 && lists_set(p.not_in_set@, s),
    }
}

/// The integer constraint that `p` decodes to, or the error: the kind must be
/// known and its field set, and a set must not be empty.
pub open spec fn int_constraint_decoded(p: schema::IntConstraintV0) -> Result<
    IntConstraintModel,
    FormatModel,
> {
    let invalid = deserialization("deserialization error: invalid id"@);
    match IntConstraintV0Kind::spec_from_i32(p.kind) {
        None => Err(deserialization("deserialization error: invalid int constraint kind"@)),
        Some(IntConstraintV0Kind::Lower) => match p.lower {
            Some(i) => Ok(IntConstraintModel::LessThan(i)),
            None => Err(invalid),
        },
        Some(IntConstraintV0Kind::Larger) => match p.larger {
            Some(i) => Ok(IntConstraintModel::GreaterThan(i)),
            None => Err(invalid),
        },
        Some(IntConstraintV0Kind::LowerOrEqual) => match p.lower_or_equal {
            Some(i) => Ok(IntConstraintModel::LessOrEqual(i)),
            None => Err(invalid),
        },
        Some(IntConstraintV0Kind::LargerOrEqual) => match p.larger_or_equal {
            Some(i) => Ok(IntConstraintModel::GreaterOrEqual(i)),
            None => Err(invalid),
        },
        Some(IntConstraintV0Kind::Equal) => match p.equal {
            Some(i) => Ok(IntConstraintModel::Equal(i)),
            None => Err(invalid),
        },
        Some(IntConstraintV0Kind::In) => if p.in_set@.len() > 0 {
            Ok(IntConstraintModel::In(p.in_set@.to_set()))
        } else {
            Err(invalid)
        },
        Some(IntConstraintV0Kind::NotIn) => if p.not_in_set@.len() > 0 {
            Ok(IntConstraintModel::NotIn(p.not_in_set@.to_set()))
        } else {
            Err(invalid)
        },
    }
}

pub fn token_int_constraint_to_proto_int_constraint(input: &IntConstraint) -> (res:
    schema::IntConstraintV0)
    ensures
        int_constraint_encoded(res, input@),
{
    match input {
        IntConstraint::LessThan(i) => schema::IntConstraintV0 {
            kind: IntConstraintV0Kind::Lower.to_i32(),
            lower: Some(*i),
            larger: None,
            lower_or_equal: None,
            larger_or_equal: None,
            equal: None,
            in_set: Vec::new(),
            not_in_set: Vec::new(),
        },
        IntConstraint::GreaterThan(i) => schema::IntConstraintV0 {
            kind: IntConstraintV0Kind::Larger.to_i32(),
            lower: None,
            larger: Some(*i),
            lower_or_equal: None,
            larger_or_equal: None,
            equal: None,
            in_set: Vec::new(),
            not_in_set: Vec::new(),
        },
        IntConstraint::LessOrEqual(i) => schema::IntConstraintV0 {
            kind: IntConstraintV0Kind::LowerOrEqual.to_i32(),
            lower: None,
            larger: None,
            lower_or_equal: Some(*i),
            larger_or_equal: None,
            equal: None,
            in_set: Vec::new(),
            not_in_set: Vec::new(),
        },
        IntConstraint::GreaterOrEqual(i) => schema::IntConstraintV0 {
            kind: IntConstraintV0Kind::LargerOrEqual.to_i32(),
            lower: None,
            larger: None,
            lower_or_equal: None,
            larger_or_equal: Some(*i),
            equal: None,
            in_set: Vec::new(),
            not_in_set: Vec::new(),
        },
        IntConstraint::Equal(i) => schema::IntConstraintV0 {
            kind: IntConstraintV0Kind::Equal.to_i32(),
            lower: None,
            larger: None,
            lower_or_equal: None,
            larger_or_equal: None,
            equal: Some(*i),
            in_set: Vec::new(),
            not_in_set: Vec::new(),
        },
        IntConstraint::In(s) => schema::IntConstraintV0 {
            kind: IntConstraintV0Kind::In.to_i32(),
            lower: None,
            larger: None,
            lower_or_equal: None,
            larger_or_equal: None,
            equal: None,
            in_set: hash_set_to_vec(s),
            not_in_set: Vec::new(),
        },
        IntConstraint::NotIn(s) => schema::IntConstraintV0 {
            kind: IntConstraintV0Kind::NotIn.to_i32(),
            lower: None,
            larger: None,
            lower_or_equal: None,
            larger_or_equal: None,
            equal: None,
            in_set: Vec::new(),
            not_in_set: hash_set_to_vec(s),
        },
    }
}

pub fn proto_int_constraint_to_token_int_constraint(input: &schema::IntConstraintV0) -> (res:
    Result<IntConstraint, Format>)
    ensures
        result_view(res) == int_constraint_decoded(*input),
{
    let kind = if let Some(i) = IntConstraintV0Kind::from_i32(input.kind) {
        i
    } else {
        return Err(
            Format::DeserializationError(
                "deserialization error: invalid int constraint kind".to_string(),
            ),
        );
    };

    match kind {
        IntConstraintV0Kind::Lower => {
            if let Some(i) = input.lower {
                return Ok(IntConstraint::LessThan(i));
            }
        },
        IntConstraintV0Kind::Larger => {
            if let Some(i) = input.larger {
                return Ok(IntConstraint::GreaterThan(i));
            }
        },
        IntConstraintV0Kind::LowerOrEqual => {
            if let Some(i) = input.lower_or_equal {
                return Ok(IntConstraint::LessOrEqual(i));
            }
        },
        IntConstraintV0Kind::LargerOrEqual => {
            if let Some(i) = input.larger_or_equal {
                return Ok(IntConstraint::GreaterOrEqual(i));
            }
        },
        IntConstraintV0Kind::Equal => {
            if let Some(i) = input.equal {
                return Ok(IntConstraint::Equal(i));
            }
        },
        IntConstraintV0Kind::In => {
            if !input.in_set.is_empty() {
                return Ok(IntConstraint::In(vec_to_hash_set(&input.in_set)));
            }
        },
        IntConstraintV0Kind::NotIn => {
            if !input.not_in_set.is_empty() {
                return Ok(IntConstraint::NotIn(vec_to_hash_set(&input.not_in_set)));
            }
        },
    }

    Err(Format::DeserializationError("deserialization error: invalid id".to_string()))
}

/// The integer constraints that this version can carry: those whose set, if
/// any, is not empty.
pub open spec fn int_constraint_readable(t: IntConstraintModel) -> bool {
    match t {
        IntConstraintModel::In(s) => s != Set::<i64>::empty(),
        IntConstraintModel::NotIn(s) => s != Set::<i64>::empty(),
        _ => true,
    }
}

/// A list of the elements of a set that is not empty is not empty.
pub proof fn lemma_list_of_nonempty_set<T>(v: Seq<T>, s: Set<T>)
    requires
        lists_set(v, s),
        s != Set::<T>::empty(),
    ensures
        v.len() > 0,
{
    if v.len() == 0 {
        assert(s =~= Set::<T>::empty());
    }
}

/// Decoding the encoding of an integer constraint gives the constraint back,
/// unless its set is empty.
pub proof fn lemma_int_constraint_roundtrip(p: schema::IntConstraintV0, t: IntConstraintModel)
    requires
        int_constraint_encoded(p, t),
        int_constraint_readable(t),
    ensures
        int_constraint_decoded(p) == Ok::<IntConstraintModel, FormatModel>(t),
{
    match t {
        IntConstraintModel::In(s) => lemma_list_of_nonempty_set(p.in_set@, s),
        IntConstraintModel::NotIn(s) => lemma_list_of_nonempty_set(p.not_in_set@, s),
        _ => {},
    }
}

// ---------------------------------------------------------------------------
// String constraints
// ---------------------------------------------------------------------------

/// Which of the optional fields of a string constraint are set.
pub open spec fn str_constraint_options_set(
    p: schema::StringConstraintV0,
    prefix: bool,
    suffix: bool,
    equal: bool,
    regex: bool,
) -> bool {
    &&& (p.prefix is Some) == prefix
    &&& (p.suffix is Some) == suffix
    &&& (p.equal is Some) == equal
    &&& (p.regex is Some) == regex
}

/// `p` is the encoding of the string constraint `t`.
pub open spec fn str_constraint_encoded(p: schema::StringConstraintV0, t: StrConstraintModel) -> bool {
    match t {
        StrConstraintModel::Prefix(s) => p.kind == StringConstraintV0Kind::Prefix.spec_to_i32() && (
        p.prefix matches Some(x) && x@ == s) && str_constraint_options_set(p, true, false, false, false)
            && p.in_set@.len() == 0 && p.not_in_set@.len() == 0,
        StrConstraintModel::Suffix(s) => p.kind == StringConstraintV0Kind::Suffix.spec_to_i32() && (
        p.suffix matches Some(x) && x@ == s) && str_constraint_options_set(p, false, true, false, false)
            && p.in_set@.len() == 0 && p.not_in_set@.len() == 0,
        StrConstraintModel::Equal(s) => p.kind == StringConstraintV0Kind::Equal.spec_to_i32() && (
        p.equal matches Some(x) && x@ == s) && str_constraint_options_set(p, false, false, true, false)
            && p.in_set@.len() == 0 && p.not_in_set@.len() == 0,
        StrConstraintModel::Regex(s) => p.kind == StringConstraintV0Kind::Regex.spec_to_i32() && (
        p.regex matches Some(x) && x@ == s) && str_constraint_options_set(p, false, false, false, true)
            && p.in_set@.len() == 0 && p.not_in_set@.len() == 0,
        StrConstraintModel::In(s) => p.kind == StringConstraintV0Kind::In.spec_to_i32()
            && str_constraint_options_set(p, false, false, false, false) && lists_set(
            views(p.in_set@),
            s,
        ) && p.not_in_set@.len() == 0,
        StrConstraintModel::NotIn(s) => p.kind == StringConstraintV0Kind::NotIn.spec_to_i32()
            && str_constraint_options_set(p, false, false, false, false) && p.in_set@.len() == 0
            && lists_set(views(p.not_in_set@), s),
    }
}

/// The string constraint that `p` decodes to, or the error.
pub open spec fn str_constraint_decoded(p: schema::StringConstraintV0) -> Result<
    StrConstraintModel,
    FormatModel,
> {
    let invalid = deserialization("deserialization error: invalid string constraint"@);
    match StringConstraintV0Kind::spec_from_i32(p.kind) {
        None => Err(deserialization("deserialization error: invalid string constraint kind"@)),
        Some(StringConstraintV0Kind::Prefix) => match p.prefix {
            Some(s) => Ok(StrConstraintModel::Prefix(s@)),
            None => Err(invalid),
        },
        Some(StringConstraintV0Kind::Suffix) => match p.suffix {
            Some(s) => Ok(StrConstraintModel::Suffix(s@)),
            None => Err(invalid),
        },
        Some(StringConstraintV0Kind::Equal) => match p.equal {
            Some(s) => Ok(StrConstraintModel::Equal(s@)),
            None => Err(invalid),
        },
        Some(StringConstraintV0Kind::Regex) => match p.regex {
            Some(s) => Ok(StrConstraintModel::Regex(s@)),
            None => Err(invalid),
        },
        Some(StringConstraintV0Kind::In) => if p.in_set@.len() > 0 {
            Ok(StrConstraintModel::In(view_set(p.in_set@)))
        } else {
            Err(invalid)
        },
        Some(StringConstraintV0Kind::NotIn) => if p.not_in_set@.len() > 0 {
            Ok(StrConstraintModel::NotIn(view_set(p.not_in_set@)))
        } else {
            Err(invalid)
        },
    }
}

pub fn token_str_constraint_to_proto_str_constraint(input: &StrConstraint) -> (res:
    schema::StringConstraintV0)
    requires
        input.wf(),
    ensures
        str_constraint_encoded(res, input@),
{
    match input {
        StrConstraint::Prefix(s) => schema::StringConstraintV0 {
            kind: StringConstraintV0Kind::Prefix.to_i32(),
            prefix: Some(s.clone()),
            suffix: None,
            equal: None,
            in_set: Vec::new(),
            not_in_set: Vec::new(),
            regex: None,
        },
        StrConstraint::Suffix(s) => schema::StringConstraintV0 {
            kind: StringConstraintV0Kind::Suffix.to_i32(),
            prefix: None,
            suffix: Some(s.clone()),
            equal: None,
            in_set: Vec::new(),
            not_in_set: Vec::new(),
            regex: None,
        },
        StrConstraint::Equal(s) => schema::StringConstraintV0 {
            kind: StringConstraintV0Kind::Equal.to_i32(),
            prefix: None,
            suffix: None,
            equal: Some(s.clone()),
            in_set: Vec::new(),
            not_in_set: Vec::new(),
            regex: None,
        },
        StrConstraint::Regex(r) => schema::StringConstraintV0 {
            kind: StringConstraintV0Kind::Regex.to_i32(),
            prefix: None,
            suffix: None,
            equal: None,
            in_set: Vec::new(),
            not_in_set: Vec::new(),
            regex: Some(r.clone()),
        },
        StrConstraint::In(s) => schema::StringConstraintV0 {
            kind: StringConstraintV0Kind::In.to_i32(),
            prefix: None,
            suffix: None,
            equal: None,
            in_set: copy_strings(s),
            not_in_set: Vec::new(),
            regex: None,
        },
        StrConstraint::NotIn(s) => schema::StringConstraintV0 {
            kind: StringConstraintV0Kind::NotIn.to_i32(),
            prefix: None,
            suffix: None,
            equal: None,
            in_set: Vec::new(),
            not_in_set: copy_strings(s),
            regex: None,
        },
    }
}

pub fn proto_str_constraint_to_token_str_constraint(input: &schema::StringConstraintV0) -> (res:
    Result<StrConstraint, Format>)
    ensures
        result_view(res) == str_constraint_decoded(*input),
        res matches Ok(c) ==> c.wf(),
{
    let kind = if let Some(i) = StringConstraintV0Kind::from_i32(input.kind) {
        i
    } else {
        return Err(
            Format::DeserializationError(
                "deserialization error: invalid string constraint kind".to_string(),
            ),
        );
    };

    match kind {
        StringConstraintV0Kind::Prefix => {
            if let Some(s) = &input.prefix {
                return Ok(StrConstraint::Prefix(s.clone()));
            }
        },
        StringConstraintV0Kind::Suffix => {
            if let Some(s) = &input.suffix {
                return Ok(StrConstraint::Suffix(s.clone()));
            }
        },
        StringConstraintV0Kind::Equal => {
            if let Some(s) = &input.equal {
                return Ok(StrConstraint::Equal(s.clone()));
            }
        },
        StringConstraintV0Kind::Regex => {
            if let Some(r) = &input.regex {
                return Ok(StrConstraint::Regex(r.clone()));
            }
        },
        StringConstraintV0Kind::In => {
            if !input.in_set.is_empty() {
                return Ok(StrConstraint::In(distinct_strings(&input.in_set)));
            }
        },
        StringConstraintV0Kind::NotIn => {
            if !input.not_in_set.is_empty() {
                return Ok(StrConstraint::NotIn(distinct_strings(&input.not_in_set)));
            }
        },
    }

    Err(
        Format::DeserializationError(
            "deserialization error: invalid string constraint".to_string(),
        ),
    )
}

/// The string constraints that this version can carry: those whose set, if
/// any, is not empty.
pub open spec fn str_constraint_readable(t: StrConstraintModel) -> bool {
    match t {
        StrConstraintModel::In(s) => s != Set::<Seq<char>>::empty(),
        StrConstraintModel::NotIn(s) => s != Set::<Seq<char>>::empty(),
        _ => true,
    }
}

/// Decoding the encoding of a string constraint gives the constraint back,
/// unless its set is empty.
pub proof fn lemma_str_constraint_roundtrip(p: schema::StringConstraintV0, t: StrConstraintModel)
    requires
        str_constraint_encoded(p, t),
        str_constraint_readable(t),
    ensures
        str_constraint_decoded(p) == Ok::<StrConstraintModel, FormatModel>(t),
{
    match t {
        StrConstraintModel::In(s) => lemma_list_of_nonempty_set(views(p.in_set@), s),
        StrConstraintModel::NotIn(s) => lemma_list_of_nonempty_set(views(p.not_in_set@), s),
        _ => {},
    }
}

// ---------------------------------------------------------------------------
// Date constraints
// ---------------------------------------------------------------------------

/// `p` is the encoding of the date constraint `t`.
pub open spec fn date_constraint_encoded(p: schema::DateConstraintV0, t: DateConstraint) -> bool {
    match t {
        DateConstraint::Before(i) => p.kind == DateConstraintV0Kind::Before.spec_to_i32()
            && p.before == Some(i) && p.after is None,
        DateConstraint::After(i) => p.kind == DateConstraintV0Kind::After.spec_to_i32()
            && p.before is None && p.after == Some(i),
    }
}

/// The date constraint that `p` decodes to, or the error.
pub open spec fn date_constraint_decoded(p: schema::DateConstraintV0) -> Result<
    DateConstraint,
    FormatModel,
> {
    let invalid = deserialization("deserialization error: invalid date constraint"@);
    match DateConstraintV0Kind::spec_from_i32(p.kind) {
        None => Err(deserialization("deserialization error: invalid date constraint kind"@)),
        Some(DateConstraintV0Kind::Before) => match p.before {
            Some(i) => Ok(DateConstraint::Before(i)),
            None => Err(invalid),
        },
        Some(DateConstraintV0Kind::After) => match p.after {
            Some(i) => Ok(DateConstraint::After(i)),
            None => Err(invalid),
        },
    }
}

pub fn token_date_constraint_to_proto_date_constraint(input: &DateConstraint) -> (res:
    schema::DateConstraintV0)
    ensures
        date_constraint_encoded(res, input@),
{
    match input {
        DateConstraint::Before(i) => schema::DateConstraintV0 {
            kind: DateConstraintV0Kind::Before.to_i32(),
            before: Some(*i),
            after: None,
        },
        DateConstraint::After(i) => schema::DateConstraintV0 {
            kind: DateConstraintV0Kind::After.to_i32(),
            before: None,
            after: Some(*i),
        },
    }
}

pub fn proto_date_constraint_to_token_date_constraint(input: &schema::DateConstraintV0) -> (res:
    Result<DateConstraint, Format>)
    ensures
        result_view(res) == date_constraint_decoded(*input),
{
    let kind = if let Some(i) = DateConstraintV0Kind::from_i32(input.kind) {
        i
    } else {
        return Err(
            Format::DeserializationError(
                "deserialization error: invalid date constraint kind".to_string(),
            ),
        );
    };

    match kind {
        DateConstraintV0Kind::Before => {
            if let Some(i) = input.before {
                return Ok(DateConstraint::Before(i));
            }
        },
        DateConstraintV0Kind::After => {
            if let Some(i) = input.after {
                return Ok(DateConstraint::After(i));
            }
        },
    }

    Err(
        Format::DeserializationError(
            "deserialization error: invalid date constraint".to_string(),
        ),
    )
}

/// Decoding the encoding of a date constraint gives the constraint back.
pub proof fn lemma_date_constraint_roundtrip(p: schema::DateConstraintV0, t: DateConstraint)
    requires
        date_constraint_encoded(p, t),
    ensures
        date_constraint_decoded(p) == Ok::<DateConstraint, FormatModel>(t),
{
}

// ---------------------------------------------------------------------------
// Symbol constraints
// ---------------------------------------------------------------------------

/// `p` is the encoding of the symbol constraint `t`.
pub open spec fn symbol_constraint_encoded(
    p: schema::SymbolConstraintV0,
    t: SymbolConstraintModel,
) -> bool {
    match t {
        SymbolConstraintModel::In(s) => p.kind == SymbolConstraintV0Kind::In.spec_to_i32()
            && lists_set(p.in_set@, s) && p.not_in_set@.len() == 0,
        SymbolConstraintModel::NotIn(s) => p.kind == SymbolConstraintV0Kind::NotIn.spec_to_i32()
            && p.in_set@.len() == 0 && lists_set(p.not_in_set@, s),
    }
}

/// The symbol constraint that `p` decodes to, or the error.
pub open spec fn symbol_constraint_decoded(p: schema::SymbolConstraintV0) -> Result<
    SymbolConstraintModel,
    FormatModel,
> {
    let invalid = deserialization("deserialization error: invalid symbol constraint"@);
    match SymbolConstraintV0Kind::spec_from_i32(p.kind) {
        None => Err(deserialization("deserialization error: invalid symbol constraint kind"@)),
        Some(SymbolConstraintV0Kind::In) => if p.in_set@.len() > 0 {
            Ok(SymbolConstraintModel::In(p.in_set@.to_set()))
        } else {
            Err(invalid)
        },
        Some(SymbolConstraintV0Kind::NotIn) => if p.not_in_set@.len() > 0 {
            Ok(SymbolConstraintModel::NotIn(p.not_in_set@.to_set()))
        } else {
            Err(invalid)
        },
    }
}

pub fn token_symbol_constraint_to_proto_symbol_constraint(input: &SymbolConstraint) -> (res:
    schema::SymbolConstraintV0)
    ensures
        symbol_constraint_encoded(res, input@),
{
    match input {
        SymbolConstraint::In(s) => schema::SymbolConstraintV0 {
            kind: SymbolConstraintV0Kind::In.to_i32(),
            in_set: hash_set_to_vec(s),
            not_in_set: Vec::new(),
        },
        SymbolConstraint::NotIn(s) => schema::SymbolConstraintV0 {
            kind: SymbolConstraintV0Kind::NotIn.to_i32(),
            in_set: Vec::new(),
            not_in_set: hash_set_to_vec(s),
        },
    }
}

pub fn proto_symbol_constraint_to_token_symbol_constraint(input: &schema::SymbolConstraintV0) -> (res:
    Result<SymbolConstraint, Format>)
    ensures
        result_view(res) == symbol_constraint_decoded(*input),
{
    let kind = if let Some(i) = SymbolConstraintV0Kind::from_i32(input.kind) {
        i
    } else {
        return Err(
            Format::DeserializationError(
                "deserialization error: invalid symbol constraint kind".to_string(),
            ),
        );
    };

    match kind {
        SymbolConstraintV0Kind::In => {
            if !input.in_set.is_empty() {
                return Ok(SymbolConstraint::In(vec_to_hash_set(&input.in_set)));
            }
        },
        SymbolConstraintV0Kind::NotIn => {
            if !input.not_in_set.is_empty() {
                return Ok(SymbolConstraint::NotIn(vec_to_hash_set(&input.not_in_set)));
            }
        },
    }

    Err(
        Format::DeserializationError(
            "deserialization error: invalid symbol constraint".to_string(),
        ),
    )
}

/// The symbol constraints that this version can carry: those whose set is not
/// empty.
pub open spec fn symbol_constraint_readable(t: SymbolConstraintModel) -> bool {
    match t {
        SymbolConstraintModel::In(s) => s != Set::<u64>::empty(),
        SymbolConstraintModel::NotIn(s) => s != Set::<u64>::empty(),
    }
}

/// Decoding the encoding of a symbol constraint gives the constraint back,
/// unless its set is empty.
pub proof fn lemma_symbol_constraint_roundtrip(
    p: schema::SymbolConstraintV0,
    t: SymbolConstraintModel,
)
    requires
        symbol_constraint_encoded(p, t),
        symbol_constraint_readable(t),
    ensures
        symbol_constraint_decoded(p) == Ok::<SymbolConstraintModel, FormatModel>(t),
{
    match t {
        SymbolConstraintModel::In(s) => lemma_list_of_nonempty_set(p.in_set@, s),
        SymbolConstraintModel::NotIn(s) => lemma_list_of_nonempty_set(p.not_in_set@, s),
    }
}

// ---------------------------------------------------------------------------
// Byte string constraints
// ---------------------------------------------------------------------------

/// `p` is the encoding of the byte string constraint `t`.
pub open spec fn bytes_constraint_encoded(p: schema::BytesConstraintV0, t: BytesConstraintModel) -> bool {
    match t {
        BytesConstraintModel::Equal(b) => p.kind == BytesConstraintV0Kind::Equal.spec_to_i32() && (
        p.equal matches Some(x) && x@ == b) && p.in_set@.len() == 0 && p.not_in_set@.len() == 0,
        BytesConstraintModel::In(s) => p.kind == BytesConstraintV0Kind::In.spec_to_i32()
            && p.equal is None && lists_set(views(p.in_set@), s) && p.not_in_set@.len() == 0,
        BytesConstraintModel::NotIn(s) => p.kind == BytesConstraintV0Kind::NotIn.spec_to_i32()
            && p.equal is None && p.in_set@.len() == 0 && lists_set(views(p.not_in_set@), s),
    }
}

/// The byte string constraint that `p` decodes to, or the error. (A missing
/// field is reported with the text of the string constraints.)
pub open spec fn bytes_constraint_decoded(p: schema::BytesConstraintV0) -> Result<
    BytesConstraintModel,
    FormatModel,
> {
    let invalid = deserialization("deserialization error: invalid string constraint"@);
    match BytesConstraintV0Kind::spec_from_i32(p.kind) {
        None => Err(deserialization("deserialization error: invalid bytes constraint kind"@)),
        Some(BytesConstraintV0Kind::Equal) => match p.equal {
            Some(s) => Ok(BytesConstraintModel::Equal(s@)),
            None => Err(invalid),
        },
        Some(BytesConstraintV0Kind::In) => if p.in_set@.len() > 0 {
            Ok(BytesConstraintModel::In(view_set(p.in_set@)))
        } else {
            Err(invalid)
        },
        Some(BytesConstraintV0Kind::NotIn) => if p.not_in_set@.len() > 0 {
            Ok(BytesConstraintModel::NotIn(view_set(p.not_in_set@)))
        } else {
            Err(invalid)
        },
    }
}

pub fn token_bytes_constraint_to_proto_bytes_constraint(input: &BytesConstraint) -> (res:
    schema::BytesConstraintV0)
    requires
        input.wf(),
    ensures
        bytes_constraint_encoded(res, input@),
{
    match input {
        BytesConstraint::Equal(s) => schema::BytesConstraintV0 {
            kind: BytesConstraintV0Kind::Equal.to_i32(),
            equal: Some(copy_bytes(s)),
            in_set: Vec::new(),
            not_in_set: Vec::new(),
        },
        BytesConstraint::In(s) => schema::BytesConstraintV0 {
            kind: BytesConstraintV0Kind::In.to_i32(),
            equal: None,
            in_set: copy_byte_strings(s),
            not_in_set: Vec::new(),
        },
        BytesConstraint::NotIn(s) => schema::BytesConstraintV0 {
            kind: BytesConstraintV0Kind::NotIn.to_i32(),
            equal: None,
            in_set: Vec::new(),
            not_in_set: copy_byte_strings(s),
        },
    }
}

pub fn proto_bytes_constraint_to_token_bytes_constraint(input: &schema::BytesConstraintV0) -> (res:
    Result<BytesConstraint, Format>)
    ensures
        result_view(res) == bytes_constraint_decoded(*input),
        res matches Ok(c) ==> c.wf(),
{
    let kind = if let Some(i) = BytesConstraintV0Kind::from_i32(input.kind) {
        i
    } else {
        return Err(
            Format::DeserializationError(
                "deserialization error: invalid bytes constraint kind".to_string(),
            ),
        );
    };

    match kind {
        BytesConstraintV0Kind::Equal => {
            if let Some(s) = &input.equal {
                return Ok(BytesConstraint::Equal(copy_bytes(s)));
            }
        },
        BytesConstraintV0Kind::In => {
            if !input.in_set.is_empty() {
                return Ok(BytesConstraint::In(distinct_byte_strings(&input.in_set)));
            }
        },
        BytesConstraintV0Kind::NotIn => {
            if !input.not_in_set.is_empty() {
                return Ok(BytesConstraint::NotIn(distinct_byte_strings(&input.not_in_set)));
            }
        },
    }

    Err(
        Format::DeserializationError(
            "deserialization error: invalid string constraint".to_string(),
        ),
    )
}

/// The byte string constraints that this version can carry: those whose set,
/// if any, is not empty.
pub open spec fn bytes_constraint_readable(t: BytesConstraintModel) -> bool {
    match t {
        BytesConstraintModel::In(s) => s != Set::<Seq<u8>>::empty(),
        BytesConstraintModel::NotIn(s) => s != Set::<Seq<u8>>::empty(),
        _ => true,
    }
}

/// Decoding the encoding of a byte string constraint gives the constraint
/// back, unless its set is empty.
pub proof fn lemma_bytes_constraint_roundtrip(p: schema::BytesConstraintV0, t: BytesConstraintModel)
    requires
        bytes_constraint_encoded(p, t),
        bytes_constraint_readable(t),
    ensures
        bytes_constraint_decoded(p) == Ok::<BytesConstraintModel, FormatModel>(t),
{
    match t {
        BytesConstraintModel::In(s) => lemma_list_of_nonempty_set(views(p.in_set@), s),
        BytesConstraintModel::NotIn(s) => lemma_list_of_nonempty_set(views(p.not_in_set@), s),
        _ => {},
    }
}

// ---------------------------------------------------------------------------
// Constraints
// ---------------------------------------------------------------------------

/// Which of the optional fields of a constraint are set.
pub open spec fn constraint_fields_set(
    p: schema::ConstraintV0,
    int_set: bool,
    str_set: bool,
    date_set: bool,
    symbol_set: bool,
    bytes_set: bool,
) -> bool {
    &&& (p.int is Some) == int_set
    &&& (p.str is Some) == str_set
    &&& (p.date is Some) == date_set
    &&& (p.symbol is Some) == symbol_set
    &&& (p.bytes is Some) == bytes_set
}

/// `p` is the encoding of the constraint `t`. A symbol constraint is written
/// with the kind number of a date constraint.
pub open spec fn constraint_encoded(p: schema::ConstraintV0, t: ConstraintModel) -> bool {
    &&& p.id == t.id
    &&& match t.kind {
        ConstraintKindModel::Int(c) => p.kind == ConstraintV0Kind::Int.spec_to_i32() && (
        p.int matches Some(x) && int_constraint_encoded(x, c)) && constraint_fields_set(
            p,
            true,
            false,
            false,
            false,
            false,
        ),
        ConstraintKindModel::Str(c) => p.kind == ConstraintV0Kind::String.spec_to_i32() && (
        p.str matches Some(x) && str_constraint_encoded(x, c)) && constraint_fields_set(
            p,
            false,
            true,
            false,
            false,
            false,
        ),
        ConstraintKindModel::Date(c) => p.kind == ConstraintV0Kind::Date.spec_to_i32() && (
        p.date matches Some(x) && date_constraint_encoded(x, c)) && constraint_fields_set(
            p,
            false,
            false,
            true,
            false,
            false,
        ),
        ConstraintKindModel::Symbol(c) => p.kind == ConstraintV0Kind::Date.spec_to_i32() && (
        p.symbol matches Some(x) && symbol_constraint_encoded(x, c)) && constraint_fields_set(
            p,
            false,
            false,
            false,
            true,
            false,
        ),
        ConstraintKindModel::Bytes(c) => p.kind == ConstraintV0Kind::Bytes.spec_to_i32() && (
        p.bytes matches Some(x) && bytes_constraint_encoded(x, c)) && constraint_fields_set(
            p,
            false,
            false,
            false,
            false,
            true,
        ),
    }
}

/// The constraint that `p` decodes to, or the error.
pub open spec fn constraint_decoded(p: schema::ConstraintV0) -> Result<ConstraintModel, FormatModel> {
    let invalid = deserialization("deserialization error: invalid constraint"@);
    match ConstraintV0Kind::spec_from_i32(p.kind) {
        None => Err(deserialization("deserialization error: invalid constraint kind"@)),
        Some(ConstraintV0Kind::Int) => match p.int {
            Some(i) => match int_constraint_decoded(i) {
                Ok(c) => Ok(ConstraintModel { id: p.id, kind: ConstraintKindModel::Int(c) }),
                Err(e) => Err(e),
            },
            None => Err(invalid),
        },
        Some(ConstraintV0Kind::String) => match p.str {
            Some(i) => match str_constraint_decoded(i) {
                Ok(c) => Ok(ConstraintModel { id: p.id, kind: ConstraintKindModel::Str(c) }),
                Err(e) => Err(e),
            },
            None => Err(invalid),
        },
        Some(ConstraintV0Kind::Date) => match p.date {
            Some(i) => match date_constraint_decoded(i) {
                Ok(c) => Ok(ConstraintModel { id: p.id, kind: ConstraintKindModel::Date(c) }),
                Err(e) => Err(e),
            },
            None => Err(invalid),
        },
        Some(ConstraintV0Kind::Symbol) => match p.symbol {
            Some(i) => match symbol_constraint_decoded(i) {
                Ok(c) => Ok(ConstraintModel { id: p.id, kind: ConstraintKindModel::Symbol(c) }),
                Err(e) => Err(e),
            },
            None => Err(invalid),
        },
        Some(ConstraintV0Kind::Bytes) => match p.bytes {
            Some(i) => match bytes_constraint_decoded(i) {
                Ok(c) => Ok(ConstraintModel { id: p.id, kind: ConstraintKindModel::Bytes(c) }),
                Err(e) => Err(e),
            },
            None => Err(invalid),
        },
    }
}

pub open spec fn constraint_encoding() -> spec_fn(schema::ConstraintV0, ConstraintModel) -> bool {
    |p: schema::ConstraintV0, t: ConstraintModel| constraint_encoded(p, t)
}

pub open spec fn constraint_decoder() -> spec_fn(schema::ConstraintV0) -> Result<
    ConstraintModel,
    FormatModel,
> {
    |p: schema::ConstraintV0| constraint_decoded(p)
}

pub fn token_constraint_to_proto_constraint(input: &Constraint) -> (res: schema::ConstraintV0)
    requires
        input.wf(),
    ensures
        constraint_encoded(res, input@),
{
    match input.kind {
        ConstraintKind::Int(ref c) => schema::ConstraintV0 {
            id: input.id,
            kind: ConstraintV0Kind::Int.to_i32(),
            int: Some(token_int_constraint_to_proto_int_constraint(c)),
            str: None,
            date: None,
            symbol: None,
            bytes: None,
        },
        ConstraintKind::Str(ref c) => schema::ConstraintV0 {
            id: input.id,
            kind: ConstraintV0Kind::String.to_i32(),
            int: None,
            str: Some(token_str_constraint_to_proto_str_constraint(c)),
            date: None,
            symbol: None,
            bytes: None,
        },
        ConstraintKind::Date(ref c) => schema::ConstraintV0 {
            id: input.id,
            kind: ConstraintV0Kind::Date.to_i32(),
            int: None,
            str: None,
            date: Some(token_date_constraint_to_proto_date_constraint(c)),
            symbol: None,
            bytes: None,
        },
        ConstraintKind::Symbol(ref c) => schema::ConstraintV0 {
            id: input.id,
            kind: ConstraintV0Kind::Date.to_i32(),
            int: None,
            str: None,
            date: None,
            symbol: Some(token_symbol_constraint_to_proto_symbol_constraint(c)),
            bytes: None,
        },
        ConstraintKind::Bytes(ref c) => schema::ConstraintV0 {
            id: input.id,
            kind: ConstraintV0Kind::Bytes.to_i32(),
            int: None,
            str: None,
            date: None,
            symbol: None,
            bytes: Some(token_bytes_constraint_to_proto_bytes_constraint(c)),
        },
    }
}

pub fn proto_constraint_to_token_constraint(input: &schema::ConstraintV0) -> (res: Result<
    Constraint,
    Format,
>)
    ensures
        result_view(res) == constraint_decoded(*input),
        res matches Ok(c) ==> c.wf(),
{
    let kind = if let Some(i) = ConstraintV0Kind::from_i32(input.kind) {
        i
    } else {
        return Err(
            Format::DeserializationError(
                "deserialization error: invalid constraint kind".to_string(),
            ),
        );
    };

    match kind {
        ConstraintV0Kind::Int => {
            if let Some(i) = &input.int {
                return match proto_int_constraint_to_token_int_constraint(i) {
                    Ok(c) => Ok(Constraint { id: input.id, kind: ConstraintKind::Int(c) }),
                    Err(e) => Err(e),
                };
            }
        },
        ConstraintV0Kind::String => {
            if let Some(i) = &input.str {
                return match proto_str_constraint_to_token_str_constraint(i) {
                    Ok(c) => Ok(Constraint { id: input.id, kind: ConstraintKind::Str(c) }),
                    Err(e) => Err(e),
                };
            }
        },
        ConstraintV0Kind::Date => {
            if let Some(i) = &input.date {
                return match proto_date_constraint_to_token_date_constraint(i) {
                    Ok(c) => Ok(Constraint { id: input.id, kind: ConstraintKind::Date(c) }),
                    Err(e) => Err(e),
                };
            }
        },
        ConstraintV0Kind::Symbol => {
            if let Some(i) = &input.symbol {
                return match proto_symbol_constraint_to_token_symbol_constraint(i) {
                    Ok(c) => Ok(Constraint { id: input.id, kind: ConstraintKind::Symbol(c) }),
                    Err(e) => Err(e),
                };
            }
        },
        ConstraintV0Kind::Bytes => {
            if let Some(i) = &input.bytes {
                return match proto_bytes_constraint_to_token_bytes_constraint(i) {
                    Ok(c) => Ok(Constraint { id: input.id, kind: ConstraintKind::Bytes(c) }),
                    Err(e) => Err(e),
                };
            }
        },
    }

    Err(Format::DeserializationError("deserialization error: invalid constraint".to_string()))
}

/// The constraints that this version carries back: no symbol constraint (it is
/// written with the kind number of a date constraint) and no empty set.
pub open spec fn constraint_readable(t: ConstraintModel) -> bool {
    match t.kind {
        ConstraintKindModel::Int(c) => int_constraint_readable(c),
        ConstraintKindModel::Str(c) => str_constraint_readable(c),
        ConstraintKindModel::Date(c) => true,
        ConstraintKindModel::Symbol(c) => false,
        ConstraintKindModel::Bytes(c) => bytes_constraint_readable(c),
    }
}

/// Decoding the encoding of a constraint gives the constraint back, unless it
/// is a symbol constraint or its set is empty.
pub proof fn lemma_constraint_roundtrip(p: schema::ConstraintV0, t: ConstraintModel)
    requires
        constraint_encoded(p, t),
        constraint_readable(t),
    ensures
        constraint_decoded(p) == Ok::<ConstraintModel, FormatModel>(t),
{
    match t.kind {
        ConstraintKindModel::Int(c) => lemma_int_constraint_roundtrip(p.int->Some_0, c),
        ConstraintKindModel::Str(c) => lemma_str_constraint_roundtrip(p.str->Some_0, c),
        ConstraintKindModel::Date(c) => lemma_date_constraint_roundtrip(p.date->Some_0, c),
        ConstraintKindModel::Symbol(c) => {},
        ConstraintKindModel::Bytes(c) => lemma_bytes_constraint_roundtrip(p.bytes->Some_0, c),
    }
}

/// A symbol constraint written in this version does not read back: its kind
/// number is that of a date constraint, and it carries no date.
pub proof fn lemma_symbol_constraint_not_read_back(p: schema::ConstraintV0, t: ConstraintModel)
    requires
        constraint_encoded(p, t),
        t.kind is Symbol,
    ensures
        constraint_decoded(p) == Err::<ConstraintModel, FormatModel>(
            deserialization("deserialization error: invalid constraint"@),
        ),
{
}

// ---------------------------------------------------------------------------
// Rules and caveats
// ---------------------------------------------------------------------------

/// `p` is the encoding of the rule `t`.
pub open spec fn rule_encoded(p: schema::RuleV0, t: RuleModel) -> bool {
    &&& predicate_encoded(p.head, t.head)
    &&& encodes_all(p.body@, t.body, predicate_encoding())
    &&& encodes_all(p.constraints@, t.constraints, constraint_encoding())
}

/// The rule that `p` decodes to, or the first error: the body is read first,
/// then the constraints, then the head.
pub open spec fn rule_decoded(p: schema::RuleV0) -> Result<RuleModel, FormatModel> {
    match decode_seq(p.body@, predicate_decoder()) {
        Err(e) => Err(e),
        Ok(body) => match decode_seq(p.constraints@, constraint_decoder()) {
            Err(e) => Err(e),
            Ok(constraints) => match predicate_decoded(p.head) {
                Err(e) => Err(e),
                Ok(head) => Ok(RuleModel { head, body, constraints }),
            },
        },
    }
}

pub open spec fn rule_encoding() -> spec_fn(schema::RuleV0, RuleModel) -> bool {
    |p: schema::RuleV0, t: RuleModel| rule_encoded(p, t)
}

pub open spec fn rule_decoder() -> spec_fn(schema::RuleV0) -> Result<RuleModel, FormatModel> {
    |p: schema::RuleV0| rule_decoded(p)
}

pub fn token_rule_to_proto_rule(input: &Rule) -> (res: schema::RuleV0)
    requires
        input.wf(),
    ensures
        rule_encoded(res, input@),
{
    schema::RuleV0 {
        head: token_predicate_to_proto_predicate(&input.head),
        body: encode_vec(&input.body, token_predicate_to_proto_predicate, Ghost(predicate_encoding())),
        constraints: encode_vec(
            &input.constraints,
            token_constraint_to_proto_constraint,
            Ghost(constraint_encoding()),
        ),
    }
}

pub fn proto_rule_to_token_rule(input: &schema::RuleV0) -> (res: Result<Rule, Format>)
    ensures
        result_view(res) == rule_decoded(*input),
        res matches Ok(r) ==> r.wf(),
{
    let body = match decode_vec(
        &input.body,
        proto_predicate_to_token_predicate,
        Ghost(predicate_decoder()),
        Ghost(|p: Predicate| true),
    ) {
        Ok(body) => body,
        Err(e) => return Err(e),
    };
    let constraints = match decode_vec(
        &input.constraints,
        proto_constraint_to_token_constraint,
        Ghost(constraint_decoder()),
        Ghost(|c: Constraint| c.wf()),
    ) {
        Ok(constraints) => constraints,
        Err(e) => return Err(e),
    };
    match proto_predicate_to_token_predicate(&input.head) {
        Ok(head) => Ok(Rule { head, body, constraints }),
        Err(e) => Err(e),
    }
}

/// The rules that this version carries back: those whose constraints it
/// carries back.
pub open spec fn rule_readable(t: RuleModel) -> bool {
    forall|i: int| 0 <= i < t.constraints.len() ==> constraint_readable(#[trigger] t.constraints[i])
}

/// Encodings of constraints that read back.
pub open spec fn readable_constraint_encoding() -> spec_fn(schema::ConstraintV0, ConstraintModel) -> bool {
    |p: schema::ConstraintV0, t: ConstraintModel| constraint_encoded(p, t) && constraint_readable(t)
}

/// Decoding the encoding of a rule gives the rule back, when its constraints
/// read back.
pub proof fn lemma_rule_roundtrip(p: schema::RuleV0, t: RuleModel)
    requires
        rule_encoded(p, t),
        rule_readable(t),
    ensures
        rule_decoded(p) == Ok::<RuleModel, FormatModel>(t),
{
    assert forall|q: schema::PredicateV0, u: PredicateModel| #[trigger]
        predicate_encoding()(q, u) implies predicate_decoder()(q) == Ok::<
        PredicateModel,
        FormatModel,
    >(u) by {
        lemma_predicate_roundtrip(q, u);
    }
    assert forall|q: schema::ConstraintV0, u: ConstraintModel| #[trigger]
        readable_constraint_encoding()(q, u) implies constraint_decoder()(q) == Ok::<
        ConstraintModel,
        FormatModel,
    >(u) by {
        lemma_constraint_roundtrip(q, u);
    }
    assert forall|i: int| 0 <= i < p.constraints@.len() implies #[trigger]
        readable_constraint_encoding()(p.constraints@[i], t.constraints[i]) by {
        assert(constraint_encoding()(p.constraints@[i], t.constraints[i]));
        assert(constraint_readable(t.constraints[i]));
    }
    lemma_decode_encoded_seq(p.body@, t.body, predicate_encoding(), predicate_decoder());
    lemma_decode_encoded_seq(
        p.constraints@,
        t.constraints,
        readable_constraint_encoding(),
        constraint_decoder(),
    );
    lemma_predicate_roundtrip(p.head, t.head);
}

/// `p` is the encoding of the caveat `t`.
pub open spec fn caveat_encoded(p: schema::CaveatV0, t: Seq<RuleModel>) -> bool {
    encodes_all(p.queries@, t, rule_encoding())
}

/// The caveat that `p` decodes to, or the first error among its queries.
pub open spec fn caveat_decoded(p: schema::CaveatV0) -> Result<Seq<RuleModel>, FormatModel> {
    decode_seq(p.queries@, rule_decoder())
}

pub open spec fn caveat_encoding() -> spec_fn(schema::CaveatV0, Seq<RuleModel>) -> bool {
    |p: schema::CaveatV0, t: Seq<RuleModel>| caveat_encoded(p, t)
}

pub open spec fn caveat_decoder() -> spec_fn(schema::CaveatV0) -> Result<
    Seq<RuleModel>,
    FormatModel,
> {
    |p: schema::CaveatV0| caveat_decoded(p)
}

pub fn token_caveat_to_proto_caveat(input: &Caveat) -> (res: schema::CaveatV0)
    requires
        input.wf(),
    ensures
        caveat_encoded(res, input@),
{
    schema::CaveatV0 {
        queries: encode_vec(&input.queries, token_rule_to_proto_rule, Ghost(rule_encoding())),
    }
}

pub fn proto_caveat_to_token_caveat(input: &schema::CaveatV0) -> (res: Result<Caveat, Format>)
    ensures
        result_view(res) == caveat_decoded(*input),
        res matches Ok(c) ==> c.wf(),
{
    match decode_vec(
        &input.queries,
        proto_rule_to_token_rule,
        Ghost(rule_decoder()),
        Ghost(|r: Rule| r.wf()),
    ) {
        Ok(queries) => Ok(Caveat { queries }),
        Err(e) => Err(e),
    }
}

/// The caveats that this version carries back: those whose rules it carries
/// back.
pub open spec fn caveat_readable(t: Seq<RuleModel>) -> bool {
    forall|i: int| 0 <= i < t.len() ==> rule_readable(#[trigger] t[i])
}

/// Encodings of rules that read back.
pub open spec fn readable_rule_encoding() -> spec_fn(schema::RuleV0, RuleModel) -> bool {
    |p: schema::RuleV0, t: RuleModel| rule_encoded(p, t) && rule_readable(t)
}

/// Decoding the encoding of a caveat gives the caveat back, when its rules
/// read back.
pub proof fn lemma_caveat_roundtrip(p: schema::CaveatV0, t: Seq<RuleModel>)
    requires
        caveat_encoded(p, t),
        caveat_readable(t),
    ensures
        caveat_decoded(p) == Ok::<Seq<RuleModel>, FormatModel>(t),
{
    assert forall|q: schema::RuleV0, u: RuleModel| #[trigger]
        readable_rule_encoding()(q, u) implies rule_decoder()(q) == Ok::<RuleModel, FormatModel>(u) by {
        lemma_rule_roundtrip(q, u);
    }
    assert forall|i: int| 0 <= i < p.queries@.len() implies #[trigger]
        readable_rule_encoding()(p.queries@[i], t[i]) by {
        assert(rule_encoding()(p.queries@[i], t[i]));
        assert(rule_readable(t[i]));
    }
    lemma_decode_encoded_seq(p.queries@, t, readable_rule_encoding(), rule_decoder());
}

// ---------------------------------------------------------------------------
// Laws: what each conversion does, kind number by kind number
// ---------------------------------------------------------------------------

/// A term message decodes by its kind number: 0 reads `symbol` as a symbol,
/// 1 `variable` as a variable, 2 `integer` as an integer, 3 `str` as a
/// string, 4 `date` as a date and 5 `bytes` as a byte string; the field of
/// the kind must be set, and another number is refused.
pub proof fn law_id_decoding(p: schema::Idv0)
    ensures
        (p.kind < 0 || p.kind > 5) ==> id_decoded(p) == Err::<IDModel, FormatModel>(
            deserialization("deserialization error: invalid id kind"@),
        ),
        p.kind == 0 ==> id_decoded(p) == match p.symbol {
            Some(v) => Ok::<IDModel, FormatModel>(IDModel::Symbol(v)),
            None => Err(deserialization("deserialization error: invalid id"@)),
        },
        p.kind == 1 ==> id_decoded(p) == match p.variable {
            Some(v) => Ok::<IDModel, FormatModel>(IDModel::Variable(v)),
            None => Err(deserialization("deserialization error: invalid id"@)),
        },
        p.kind == 2 ==> id_decoded(p) == match p.integer {
            Some(v) => Ok::<IDModel, FormatModel>(IDModel::Integer(v)),
            None => Err(deserialization("deserialization error: invalid id"@)),
        },
        p.kind == 3 ==> id_decoded(p) == match p.str {
            Some(v) => Ok::<IDModel, FormatModel>(IDModel::Str(v@)),
            None => Err(deserialization("deserialization error: invalid id"@)),
        },
        p.kind == 4 ==> id_decoded(p) == match p.date {
            Some(v) => Ok::<IDModel, FormatModel>(IDModel::Date(v)),
            None => Err(deserialization("deserialization error: invalid id"@)),
        },
        p.kind == 5 ==> id_decoded(p) == match p.bytes {
            Some(v) => Ok::<IDModel, FormatModel>(IDModel::Bytes(v@)),
            None => Err(deserialization("deserialization error: invalid id"@)),
        },
{
}

/// A term is written with the kind number of its variant (symbol 0, variable
/// 1, integer 2, string 3, date 4, byte string 5), its value in the field of
/// that name, and no other field set.
pub proof fn law_id_encoding(p: schema::Idv0, t: IDModel)
    requires
        id_encoded(p, t),
    ensures
        t matches IDModel::Symbol(v) ==> p.kind == 0 && p.symbol == Some(v),
        t matches IDModel::Variable(v) ==> p.kind == 1 && p.variable == Some(v),
        t matches IDModel::Integer(v) ==> p.kind == 2 && p.integer == Some(v),
        t matches IDModel::Str(v) ==> p.kind == 3 && (p.str matches Some(x) && x@ == v),
        t matches IDModel::Date(v) ==> p.kind == 4 && p.date == Some(v),
        t matches IDModel::Bytes(v) ==> p.kind == 5 && (p.bytes matches Some(x) && x@ == v),
        (p.symbol is Some) == (t is Symbol),
        (p.variable is Some) == (t is Variable),
        (p.integer is Some) == (t is Integer),
        (p.str is Some) == (t is Str),
        (p.date is Some) == (t is Date),
        (p.bytes is Some) == (t is Bytes),
{
}

/// A decoded predicate keeps the message's name and has the message's terms,
/// decoded one by one; it fails only when one of its terms fails, with that
/// term's error.
pub proof fn law_predicate_decoding(p: schema::PredicateV0)
    ensures
        predicate_decoded(p) matches Ok(t) ==> t.name == p.name && t.ids.len() == p.ids@.len()
            && forall|i: int|
            0 <= i < p.ids@.len() ==> id_decoded(#[trigger] p.ids@[i]) == Ok::<IDModel, FormatModel>(
                t.ids[i],
            ),
        predicate_decoded(p) matches Err(e) ==> exists|i: int|
            0 <= i < p.ids@.len() && id_decoded(#[trigger] p.ids@[i]) == Err::<IDModel, FormatModel>(
                e,
            ),
        (forall|i: int| 0 <= i < p.ids@.len() ==> (#[trigger] id_decoded(p.ids@[i])) is Ok)
            ==> predicate_decoded(p) is Ok,
{
    lemma_decode_seq_elementwise(p.ids@, id_decoder());
    assert forall|i: int| 0 <= i < p.ids@.len() implies id_decoder()(p.ids@[i]) == id_decoded(
        #[trigger] p.ids@[i],
    ) by {}
}

/// An encoded predicate has the predicate's name and its terms, encoded one
/// by one.
pub proof fn law_predicate_encoding(p: schema::PredicateV0, t: PredicateModel)
    requires
        predicate_encoded(p, t),
    ensures
        p.name == t.name,
        p.ids@.len() == t.ids.len(),
        forall|i: int| 0 <= i < t.ids.len() ==> id_encoded(#[trigger] p.ids@[i], t.ids[i]),
{
    assert forall|i: int| 0 <= i < t.ids.len() implies id_encoded(#[trigger] p.ids@[i], t.ids[i]) by {
        assert(id_encoding()(p.ids@[i], t.ids[i]));
    }
}

/// A fact is decoded and encoded as its predicate.
pub proof fn law_fact(p: schema::FactV0, t: PredicateModel)
    ensures
        fact_decoded(p) == predicate_decoded(p.predicate),
        fact_encoded(p, t) <==> predicate_encoded(p.predicate, t),
{
}

/// An integer constraint message decodes by its kind number: 0 reads `lower`
/// as "less than", 1 `larger` as "greater than", 2 `lower_or_equal` as "less
/// or equal", 3 `larger_or_equal` as "greater or equal", 4 `equal` as
/// "equal", 5 a non-empty `in_set` as "in" and 6 a non-empty `not_in_set` as
/// "not in"; anything else of a known kind is refused as an invalid id, and
/// another number as an invalid kind.
pub proof fn law_int_constraint_decoding(p: schema::IntConstraintV0)
    ensures
        (p.kind < 0 || p.kind > 6) ==> int_constraint_decoded(p) == Err::<
            IntConstraintModel,
            FormatModel,
        >(deserialization("deserialization error: invalid int constraint kind"@)),
        p.kind == 0 ==> int_constraint_decoded(p) == match p.lower {
            Some(v) => Ok::<IntConstraintModel, FormatModel>(IntConstraintModel::LessThan(v)),
            None => Err(deserialization("deserialization error: invalid id"@)),
        },
        p.kind == 1 ==> int_constraint_decoded(p) == match p.larger {
            Some(v) => Ok::<IntConstraintModel, FormatModel>(IntConstraintModel::GreaterThan(v)),
            None => Err(deserialization("deserialization error: invalid id"@)),
        },
        p.kind == 2 ==> int_constraint_decoded(p) == match p.lower_or_equal {
            Some(v) => Ok::<IntConstraintModel, FormatModel>(IntConstraintModel::LessOrEqual(v)),
            None => Err(deserialization("deserialization error: invalid id"@)),
        },
        p.kind == 3 ==> int_constraint_decoded(p) == match p.larger_or_equal {
            Some(v) => Ok::<IntConstraintModel, FormatModel>(IntConstraintModel::GreaterOrEqual(v)),
            None => Err(deserialization("deserialization error: invalid id"@)),
        },
        p.kind == 4 ==> int_constraint_decoded(p) == match p.equal {
            Some(v) => Ok::<IntConstraintModel, FormatModel>(IntConstraintModel::Equal(v)),
            None => Err(deserialization("deserialization error: invalid id"@)),
        },
        p.kind == 5 ==> int_constraint_decoded(p) == if p.in_set@.len() > 0 {
            Ok::<IntConstraintModel, FormatModel>(IntConstraintModel::In(p.in_set@.to_set()))
        } else {
            Err(deserialization("deserialization error: invalid id"@))
        },
        p.kind == 6 ==> int_constraint_decoded(p) == if p.not_in_set@.len() > 0 {
            Ok::<IntConstraintModel, FormatModel>(IntConstraintModel::NotIn(p.not_in_set@.to_set()))
        } else {
            Err(deserialization("deserialization error: invalid id"@))
        },
{
}

/// An integer constraint is written with the kind number and the field of
/// its variant ("less than": 0 and `lower`, "greater than": 1 and `larger`,
/// "less or equal": 2 and `lower_or_equal`, "greater or equal": 3 and
/// `larger_or_equal`, "equal": 4 and `equal`, "in": 5 and `in_set`, "not in":
/// 6 and `not_in_set`); no other field is set.
pub proof fn law_int_constraint_encoding(p: schema::IntConstraintV0, t: IntConstraintModel)
    requires
        int_constraint_encoded(p, t),
    ensures
        t matches IntConstraintModel::LessThan(v) ==> p.kind == 0 && p.lower == Some(v),
        t matches IntConstraintModel::GreaterThan(v) ==> p.kind == 1 && p.larger == Some(v),
        t matches IntConstraintModel::LessOrEqual(v) ==> p.kind == 2 && p.lower_or_equal == Some(v),
        t matches IntConstraintModel::GreaterOrEqual(v) ==> p.kind == 3 && p.larger_or_equal == Some(
            v,
        ),
        t matches IntConstraintModel::Equal(v) ==> p.kind == 4 && p.equal == Some(v),
        t matches IntConstraintModel::In(s) ==> p.kind == 5 && p.in_set@.to_set() == s
            && p.in_set@.no_duplicates(),
        t matches IntConstraintModel::NotIn(s) ==> p.kind == 6 && p.not_in_set@.to_set() == s
            && p.not_in_set@.no_duplicates(),
        (p.lower is Some) == (t is LessThan),
        (p.larger is Some) == (t is GreaterThan),
        (p.lower_or_equal is Some) == (t is LessOrEqual),
        (p.larger_or_equal is Some) == (t is GreaterOrEqual),
        (p.equal is Some) == (t is Equal),
        !(t is In) ==> p.in_set@.len() == 0,
        !(t is NotIn) ==> p.not_in_set@.len() == 0,
{
}

/// A string constraint message decodes by its kind number: 0 reads `prefix`,
/// 1 `suffix`, 2 `equal`, 3 `regex`, 4 a non-empty `in_set` and 5 a
/// non-empty `not_in_set`, each as the constraint of that name.
pub proof fn law_str_constraint_decoding(p: schema::StringConstraintV0)
    ensures
        (p.kind < 0 || p.kind > 5) ==> str_constraint_decoded(p) == Err::<
            StrConstraintModel,
            FormatModel,
        >(deserialization("deserialization error: invalid string constraint kind"@)),
        p.kind == 0 ==> str_constraint_decoded(p) == match p.prefix {
            Some(v) => Ok::<StrConstraintModel, FormatModel>(StrConstraintModel::Prefix(v@)),
            None => Err(deserialization("deserialization error: invalid string constraint"@)),
        },
        p.kind == 1 ==> str_constraint_decoded(p) == match p.suffix {
            Some(v) => Ok::<StrConstraintModel, FormatModel>(StrConstraintModel::Suffix(v@)),
            None => Err(deserialization("deserialization error: invalid string constraint"@)),
        },
        p.kind == 2 ==> str_constraint_decoded(p) == match p.equal {
            Some(v) => Ok::<StrConstraintModel, FormatModel>(StrConstraintModel::Equal(v@)),
            None => Err(deserialization("deserialization error: invalid string constraint"@)),
        },
        p.kind == 3 ==> str_constraint_decoded(p) == match p.regex {
            Some(v) => Ok::<StrConstraintModel, FormatModel>(StrConstraintModel::Regex(v@)),
            None => Err(deserialization("deserialization error: invalid string constraint"@)),
        },
        p.kind == 4 ==> str_constraint_decoded(p) == if p.in_set@.len() > 0 {
            Ok::<StrConstraintModel, FormatModel>(StrConstraintModel::In(views(p.in_set@).to_set()))
        } else {
            Err(deserialization("deserialization error: invalid string constraint"@))
        },
        p.kind == 5 ==> str_constraint_decoded(p) == if p.not_in_set@.len() > 0 {
            Ok::<StrConstraintModel, FormatModel>(
                StrConstraintModel::NotIn(views(p.not_in_set@).to_set()),
            )
        } else {
            Err(deserialization("deserialization error: invalid string constraint"@))
        },
{
}

/// A string constraint is written with the kind number and the field of its
/// variant (prefix 0, suffix 1, equal 2, regex 3, in 4, not in 5).
pub proof fn law_str_constraint_encoding(p: schema::StringConstraintV0, t: StrConstraintModel)
    requires
        str_constraint_encoded(p, t),
    ensures
        t matches StrConstraintModel::Prefix(v) ==> p.kind == 0 && (p.prefix matches Some(x)
            && x@ == v),
        t matches StrConstraintModel::Suffix(v) ==> p.kind == 1 && (p.suffix matches Some(x)
            && x@ == v),
        t matches StrConstraintModel::Equal(v) ==> p.kind == 2 && (p.equal matches Some(x)
            && x@ == v),
        t matches StrConstraintModel::Regex(v) ==> p.kind == 3 && (p.regex matches Some(x)
            && x@ == v),
        t matches StrConstraintModel::In(s) ==> p.kind == 4 && views(p.in_set@).to_set() == s
            && views(p.in_set@).no_duplicates(),
        t matches StrConstraintModel::NotIn(s) ==> p.kind == 5 && views(p.not_in_set@).to_set()
            == s && views(p.not_in_set@).no_duplicates(),
        (p.prefix is Some) == (t is Prefix),
        (p.suffix is Some) == (t is Suffix),
        (p.equal is Some) == (t is Equal),
        (p.regex is Some) == (t is Regex),
        !(t is In) ==> p.in_set@.len() == 0,
        !(t is NotIn) ==> p.not_in_set@.len() == 0,
{
}

/// A date constraint message decodes by its kind number: 0 reads `before` as
/// "before", 1 `after` as "after"; a date constraint is written the same way.
pub proof fn law_date_constraint(p: schema::DateConstraintV0, t: DateConstraint)
    ensures
        (p.kind < 0 || p.kind > 1) ==> date_constraint_decoded(p) == Err::<
            DateConstraint,
            FormatModel,
        >(deserialization("deserialization error: invalid date constraint kind"@)),
        p.kind == 0 ==> date_constraint_decoded(p) == match p.before {
            Some(v) => Ok::<DateConstraint, FormatModel>(DateConstraint::Before(v)),
            None => Err(deserialization("deserialization error: invalid date constraint"@)),
        },
        p.kind == 1 ==> date_constraint_decoded(p) == match p.after {
            Some(v) => Ok::<DateConstraint, FormatModel>(DateConstraint::After(v)),
            None => Err(deserialization("deserialization error: invalid date constraint"@)),
        },
        date_constraint_encoded(p, t) ==> (t matches DateConstraint::Before(v) ==> p.kind == 0
            && p.before == Some(v) && p.after is None),
        date_constraint_encoded(p, t) ==> (t matches DateConstraint::After(v) ==> p.kind == 1
            && p.after == Some(v) && p.before is None),
{
}

/// A symbol constraint message decodes by its kind number: 0 reads a
/// non-empty `in_set` as "in", 1 a non-empty `not_in_set` as "not in"; a
/// symbol constraint is written the same way.
pub proof fn law_symbol_constraint(p: schema::SymbolConstraintV0, t: SymbolConstraintModel)
    ensures
        (p.kind < 0 || p.kind > 1) ==> symbol_constraint_decoded(p) == Err::<
            SymbolConstraintModel,
            FormatModel,
        >(deserialization("deserialization error: invalid symbol constraint kind"@)),
        p.kind == 0 ==> symbol_constraint_decoded(p) == if p.in_set@.len() > 0 {
            Ok::<SymbolConstraintModel, FormatModel>(SymbolConstraintModel::In(p.in_set@.to_set()))
        } else {
            Err(deserialization("deserialization error: invalid symbol constraint"@))
        },
        p.kind == 1 ==> symbol_constraint_decoded(p) == if p.not_in_set@.len() > 0 {
            Ok::<SymbolConstraintModel, FormatModel>(
                SymbolConstraintModel::NotIn(p.not_in_set@.to_set()),
            )
        } else {
            Err(deserialization("deserialization error: invalid symbol constraint"@))
        },
        symbol_constraint_encoded(p, t) ==> (t matches SymbolConstraintModel::In(s) ==> p.kind == 0
            && p.in_set@.to_set() == s && p.in_set@.no_duplicates() && p.not_in_set@.len() == 0),
        symbol_constraint_encoded(p, t) ==> (t matches SymbolConstraintModel::NotIn(s) ==> p.kind
            == 1 && p.not_in_set@.to_set() == s && p.not_in_set@.no_duplicates() && p.in_set@.len()
            == 0),
{
}

/// A byte string constraint message decodes by its kind number: 0 reads
/// `equal`, 1 a non-empty `in_set`, 2 a non-empty `not_in_set`; a byte string
/// constraint is written the same way.
pub proof fn law_bytes_constraint(p: schema::BytesConstraintV0, t: BytesConstraintModel)
    ensures
        (p.kind < 0 || p.kind > 2) ==> bytes_constraint_decoded(p) == Err::<
            BytesConstraintModel,
            FormatModel,
        >(deserialization("deserialization error: invalid bytes constraint kind"@)),
        p.kind == 0 ==> bytes_constraint_decoded(p) == match p.equal {
            Some(v) => Ok::<BytesConstraintModel, FormatModel>(BytesConstraintModel::Equal(v@)),
            None => Err(deserialization("deserialization error: invalid string constraint"@)),
        },
        p.kind == 1 ==> bytes_constraint_decoded(p) == if p.in_set@.len() > 0 {
            Ok::<BytesConstraintModel, FormatModel>(BytesConstraintModel::In(views(p.in_set@).to_set()))
        } else {
            Err(deserialization("deserialization error: invalid string constraint"@))
        },
        p.kind == 2 ==> bytes_constraint_decoded(p) == if p.not_in_set@.len() > 0 {
            Ok::<BytesConstraintModel, FormatModel>(
                BytesConstraintModel::NotIn(views(p.not_in_set@).to_set()),
            )
        } else {
            Err(deserialization("deserialization error: invalid string constraint"@))
        },
        bytes_constraint_encoded(p, t) ==> (t matches BytesConstraintModel::Equal(v) ==> p.kind
            == 0 && (p.equal matches Some(x) && x@ == v) && p.in_set@.len() == 0
            && p.not_in_set@.len() == 0),
        bytes_constraint_encoded(p, t) ==> (t matches BytesConstraintModel::In(s) ==> p.kind == 1
            && p.equal is None && views(p.in_set@).to_set() == s && views(p.in_set@).no_duplicates()
            && p.not_in_set@.len() == 0),
        bytes_constraint_encoded(p, t) ==> (t matches BytesConstraintModel::NotIn(s) ==> p.kind
            == 2 && p.equal is None && p.in_set@.len() == 0 && views(p.not_in_set@).to_set() == s
            && views(p.not_in_set@).no_duplicates()),
{
}

/// A constraint message decodes by its kind number: 0 reads `int`, 1 `str`,
/// 2 `date`, 3 `symbol` and 4 `bytes`, as the constraint of that kind, on the
/// message's variable; an inner failure is the constraint's failure, a
/// missing field is refused, and another number is an invalid kind.
pub proof fn law_constraint_decoding(p: schema::ConstraintV0)
    ensures
        constraint_decoded(p) matches Ok(c) ==> c.id == p.id,
        (p.kind < 0 || p.kind > 4) ==> constraint_decoded(p) == Err::<ConstraintModel, FormatModel>(
            deserialization("deserialization error: invalid constraint kind"@),
        ),
        p.kind == 0 ==> constraint_decoded(p) == match p.int {
            Some(x) => match int_constraint_decoded(x) {
                Ok(c) => Ok::<ConstraintModel, FormatModel>(
                    ConstraintModel { id: p.id, kind: ConstraintKindModel::Int(c) },
                ),
                Err(e) => Err(e),
            },
            None => Err(deserialization("deserialization error: invalid constraint"@)),
        },
        p.kind == 1 ==> constraint_decoded(p) == match p.str {
            Some(x) => match str_constraint_decoded(x) {
                Ok(c) => Ok::<ConstraintModel, FormatModel>(
                    ConstraintModel { id: p.id, kind: ConstraintKindModel::Str(c) },
                ),
                Err(e) => Err(e),
            },
            None => Err(deserialization("deserialization error: invalid constraint"@)),
        },
        p.kind == 2 ==> constraint_decoded(p) == match p.date {
            Some(x) => match date_constraint_decoded(x) {
                Ok(c) => Ok::<ConstraintModel, FormatModel>(
                    ConstraintModel { id: p.id, kind: ConstraintKindModel::Date(c) },
                ),
                Err(e) => Err(e),
            },
            None => Err(deserialization("deserialization error: invalid constraint"@)),
        },
        p.kind == 3 ==> constraint_decoded(p) == match p.symbol {
            Some(x) => match symbol_constraint_decoded(x) {
                Ok(c) => Ok::<ConstraintModel, FormatModel>(
                    ConstraintModel { id: p.id, kind: ConstraintKindModel::Symbol(c) },
                ),
                Err(e) => Err(e),
            },
            None => Err(deserialization("deserialization error: invalid constraint"@)),
        },
        p.kind == 4 ==> constraint_decoded(p) == match p.bytes {
            Some(x) => match bytes_constraint_decoded(x) {
                Ok(c) => Ok::<ConstraintModel, FormatModel>(
                    ConstraintModel { id: p.id, kind: ConstraintKindModel::Bytes(c) },
                ),
                Err(e) => Err(e),
            },
            None => Err(deserialization("deserialization error: invalid constraint"@)),
        },
{
}

/// A constraint is written on its variable, with its inner constraint in the
/// field of its kind and the kind number 0 (int), 1 (string), 2 (date) or 4
/// (bytes); a symbol constraint is written in `symbol` with the kind number
/// 2 of a date constraint.
pub proof fn law_constraint_encoding(p: schema::ConstraintV0, t: ConstraintModel)
    requires
        constraint_encoded(p, t),
    ensures
        p.id == t.id,
        t.kind matches ConstraintKindModel::Int(c) ==> p.kind == 0 && (p.int matches Some(x)
            && int_constraint_encoded(x, c)),
        t.kind matches ConstraintKindModel::Str(c) ==> p.kind == 1 && (p.str matches Some(x)
            && str_constraint_encoded(x, c)),
        t.kind matches ConstraintKindModel::Date(c) ==> p.kind == 2 && (p.date matches Some(x)
            && date_constraint_encoded(x, c)),
        t.kind matches ConstraintKindModel::Symbol(c) ==> p.kind == 2 && (p.symbol matches Some(x)
            && symbol_constraint_encoded(x, c)),
        t.kind matches ConstraintKindModel::Bytes(c) ==> p.kind == 4 && (p.bytes matches Some(x)
            && bytes_constraint_encoded(x, c)),
        (p.int is Some) == (t.kind is Int),
        (p.str is Some) == (t.kind is Str),
        (p.date is Some) == (t.kind is Date),
        (p.symbol is Some) == (t.kind is Symbol),
        (p.bytes is Some) == (t.kind is Bytes),
{
}

/// A decoded rule has the message's head, body and constraints, each decoded
/// one by one; it fails only when one of them fails, with that error.
pub proof fn law_rule_decoding(p: schema::RuleV0)
    ensures
        rule_decoded(p) matches Ok(r) ==> {
            &&& predicate_decoded(p.head) == Ok::<PredicateModel, FormatModel>(r.head)
            &&& r.body.len() == p.body@.len()
            &&& forall|i: int|
                0 <= i < p.body@.len() ==> predicate_decoded(#[trigger] p.body@[i]) == Ok::<
                    PredicateModel,
                    FormatModel,
                >(r.body[i])
            &&& r.constraints.len() == p.constraints@.len()
            &&& forall|i: int|
                0 <= i < p.constraints@.len() ==> constraint_decoded(#[trigger] p.constraints@[i])
                    == Ok::<ConstraintModel, FormatModel>(r.constraints[i])
        },
        rule_decoded(p) matches Err(e) ==> predicate_decoded(p.head) == Err::<
            PredicateModel,
            FormatModel,
        >(e) || (exists|i: int|
            0 <= i < p.body@.len() && predicate_decoded(#[trigger] p.body@[i]) == Err::<
                PredicateModel,
                FormatModel,
            >(e)) || (exists|i: int|
            0 <= i < p.constraints@.len() && constraint_decoded(#[trigger] p.constraints@[i])
                == Err::<ConstraintModel, FormatModel>(e)),
{
    lemma_decode_seq_elementwise(p.body@, predicate_decoder());
    lemma_decode_seq_elementwise(p.constraints@, constraint_decoder());
    assert forall|i: int| 0 <= i < p.body@.len() implies predicate_decoder()(p.body@[i])
        == predicate_decoded(#[trigger] p.body@[i]) by {}
    assert forall|i: int| 0 <= i < p.constraints@.len() implies constraint_decoder()(
        p.constraints@[i],
    ) == constraint_decoded(#[trigger] p.constraints@[i]) by {}
}

/// An encoded rule has the rule's head, body and constraints, each encoded.
pub proof fn law_rule_encoding(p: schema::RuleV0, t: RuleModel)
    requires
        rule_encoded(p, t),
    ensures
        predicate_encoded(p.head, t.head),
        p.body@.len() == t.body.len(),
        forall|i: int| 0 <= i < t.body.len() ==> predicate_encoded(#[trigger] p.body@[i], t.body[i]),
        p.constraints@.len() == t.constraints.len(),
        forall|i: int|
            0 <= i < t.constraints.len() ==> constraint_encoded(
                #[trigger] p.constraints@[i],
                t.constraints[i],
            ),
{
    assert forall|i: int| 0 <= i < t.body.len() implies predicate_encoded(
        #[trigger] p.body@[i],
        t.body[i],
    ) by {
        assert(predicate_encoding()(p.body@[i], t.body[i]));
    }
    assert forall|i: int| 0 <= i < t.constraints.len() implies constraint_encoded(
        #[trigger] p.constraints@[i],
        t.constraints[i],
    ) by {
        assert(constraint_encoding()(p.constraints@[i], t.constraints[i]));
    }
}

/// A caveat's queries are decoded, and encoded, one by one.
pub proof fn law_caveat(p: schema::CaveatV0, t: Seq<RuleModel>)
    ensures
        caveat_decoded(p) matches Ok(r) ==> r.len() == p.queries@.len() && forall|i: int|
            0 <= i < p.queries@.len() ==> rule_decoded(#[trigger] p.queries@[i]) == Ok::<
                RuleModel,
                FormatModel,
            >(r[i]),
        caveat_decoded(p) matches Err(e) ==> exists|i: int|
            0 <= i < p.queries@.len() && rule_decoded(#[trigger] p.queries@[i]) == Err::<
                RuleModel,
                FormatModel,
            >(e),
        caveat_encoded(p, t) ==> p.queries@.len() == t.len() && forall|i: int|
            0 <= i < t.len() ==> rule_encoded(#[trigger] p.queries@[i], t[i]),
{
    lemma_decode_seq_elementwise(p.queries@, rule_decoder());
    assert forall|i: int| 0 <= i < p.queries@.len() implies rule_decoder()(p.queries@[i])
        == rule_decoded(#[trigger] p.queries@[i]) by {}
    if caveat_encoded(p, t) {
        assert forall|i: int| 0 <= i < t.len() implies rule_encoded(#[trigger] p.queries@[i], t[i]) by {
            assert(rule_encoding()(p.queries@[i], t[i]));
        }
    }
}


/// Errors come out in reading order: a predicate's error is that of its first
/// failing term.
pub proof fn law_predicate_error_order(p: schema::PredicateV0, i: int)
    requires
        0 <= i < p.ids@.len(),
        id_decoded(p.ids@[i]) is Err,
        forall|j: int| 0 <= j < i ==> (#[trigger] id_decoded(p.ids@[j])) is Ok,
    ensures
        predicate_decoded(p) == Err::<PredicateModel, FormatModel>(id_decoded(p.ids@[i])->Err_0),
{
    assert forall|j: int| 0 <= j < i implies (#[trigger] id_decoder()(p.ids@[j])) is Ok by {
        assert(id_decoded(p.ids@[j]) is Ok);
    }
    lemma_decode_seq_first_error(p.ids@, id_decoder(), i);
}

/// A rule's body is read first, then its constraints, then its head: the
/// error is that of the first failing body predicate; when the body reads,
/// that of the first failing constraint; when those read too, that of the
/// head.
pub proof fn law_rule_error_order(p: schema::RuleV0, i: int)
    ensures
        0 <= i < p.body@.len() && predicate_decoded(p.body@[i]) is Err && (forall|j: int|
            0 <= j < i ==> (#[trigger] predicate_decoded(p.body@[j])) is Ok) ==> rule_decoded(p)
            == Err::<RuleModel, FormatModel>(predicate_decoded(p.body@[i])->Err_0),
        (forall|j: int| 0 <= j < p.body@.len() ==> (#[trigger] predicate_decoded(p.body@[j])) is Ok)
            && 0 <= i < p.constraints@.len() && constraint_decoded(p.constraints@[i]) is Err && (
        forall|j: int| 0 <= j < i ==> (#[trigger] constraint_decoded(p.constraints@[j])) is Ok)
            ==> rule_decoded(p) == Err::<RuleModel, FormatModel>(
            constraint_decoded(p.constraints@[i])->Err_0,
        ),
        (forall|j: int| 0 <= j < p.body@.len() ==> (#[trigger] predicate_decoded(p.body@[j])) is Ok)
            && (forall|j: int|
            0 <= j < p.constraints@.len() ==> (#[trigger] constraint_decoded(p.constraints@[j])) is Ok)
            && predicate_decoded(p.head) is Err ==> rule_decoded(p) == Err::<RuleModel, FormatModel>(
            predicate_decoded(p.head)->Err_0,
        ),
{
    assert forall|j: int| 0 <= j < p.body@.len() implies predicate_decoder()(p.body@[j])
        == predicate_decoded(#[trigger] p.body@[j]) by {}
    assert forall|j: int| 0 <= j < p.constraints@.len() implies constraint_decoder()(
        p.constraints@[j],
    ) == constraint_decoded(#[trigger] p.constraints@[j]) by {}
    lemma_decode_seq_elementwise(p.body@, predicate_decoder());
    lemma_decode_seq_elementwise(p.constraints@, constraint_decoder());
    if 0 <= i < p.body@.len() && predicate_decoded(p.body@[i]) is Err && (forall|j: int|
        0 <= j < i ==> (#[trigger] predicate_decoded(p.body@[j])) is Ok) {
        assert forall|j: int| 0 <= j < i implies (#[trigger] predicate_decoder()(p.body@[j])) is Ok by {
            assert(predicate_decoded(p.body@[j]) is Ok);
        }
        lemma_decode_seq_first_error(p.body@, predicate_decoder(), i);
    }
    if (forall|j: int| 0 <= j < p.body@.len() ==> (#[trigger] predicate_decoded(p.body@[j])) is Ok)
        && 0 <= i < p.constraints@.len() && constraint_decoded(p.constraints@[i]) is Err && (
    forall|j: int| 0 <= j < i ==> (#[trigger] constraint_decoded(p.constraints@[j])) is Ok) {
        assert forall|j: int| 0 <= j < i implies (#[trigger] constraint_decoder()(
            p.constraints@[j],
        )) is Ok by {
            assert(constraint_decoded(p.constraints@[j]) is Ok);
        }
        lemma_decode_seq_first_error(p.constraints@, constraint_decoder(), i);
    }
}

/// A caveat's error is that of its first failing query.
pub proof fn law_caveat_error_order(p: schema::CaveatV0, i: int)
    requires
        0 <= i < p.queries@.len(),
        rule_decoded(p.queries@[i]) is Err,
        forall|j: int| 0 <= j < i ==> (#[trigger] rule_decoded(p.queries@[j])) is Ok,
    ensures
        caveat_decoded(p) == Err::<Seq<RuleModel>, FormatModel>(rule_decoded(p.queries@[i])->Err_0),
{
    assert forall|j: int| 0 <= j < i implies (#[trigger] rule_decoder()(p.queries@[j])) is Ok by {
        assert(rule_decoded(p.queries@[j]) is Ok);
    }
    lemma_decode_seq_first_error(p.queries@, rule_decoder(), i);
}

} // verus!
