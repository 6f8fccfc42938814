//! Conversions for version 1 of the block schema, where each alternative of a
//! term or a constraint is a variant of its own.
use crate::datalog::{
    views, BytesConstraint, BytesConstraintModel, Caveat, Constraint,
    ConstraintKind, ConstraintKindModel, ConstraintModel, DateConstraint, Fact, IntConstraint,
    IntConstraintModel, Predicate, PredicateModel, Rule, RuleModel, StrConstraint,
    StrConstraintModel, SymbolConstraint, SymbolConstraintModel, ID, IDModel, view_set,
};
use crate::error::{deserialization, result_view, Format, FormatModel};
use crate::format::convert::{
    copy_byte_strings, copy_bytes, copy_strings, decode_seq, decode_vec, distinct_byte_strings,
    distinct_strings, encode_vec, encodes_all, hash_set_to_vec, lemma_decode_encoded_seq,
    lemma_decode_seq_elementwise, lemma_decode_seq_first_error, lists_set, vec_to_hash_set,
};
use crate::format::schema;
use vstd::prelude::*;

verus! {

// ---------------------------------------------------------------------------
// Terms
// ---------------------------------------------------------------------------

/// `p` is the encoding of the term `t`.
pub open spec fn id_encoded(p: schema::Idv1, t: IDModel) -> bool {
    match t {
        IDModel::Symbol(s) => p.content == Some(schema::Idv1Content::Symbol(s)),
        IDModel::Variable(v) => p.content == Some(schema::Idv1Content::Variable(v)),
        IDModel::Integer(i) => p.content == Some(schema::Idv1Content::Integer(i)),
        IDModel::Str(s) => p.content matches Some(schema::Idv1Content::String(x)) && x@ == s,
        IDModel::Date(d) => p.content == Some(schema::Idv1Content::Date(d)),
        IDModel::Bytes(b) => p.content matches Some(schema::Idv1Content::Bytes(x)) && x@ == b,
    }
}

/// The term that `p` decodes to, or the error.
pub open spec fn id_decoded(p: schema::Idv1) -> Result<IDModel, FormatModel> {
    match p.content {
        None => Err(deserialization("deserialization error: ID content enum is empty"@)),
        Some(schema::Idv1Content::Symbol(i)) => Ok(IDModel::Symbol(i)),
        Some(schema::Idv1Content::Variable(i)) => Ok(IDModel::Variable(i)),
        Some(schema::Idv1Content::Integer(i)) => Ok(IDModel::Integer(i)),
        Some(schema::Idv1Content::String(s)) => Ok(IDModel::Str(s@)),
        Some(schema::Idv1Content::Date(i)) => Ok(IDModel::Date(i)),
        Some(schema::Idv1Content::Bytes(s)) => Ok(IDModel::Bytes(s@)),
    }
}

pub open spec fn id_encoding() -> spec_fn(schema::Idv1, IDModel) -> bool {
    |p: schema::Idv1, t: IDModel| id_encoded(p, t)
}

pub open spec fn id_decoder() -> spec_fn(schema::Idv1) -> Result<IDModel, FormatModel> {
    |p: schema::Idv1| id_decoded(p)
}

pub fn token_id_to_proto_id(input: &ID) -> (res: schema::Idv1)
    ensures
        id_encoded(res, input@),
{
    match input {
        ID::Symbol(s) => schema::Idv1 { content: Some(schema::Idv1Content::Symbol(*s)) },
        ID::Variable(v) => schema::Idv1 { content: Some(schema::Idv1Content::Variable(*v)) },
        ID::Integer(i) => schema::Idv1 { content: Some(schema::Idv1Content::Integer(*i)) },
        ID::Str(s) => schema::Idv1 { content: Some(schema::Idv1Content::String(s.clone())) },
        ID::Date(d) => schema::Idv1 { content: Some(schema::Idv1Content::Date(*d)) },
        ID::Bytes(s) => schema::Idv1 { content: Some(schema::Idv1Content::Bytes(copy_bytes(s))) },
    }
}

pub fn proto_id_to_token_id(input: &schema::Idv1) -> (res: Result<ID, Format>)
    ensures
        result_view(res) == id_decoded(*input),
{
    match &input.content {
        None => Err(
            Format::DeserializationError(
                "deserialization error: ID content enum is empty".to_string(),
            ),
        ),
        Some(schema::Idv1Content::Symbol(i)) => Ok(ID::Symbol(*i)),
        Some(schema::Idv1Content::Variable(i)) => Ok(ID::Variable(*i)),
        Some(schema::Idv1Content::Integer(i)) => Ok(ID::Integer(*i)),
        Some(schema::Idv1Content::String(s)) => Ok(ID::Str(s.clone())),
        Some(schema::Idv1Content::Date(i)) => Ok(ID::Date(*i)),
        Some(schema::Idv1Content::Bytes(s)) => Ok(ID::Bytes(copy_bytes(s))),
    }
}

/// Decoding the encoding of a term gives the term back.
pub proof fn lemma_id_roundtrip(p: schema::Idv1, t: IDModel)
    requires
        id_encoded(p, t),
    ensures
        id_decoded(p) == Ok::<IDModel, FormatModel>(t),
{
}

// ---------------------------------------------------------------------------
// Predicates and facts
// ---------------------------------------------------------------------------

/// `p` is the encoding of the predicate `t`.
pub open spec fn predicate_encoded(p: schema::PredicateV1, t: PredicateModel) -> bool {
    p.name == t.name && encodes_all(p.ids@, t.ids, id_encoding())
}

/// The predicate that `p` decodes to, or the first error among its terms.
pub open spec fn predicate_decoded(p: schema::PredicateV1) -> Result<PredicateModel, FormatModel> {
    match decode_seq(p.ids@, id_decoder()) {
        Err(e) => Err(e),
        Ok(ids) => Ok(PredicateModel { name: p.name, ids }),
    }
}

pub open spec fn predicate_encoding() -> spec_fn(schema::PredicateV1, PredicateModel) -> bool {
    |p: schema::PredicateV1, t: PredicateModel| predicate_encoded(p, t)
}

pub open spec fn predicate_decoder() -> spec_fn(schema::PredicateV1) -> Result<
    PredicateModel,
    FormatModel,
> {
    |p: schema::PredicateV1| predicate_decoded(p)
}

pub fn token_predicate_to_proto_predicate(input: &Predicate) -> (res: schema::PredicateV1)
    ensures
        predicate_encoded(res, input@),
{
    schema::PredicateV1 {
        name: input.name,
        ids: encode_vec(&input.ids, token_id_to_proto_id, Ghost(id_encoding())),
    }
}

pub fn proto_predicate_to_token_predicate(input: &schema::PredicateV1) -> (res: Result<
    Predicate,
    Format,
>)
    ensures
        result_view(res) == predicate_decoded(*input),
{
    let ids = decode_vec(
        &input.ids,
        proto_id_to_token_id,
        Ghost(id_decoder()),
        Ghost(|id: ID| true),
    );
    match ids {
        Ok(ids) => Ok(Predicate { name: input.name, ids }),
        Err(e) => Err(e),
    }
}

/// Decoding the encoding of a predicate gives the predicate back.
pub proof fn lemma_predicate_roundtrip(p: schema::PredicateV1, t: PredicateModel)
    requires
        predicate_encoded(p, t),
    ensures
        predicate_decoded(p) == Ok::<PredicateModel, FormatModel>(t),
{
    assert forall|q: schema::Idv1, u: IDModel| #[trigger]
        id_encoding()(q, u) implies id_decoder()(q) == Ok::<IDModel, FormatModel>(u) by {
        lemma_id_roundtrip(q, u);
    }
    lemma_decode_encoded_seq(p.ids@, t.ids, id_encoding(), id_decoder());
}

/// `p` is the encoding of the fact `t`.
pub open spec fn fact_encoded(p: schema::FactV1, t: PredicateModel) -> bool {
    predicate_encoded(p.predicate, t)
}

/// The fact that `p` decodes to, or the error.
pub open spec fn fact_decoded(p: schema::FactV1) -> Result<PredicateModel, FormatModel> {
    predicate_decoded(p.predicate)
}

pub open spec fn fact_encoding() -> spec_fn(schema::FactV1, PredicateModel) -> bool {
    |p: schema::FactV1, t: PredicateModel| fact_encoded(p, t)
}

pub open spec fn fact_decoder() -> spec_fn(schema::FactV1) -> Result<PredicateModel, FormatModel> {
    |p: schema::FactV1| fact_decoded(p)
}

pub fn token_fact_to_proto_fact(input: &Fact) -> (res: schema::FactV1)
    ensures
        fact_encoded(res, input@),
{
    schema::FactV1 { predicate: token_predicate_to_proto_predicate(&input.predicate) }
}

pub fn proto_fact_to_token_fact(input: &schema::FactV1) -> (res: Result<Fact, Format>)
    ensures
        result_view(res) == fact_decoded(*input),
{
    match proto_predicate_to_token_predicate(&input.predicate) {
        Ok(predicate) => Ok(Fact { predicate }),
        Err(e) => Err(e),
    }
}

/// Decoding the encoding of a fact gives the fact back.
pub proof fn lemma_fact_roundtrip(p: schema::FactV1, t: PredicateModel)
    requires
        fact_encoded(p, t),
    ensures
        fact_decoded(p) == Ok::<PredicateModel, FormatModel>(t),
{
    lemma_predicate_roundtrip(p.predicate, t);
}

// ---------------------------------------------------------------------------
// Integer constraints
// ---------------------------------------------------------------------------

/// `p` is the encoding of the integer constraint `t`.
pub open spec fn int_constraint_encoded(p: schema::IntConstraintV1, t: IntConstraintModel) -> bool {
    match t {
        IntConstraintModel::LessThan(i) => p.constraint == Some(
            schema::IntConstraintV1Constraint::LessThan(i),
        ),
        IntConstraintModel::GreaterThan(i) => p.constraint == Some(
            schema::IntConstraintV1Constraint::GreaterThan(i),
        ),
        IntConstraintModel::LessOrEqual(i) => p.constraint == Some(
            schema::IntConstraintV1Constraint::LessOrEqual(i),
        ),
        IntConstraintModel::GreaterOrEqual(i) => p.constraint == Some(
            schema::IntConstraintV1Constraint::GreaterOrEqual(i),
        ),
        IntConstraintModel::Equal(i) => p.constraint == Some(
            schema::IntConstraintV1Constraint::Equal(i),
        ),
        IntConstraintModel::In(s) => p.constraint matches Some(
            schema::IntConstraintV1Constraint::InSet(x),
        ) && lists_set(x.set@, s),
        IntConstraintModel::NotIn(s) => p.constraint matches Some(
            schema::IntConstraintV1Constraint::NotInSet(x),
        ) && lists_set(x.set@, s),
    }
}

/// The integer constraint that `p` decodes to, or the error.
pub open spec fn int_constraint_decoded(p: schema::IntConstraintV1) -> Result<
    IntConstraintModel,
    FormatModel,
> {
    match p.constraint {
        None => Err(
            deserialization("deserialization error: integer constraint enum is empty"@),
        ),
        Some(schema::IntConstraintV1Constraint::LessThan(i)) => Ok(IntConstraintModel::LessThan(i)),
        Some(schema::IntConstraintV1Constraint::GreaterThan(i)) => Ok(
            IntConstraintModel::GreaterThan(i),
        ),
        Some(schema::IntConstraintV1Constraint::LessOrEqual(i)) => Ok(
            IntConstraintModel::LessOrEqual(i),
        ),
        Some(schema::IntConstraintV1Constraint::GreaterOrEqual(i)) => Ok(
            IntConstraintModel::GreaterOrEqual(i),
        ),
        Some(schema::IntConstraintV1Constraint::Equal(i)) => Ok(IntConstraintModel::Equal(i)),
        Some(schema::IntConstraintV1Constraint::InSet(x)) => Ok(
            IntConstraintModel::In(x.set@.to_set()),
        ),
        Some(schema::IntConstraintV1Constraint::NotInSet(x)) => Ok(
            IntConstraintModel::NotIn(x.set@.to_set()),
        ),
    }
}

pub fn token_int_constraint_to_proto_int_constraint(input: &IntConstraint) -> (res:
    schema::IntConstraintV1)
    ensures
        int_constraint_encoded(res, input@),
{
    match input {
        IntConstraint::LessThan(i) => schema::IntConstraintV1 {
            constraint: Some(schema::IntConstraintV1Constraint::LessThan(*i)),
        },
        IntConstraint::GreaterThan(i) => schema::IntConstraintV1 {
            constraint: Some(schema::IntConstraintV1Constraint::GreaterThan(*i)),
        },
        IntConstraint::LessOrEqual(i) => schema::IntConstraintV1 {
            constraint: Some(schema::IntConstraintV1Constraint::LessOrEqual(*i)),
        },
        IntConstraint::GreaterOrEqual(i) => schema::IntConstraintV1 {
            constraint: Some(schema::IntConstraintV1Constraint::GreaterOrEqual(*i)),
        },
        IntConstraint::Equal(i) => schema::IntConstraintV1 {
            constraint: Some(schema::IntConstraintV1Constraint::Equal(*i)),
        },
        IntConstraint::In(s) => schema::IntConstraintV1 {
            constraint: Some(
                schema::IntConstraintV1Constraint::InSet(schema::IntSet { set: hash_set_to_vec(s) }),
            ),
        },
        IntConstraint::NotIn(s) => schema::IntConstraintV1 {
            constraint: Some(
                schema::IntConstraintV1Constraint::NotInSet(
                    schema::IntSet { set: hash_set_to_vec(s) },
                ),
            ),
        },
    }
}

pub fn proto_int_constraint_to_token_int_constraint(input: &schema::IntConstraintV1) -> (res:
    Result<IntConstraint, Format>)
    ensures
        result_view(res) == int_constraint_decoded(*input),
{
    match &input.constraint {
        None => Err(
            Format::DeserializationError(
                "deserialization error: integer constraint enum is empty".to_string(),
            ),
        ),
        Some(schema::IntConstraintV1Constraint::LessThan(i)) => Ok(IntConstraint::LessThan(*i)),
        Some(schema::IntConstraintV1Constraint::GreaterThan(i)) => Ok(
            IntConstraint::GreaterThan(*i),
        ),
        Some(schema::IntConstraintV1Constraint::LessOrEqual(i)) => Ok(
            IntConstraint::LessOrEqual(*i),
        ),
        Some(schema::IntConstraintV1Constraint::GreaterOrEqual(i)) => Ok(
            IntConstraint::GreaterOrEqual(*i),
        ),
        Some(schema::IntConstraintV1Constraint::Equal(i)) => Ok(IntConstraint::Equal(*i)),
        Some(schema::IntConstraintV1Constraint::InSet(x)) => Ok(
            IntConstraint::In(vec_to_hash_set(&x.set)),
        ),
        Some(schema::IntConstraintV1Constraint::NotInSet(x)) => Ok(
            IntConstraint::NotIn(vec_to_hash_set(&x.set)),
        ),
    }
}

/// Decoding the encoding of an integer constraint gives the constraint back.
pub proof fn lemma_int_constraint_roundtrip(p: schema::IntConstraintV1, t: IntConstraintModel)
    requires
        int_constraint_encoded(p, t),
    ensures
        int_constraint_decoded(p) == Ok::<IntConstraintModel, FormatModel>(t),
{
}

// ---------------------------------------------------------------------------
// String constraints
// ---------------------------------------------------------------------------

/// `p` is the encoding of the string constraint `t`.
pub open spec fn str_constraint_encoded(p: schema::StringConstraintV1, t: StrConstraintModel) -> bool {
    match t {
        StrConstraintModel::Prefix(s) => p.constraint matches Some(
            schema::StringConstraintV1Constraint::Prefix(x),
        ) && x@ == s,
        StrConstraintModel::Suffix(s) => p.constraint matches Some(
            schema::StringConstraintV1Constraint::Suffix(x),
        ) && x@ == s,
        StrConstraintModel::Equal(s) => p.constraint matches Some(
            schema::StringConstraintV1Constraint::Equal(x),
        ) && x@ == s,
        StrConstraintModel::Regex(s) => p.constraint matches Some(
            schema::StringConstraintV1Constraint::Regex(x),
        ) && x@ == s,
        StrConstraintModel::In(s) => p.constraint matches Some(
            schema::StringConstraintV1Constraint::InSet(x),
        ) && lists_set(views(x.set@), s),
        StrConstraintModel::NotIn(s) => p.constraint matches Some(
            schema::StringConstraintV1Constraint::NotInSet(x),
        ) && lists_set(views(x.set@), s),
    }
}

/// The string constraint that `p` decodes to, or the error.
pub open spec fn str_constraint_decoded(p: schema::StringConstraintV1) -> Result<
    StrConstraintModel,
    FormatModel,
> {
    match p.constraint {
        None => Err(deserialization("deserialization error: string constraint enum is empty"@)),
        Some(schema::StringConstraintV1Constraint::Prefix(s)) => Ok(StrConstraintModel::Prefix(s@)),
        Some(schema::StringConstraintV1Constraint::Suffix(s)) => Ok(StrConstraintModel::Suffix(s@)),
        Some(schema::StringConstraintV1Constraint::Equal(s)) => Ok(StrConstraintModel::Equal(s@)),
        Some(schema::StringConstraintV1Constraint::InSet(x)) => Ok(
            StrConstraintModel::In(view_set(x.set@)),
        ),
        Some(schema::StringConstraintV1Constraint::NotInSet(x)) => Ok(
            StrConstraintModel::NotIn(view_set(x.set@)),
        ),
        Some(schema::StringConstraintV1Constraint::Regex(s)) => Ok(StrConstraintModel::Regex(s@)),
    }
}

pub fn token_str_constraint_to_proto_str_constraint(input: &StrConstraint) -> (res:
    schema::StringConstraintV1)
    requires
        input.wf(),
    ensures
        str_constraint_encoded(res, input@),
{
    match input {
        StrConstraint::Prefix(s) => schema::StringConstraintV1 {
            constraint: Some(schema::StringConstraintV1Constraint::Prefix(s.clone())),
        },
        StrConstraint::Suffix(s) => schema::StringConstraintV1 {
            constraint: Some(schema::StringConstraintV1Constraint::Suffix(s.clone())),
        },
        StrConstraint::Equal(s) => schema::StringConstraintV1 {
            constraint: Some(schema::StringConstraintV1Constraint::Equal(s.clone())),
        },
        StrConstraint::Regex(r) => schema::StringConstraintV1 {
            constraint: Some(schema::StringConstraintV1Constraint::Regex(r.clone())),
        },
        StrConstraint::In(s) => schema::StringConstraintV1 {
            constraint: Some(
                schema::StringConstraintV1Constraint::InSet(
                    schema::StringSet { set: copy_strings(s) },
                ),
            ),
        },
        StrConstraint::NotIn(s) => schema::StringConstraintV1 {
            constraint: Some(
                schema::StringConstraintV1Constraint::NotInSet(
                    schema::StringSet { set: copy_strings(s) },
                ),
            ),
        },
    }
}

pub fn proto_str_constraint_to_token_str_constraint(input: &schema::StringConstraintV1) -> (res:
    Result<StrConstraint, Format>)
    ensures
        result_view(res) == str_constraint_decoded(*input),
        res matches Ok(c) ==> c.wf(),
{
    match &input.constraint {
        None => Err(
            Format::DeserializationError(
                "deserialization error: string constraint enum is empty".to_string(),
            ),
        ),
        Some(schema::StringConstraintV1Constraint::Prefix(s)) => Ok(StrConstraint::Prefix(s.clone())),
        Some(schema::StringConstraintV1Constraint::Suffix(s)) => Ok(StrConstraint::Suffix(s.clone())),
        Some(schema::StringConstraintV1Constraint::Equal(s)) => Ok(StrConstraint::Equal(s.clone())),
        Some(schema::StringConstraintV1Constraint::InSet(x)) => Ok(
            StrConstraint::In(distinct_strings(&x.set)),
        ),
        Some(schema::StringConstraintV1Constraint::NotInSet(x)) => Ok(
            StrConstraint::NotIn(distinct_strings(&x.set)),
        ),
        Some(schema::StringConstraintV1Constraint::Regex(s)) => Ok(StrConstraint::Regex(s.clone())),
    }
}

/// Decoding the encoding of a string constraint gives the constraint back.
pub proof fn lemma_str_constraint_roundtrip(p: schema::StringConstraintV1, t: StrConstraintModel)
    requires
        str_constraint_encoded(p, t),
    ensures
        str_constraint_decoded(p) == Ok::<StrConstraintModel, FormatModel>(t),
{
}

// ---------------------------------------------------------------------------
// Date constraints
// ---------------------------------------------------------------------------

/// `p` is the encoding of the date constraint `t`.
pub open spec fn date_constraint_encoded(p: schema::DateConstraintV1, t: DateConstraint) -> bool {
    match t {
        DateConstraint::Before(i) => p.constraint == Some(schema::DateConstraintV1Constraint::Before(i)),
        DateConstraint::After(i) => p.constraint == Some(schema::DateConstraintV1Constraint::After(i)),
    }
}

/// The date constraint that `p` decodes to, or the error.
pub open spec fn date_constraint_decoded(p: schema::DateConstraintV1) -> Result<
    DateConstraint,
    FormatModel,
> {
    match p.constraint {
        None => Err(deserialization("deserialization error: date constraint enum is empty"@)),
        Some(schema::DateConstraintV1Constraint::Before(i)) => Ok(DateConstraint::Before(i)),
        Some(schema::DateConstraintV1Constraint::After(i)) => Ok(DateConstraint::After(i)),
    }
}

pub fn token_date_constraint_to_proto_date_constraint(input: &DateConstraint) -> (res:
    schema::DateConstraintV1)
    ensures
        date_constraint_encoded(res, input@),
{
    match input {
        DateConstraint::Before(i) => schema::DateConstraintV1 {
            constraint: Some(schema::DateConstraintV1Constraint::Before(*i)),
        },
        DateConstraint::After(i) => schema::DateConstraintV1 {
            constraint: Some(schema::DateConstraintV1Constraint::After(*i)),
        },
    }
}

pub fn proto_date_constraint_to_token_date_constraint(input: &schema::DateConstraintV1) -> (res:
    Result<DateConstraint, Format>)
    ensures
        result_view(res) == date_constraint_decoded(*input),
{
    match &input.constraint {
        None => Err(
            Format::DeserializationError(
                "deserialization error: date constraint enum is empty".to_string(),
            ),
        ),
        Some(schema::DateConstraintV1Constraint::Before(i)) => Ok(DateConstraint::Before(*i)),
        Some(schema::DateConstraintV1Constraint::After(i)) => Ok(DateConstraint::After(*i)),
    }
}

/// Decoding the encoding of a date constraint gives the constraint back.
pub proof fn lemma_date_constraint_roundtrip(p: schema::DateConstraintV1, t: DateConstraint)
    requires
        date_constraint_encoded(p, t),
    ensures
        date_constraint_decoded(p) == Ok::<DateConstraint, FormatModel>(t),
{
}

// ---------------------------------------------------------------------------
// Symbol constraints
// ---------------------------------------------------------------------------

/// `p` is the encoding of the symbol constraint `t`.
pub open spec fn symbol_constraint_encoded(
    p: schema::SymbolConstraintV1,
    t: SymbolConstraintModel,
) -> bool {
    match t {
        SymbolConstraintModel::In(s) => p.constraint matches Some(
            schema::SymbolConstraintV1Constraint::InSet(x),
        ) && lists_set(x.set@, s),
        SymbolConstraintModel::NotIn(s) => p.constraint matches Some(
            schema::SymbolConstraintV1Constraint::NotInSet(x),
        ) && lists_set(x.set@, s),
    }
}

/// The symbol constraint that `p` decodes to, or the error.
pub open spec fn symbol_constraint_decoded(p: schema::SymbolConstraintV1) -> Result<
    SymbolConstraintModel,
    FormatModel,
> {
    match p.constraint {
        None => Err(deserialization("deserialization error: symbol constraint enum is empty"@)),
        Some(schema::SymbolConstraintV1Constraint::InSet(x)) => Ok(
            SymbolConstraintModel::In(x.set@.to_set()),
        ),
        Some(schema::SymbolConstraintV1Constraint::NotInSet(x)) => Ok(
            SymbolConstraintModel::NotIn(x.set@.to_set()),
        ),
    }
}

pub fn token_symbol_constraint_to_proto_symbol_constraint(input: &SymbolConstraint) -> (res:
    schema::SymbolConstraintV1)
    ensures
        symbol_constraint_encoded(res, input@),
{
    match input {
        SymbolConstraint::In(s) => schema::SymbolConstraintV1 {
            constraint: Some(
                schema::SymbolConstraintV1Constraint::InSet(
                    schema::SymbolSet { set: hash_set_to_vec(s) },
                ),
            ),
        },
        SymbolConstraint::NotIn(s) => schema::SymbolConstraintV1 {
            constraint: Some(
                schema::SymbolConstraintV1Constraint::NotInSet(
                    schema::SymbolSet { set: hash_set_to_vec(s) },
                ),
            ),
        },
    }
}

pub fn proto_symbol_constraint_to_token_symbol_constraint(input: &schema::SymbolConstraintV1) -> (res:
    Result<SymbolConstraint, Format>)
    ensures
        result_view(res) == symbol_constraint_decoded(*input),
{
    match &input.constraint {
        None => Err(
            Format::DeserializationError(
                "deserialization error: symbol constraint enum is empty".to_string(),
            ),
        ),
        Some(schema::SymbolConstraintV1Constraint::InSet(x)) => Ok(
            SymbolConstraint::In(vec_to_hash_set(&x.set)),
        ),
        Some(schema::SymbolConstraintV1Constraint::NotInSet(x)) => Ok(
            SymbolConstraint::NotIn(vec_to_hash_set(&x.set)),
        ),
    }
}

/// Decoding the encoding of a symbol constraint gives the constraint back.
pub proof fn lemma_symbol_constraint_roundtrip(
    p: schema::SymbolConstraintV1,
    t: SymbolConstraintModel,
)
    requires
        symbol_constraint_encoded(p, t),
    ensures
        symbol_constraint_decoded(p) == Ok::<SymbolConstraintModel, FormatModel>(t),
{
}

// ---------------------------------------------------------------------------
// Byte string constraints
// ---------------------------------------------------------------------------

/// `p` is the encoding of the byte string constraint `t`.
pub open spec fn bytes_constraint_encoded(p: schema::BytesConstraintV1, t: BytesConstraintModel) -> bool {
    match t {
        BytesConstraintModel::Equal(b) => p.constraint matches Some(
            schema::BytesConstraintV1Constraint::Equal(x),
        ) && x@ == b,
        BytesConstraintModel::In(s) => p.constraint matches Some(
            schema::BytesConstraintV1Constraint::InSet(x),
        ) && lists_set(views(x.set@), s),
        BytesConstraintModel::NotIn(s) => p.constraint matches Some(
            schema::BytesConstraintV1Constraint::NotInSet(x),
        ) && lists_set(views(x.set@), s),
    }
}

/// The byte string constraint that `p` decodes to, or the error.
pub open spec fn bytes_constraint_decoded(p: schema::BytesConstraintV1) -> Result<
    BytesConstraintModel,
    FormatModel,
> {
    match p.constraint {
        None => Err(deserialization("deserialization error: bytes constraint enum is empty"@)),
        Some(schema::BytesConstraintV1Constraint::Equal(s)) => Ok(BytesConstraintModel::Equal(s@)),
        Some(schema::BytesConstraintV1Constraint::InSet(x)) => Ok(
            BytesConstraintModel::In(view_set(x.set@)),
        ),
        Some(schema::BytesConstraintV1Constraint::NotInSet(x)) => Ok(
            BytesConstraintModel::NotIn(view_set(x.set@)),
        ),
    }
}

pub fn token_bytes_constraint_to_proto_bytes_constraint(input: &BytesConstraint) -> (res:
    schema::BytesConstraintV1)
    requires
        input.wf(),
    ensures
        bytes_constraint_encoded(res, input@),
{
    match input {
        BytesConstraint::Equal(s) => schema::BytesConstraintV1 {
            constraint: Some(schema::BytesConstraintV1Constraint::Equal(copy_bytes(s))),
        },
        BytesConstraint::In(s) => schema::BytesConstraintV1 {
            constraint: Some(
                schema::BytesConstraintV1Constraint::InSet(
                    schema::BytesSet { set: copy_byte_strings(s) },
                ),
            ),
        },
        BytesConstraint::NotIn(s) => schema::BytesConstraintV1 {
            constraint: Some(
                schema::BytesConstraintV1Constraint::NotInSet(
                    schema::BytesSet { set: copy_byte_strings(s) },
                ),
            ),
        },
    }
}

pub fn proto_bytes_constraint_to_token_bytes_constraint(input: &schema::BytesConstraintV1) -> (res:
    Result<BytesConstraint, Format>)
    ensures
        result_view(res) == bytes_constraint_decoded(*input),
        res matches Ok(c) ==> c.wf(),
{
    match &input.constraint {
        None => Err(
            Format::DeserializationError(
                "deserialization error: bytes constraint enum is empty".to_string(),
            ),
        ),
        Some(schema::BytesConstraintV1Constraint::Equal(s)) => Ok(
            BytesConstraint::Equal(copy_bytes(s)),
        ),
        Some(schema::BytesConstraintV1Constraint::InSet(x)) => Ok(
            BytesConstraint::In(distinct_byte_strings(&x.set)),
        ),
        Some(schema::BytesConstraintV1Constraint::NotInSet(x)) => Ok(
            BytesConstraint::NotIn(distinct_byte_strings(&x.set)),
        ),
    }
}

/// Decoding the encoding of a byte string constraint gives the constraint back.
pub proof fn lemma_bytes_constraint_roundtrip(p: schema::BytesConstraintV1, t: BytesConstraintModel)
    requires
        bytes_constraint_encoded(p, t),
    ensures
        bytes_constraint_decoded(p) == Ok::<BytesConstraintModel, FormatModel>(t),
{
}

// ---------------------------------------------------------------------------
// Constraints
// ---------------------------------------------------------------------------

/// `p` is the encoding of the constraint `t`.
pub open spec fn constraint_encoded(p: schema::ConstraintV1, t: ConstraintModel) -> bool {
    &&& p.id == t.id
    &&& match t.kind {
        ConstraintKindModel::Int(c) => p.constraint matches Some(
            schema::ConstraintV1Constraint::Int(x),
        ) && int_constraint_encoded(x, c),
        ConstraintKindModel::Str(c) => p.constraint matches Some(
            schema::ConstraintV1Constraint::String(x),
        ) && str_constraint_encoded(x, c),
        ConstraintKindModel::Date(c) => p.constraint matches Some(
            schema::ConstraintV1Constraint::Date(x),
        ) && date_constraint_encoded(x, c),
        ConstraintKindModel::Symbol(c) => p.constraint matches Some(
            schema::ConstraintV1Constraint::Symbol(x),
        ) && symbol_constraint_encoded(x, c),
        ConstraintKindModel::Bytes(c) => p.constraint matches Some(
            schema::ConstraintV1Constraint::Bytes(x),
        ) && bytes_constraint_encoded(x, c),
    }
}

/// The constraint that `p` decodes to, or the error.
pub open spec fn constraint_decoded(p: schema::ConstraintV1) -> Result<ConstraintModel, FormatModel> {
    match p.constraint {
        None => Err(deserialization("deserialization error: constraint enum is empty"@)),
        Some(schema::ConstraintV1Constraint::Int(i)) => match int_constraint_decoded(i) {
            Ok(c) => Ok(ConstraintModel { id: p.id, kind: ConstraintKindModel::Int(c) }),
            Err(e) => Err(e),
        },
        Some(schema::ConstraintV1Constraint::String(i)) => match str_constraint_decoded(i) {
            Ok(c) => Ok(ConstraintModel { id: p.id, kind: ConstraintKindModel::Str(c) }),
            Err(e) => Err(e),
        },
        Some(schema::ConstraintV1Constraint::Date(i)) => match date_constraint_decoded(i) {
            Ok(c) => Ok(ConstraintModel { id: p.id, kind: ConstraintKindModel::Date(c) }),
            Err(e) => Err(e),
        },
        Some(schema::ConstraintV1Constraint::Symbol(i)) => match symbol_constraint_decoded(i) {
            Ok(c) => Ok(ConstraintModel { id: p.id, kind: ConstraintKindModel::Symbol(c) }),
            Err(e) => Err(e),
        },
        Some(schema::ConstraintV1Constraint::Bytes(i)) => match bytes_constraint_decoded(i) {
            Ok(c) => Ok(ConstraintModel { id: p.id, kind: ConstraintKindModel::Bytes(c) }),
            Err(e) => Err(e),
        },
    }
}

pub open spec fn constraint_encoding() -> spec_fn(schema::ConstraintV1, ConstraintModel) -> bool {
    |p: schema::ConstraintV1, t: ConstraintModel| constraint_encoded(p, t)
}

pub open spec fn constraint_decoder() -> spec_fn(schema::ConstraintV1) -> Result<
    ConstraintModel,
    FormatModel,
> {
    |p: schema::ConstraintV1| constraint_decoded(p)
}

pub fn token_constraint_to_proto_constraint(input: &Constraint) -> (res: schema::ConstraintV1)
    requires
        input.wf(),
    ensures
        constraint_encoded(res, input@),
{
    match input.kind {
        ConstraintKind::Int(ref c) => schema::ConstraintV1 {
            id: input.id,
            constraint: Some(
                schema::ConstraintV1Constraint::Int(token_int_constraint_to_proto_int_constraint(c)),
            ),
        },
        ConstraintKind::Str(ref c) => schema::ConstraintV1 {
            id: input.id,
            constraint: Some(
                schema::ConstraintV1Constraint::String(
                    token_str_constraint_to_proto_str_constraint(c),
                ),
            ),
        },
        ConstraintKind::Date(ref c) => schema::ConstraintV1 {
            id: input.id,
            constraint: Some(
                schema::ConstraintV1Constraint::Date(
                    token_date_constraint_to_proto_date_constraint(c),
                ),
            ),
        },
        ConstraintKind::Symbol(ref c) => schema::ConstraintV1 {
            id: input.id,
            constraint: Some(
                schema::ConstraintV1Constraint::Symbol(
                    token_symbol_constraint_to_proto_symbol_constraint(c),
                ),
            ),
        },
        ConstraintKind::Bytes(ref c) => schema::ConstraintV1 {
            id: input.id,
            constraint: Some(
                schema::ConstraintV1Constraint::Bytes(
                    token_bytes_constraint_to_proto_bytes_constraint(c),
                ),
            ),
        },
    }
}

pub fn proto_constraint_to_token_constraint(input: &schema::ConstraintV1) -> (res: Result<
    Constraint,
    Format,
>)
    ensures
        result_view(res) == constraint_decoded(*input),
        res matches Ok(c) ==> c.wf(),
{
    match &input.constraint {
        None => Err(
            Format::DeserializationError(
                "deserialization error: constraint enum is empty".to_string(),
            ),
        ),
        Some(schema::ConstraintV1Constraint::Int(i)) => {
            match proto_int_constraint_to_token_int_constraint(i) {
                Ok(c) => Ok(Constraint { id: input.id, kind: ConstraintKind::Int(c) }),
                Err(e) => Err(e),
            }
        },
        Some(schema::ConstraintV1Constraint::String(i)) => {
            match proto_str_constraint_to_token_str_constraint(i) {
                Ok(c) => Ok(Constraint { id: input.id, kind: ConstraintKind::Str(c) }),
                Err(e) => Err(e),
            }
        },
        Some(schema::ConstraintV1Constraint::Date(i)) => {
            match proto_date_constraint_to_token_date_constraint(i) {
                Ok(c) => Ok(Constraint { id: input.id, kind: ConstraintKind::Date(c) }),
                Err(e) => Err(e),
            }
        },
        Some(schema::ConstraintV1Constraint::Symbol(i)) => {
            match proto_symbol_constraint_to_token_symbol_constraint(i) {
                Ok(c) => Ok(Constraint { id: input.id, kind: ConstraintKind::Symbol(c) }),
                Err(e) => Err(e),
            }
        },
        Some(schema::ConstraintV1Constraint::Bytes(i)) => {
            match proto_bytes_constraint_to_token_bytes_constraint(i) {
                Ok(c) => Ok(Constraint { id: input.id, kind: ConstraintKind::Bytes(c) }),
                Err(e) => Err(e),
            }
        },
    }
}

/// Decoding the encoding of a constraint gives the constraint back.
pub proof fn lemma_constraint_roundtrip(p: schema::ConstraintV1, t: ConstraintModel)
    requires
        constraint_encoded(p, t),
    ensures
        constraint_decoded(p) == Ok::<ConstraintModel, FormatModel>(t),
{
    match t.kind {
        ConstraintKindModel::Int(c) => {
            let x = p.constraint->Some_0->Int_0;
            lemma_int_constraint_roundtrip(x, c);
        },
        ConstraintKindModel::Str(c) => {
            let x = p.constraint->Some_0->String_0;
            lemma_str_constraint_roundtrip(x, c);
        },
        ConstraintKindModel::Date(c) => {
            let x = p.constraint->Some_0->Date_0;
            lemma_date_constraint_roundtrip(x, c);
        },
        ConstraintKindModel::Symbol(c) => {
            let x = p.constraint->Some_0->Symbol_0;
            lemma_symbol_constraint_roundtrip(x, c);
        },
        ConstraintKindModel::Bytes(c) => {
            let x = p.constraint->Some_0->Bytes_0;
            lemma_bytes_constraint_roundtrip(x, c);
        },
    }
}

// ---------------------------------------------------------------------------
// Rules and caveats
// ---------------------------------------------------------------------------

/// `p` is the encoding of the rule `t`.
pub open spec fn rule_encoded(p: schema::RuleV1, t: RuleModel) -> bool {
    &&& predicate_encoded(p.head, t.head)
    &&& encodes_all(p.body@, t.body, predicate_encoding())
    &&& encodes_all(p.constraints@, t.constraints, constraint_encoding())
}

/// The rule that `p` decodes to, or the first error: the body is read first,
/// then the constraints, then the head.
pub open spec fn rule_decoded(p: schema::RuleV1) -> Result<RuleModel, FormatModel> {
    match decode_seq(p.body@, predicate_decoder()) {
        Err(e) => Err(e),
        Ok(body) => match decode_seq(p.constraints@, constraint_decoder()) {
            Err(e) => Err(e),
            Ok(constraints) => match predicate_decoded(p.head) {
                Err(e) => Err(e),
                Ok(head) => Ok(RuleModel { head, body, constraints }),
            },
        },
    }
}

pub open spec fn rule_encoding() -> spec_fn(schema::RuleV1, RuleModel) -> bool {
    |p: schema::RuleV1, t: RuleModel| rule_encoded(p, t)
}

pub open spec fn rule_decoder() -> spec_fn(schema::RuleV1) -> Result<RuleModel, FormatModel> {
    |p: schema::RuleV1| rule_decoded(p)
}

pub fn token_rule_to_proto_rule(input: &Rule) -> (res: schema::RuleV1)
    requires
        input.wf(),
    ensures
        rule_encoded(res, input@),
{
    schema::RuleV1 {
        head: token_predicate_to_proto_predicate(&input.head),
        body: encode_vec(&input.body, token_predicate_to_proto_predicate, Ghost(predicate_encoding())),
        constraints: encode_vec(
            &input.constraints,
            token_constraint_to_proto_constraint,
            Ghost(constraint_encoding()),
        ),
    }
}

pub fn proto_rule_to_token_rule(input: &schema::RuleV1) -> (res: Result<Rule, Format>)
    ensures
        result_view(res) == rule_decoded(*input),
        res matches Ok(r) ==> r.wf(),
{
    let body = match decode_vec(
        &input.body,
        proto_predicate_to_token_predicate,
        Ghost(predicate_decoder()),
        Ghost(|p: Predicate| true),
    ) {
        Ok(body) => body,
        Err(e) => return Err(e),
    };
    let constraints = match decode_vec(
        &input.constraints,
        proto_constraint_to_token_constraint,
        Ghost(constraint_decoder()),
        Ghost(|c: Constraint| c.wf()),
    ) {
        Ok(constraints) => constraints,
        Err(e) => return Err(e),
    };
    match proto_predicate_to_token_predicate(&input.head) {
        Ok(head) => Ok(Rule { head, body, constraints }),
        Err(e) => Err(e),
    }
}

/// Decoding the encoding of a rule gives the rule back.
pub proof fn lemma_rule_roundtrip(p: schema::RuleV1, t: RuleModel)
    requires
        rule_encoded(p, t),
    ensures
        rule_decoded(p) == Ok::<RuleModel, FormatModel>(t),
{
    assert forall|q: schema::PredicateV1, u: PredicateModel| #[trigger]
        predicate_encoding()(q, u) implies predicate_decoder()(q) == Ok::<
        PredicateModel,
        FormatModel,
    >(u) by {
        lemma_predicate_roundtrip(q, u);
    }
    assert forall|q: schema::ConstraintV1, u: ConstraintModel| #[trigger]
        constraint_encoding()(q, u) implies constraint_decoder()(q) == Ok::<
        ConstraintModel,
        FormatModel,
    >(u) by {
        lemma_constraint_roundtrip(q, u);
    }
    lemma_decode_encoded_seq(p.body@, t.body, predicate_encoding(), predicate_decoder());
    lemma_decode_encoded_seq(p.constraints@, t.constraints, constraint_encoding(), constraint_decoder());
    lemma_predicate_roundtrip(p.head, t.head);
}

/// `p` is the encoding of the caveat `t`.
pub open spec fn caveat_encoded(p: schema::CaveatV1, t: Seq<RuleModel>) -> bool {
    encodes_all(p.queries@, t, rule_encoding())
}

/// The caveat that `p` decodes to, or the first error among its queries.
pub open spec fn caveat_decoded(p: schema::CaveatV1) -> Result<Seq<RuleModel>, FormatModel> {
    decode_seq(p.queries@, rule_decoder())
}

pub open spec fn caveat_encoding() -> spec_fn(schema::CaveatV1, Seq<RuleModel>) -> bool {
    |p: schema::CaveatV1, t: Seq<RuleModel>| caveat_encoded(p, t)
}

pub open spec fn caveat_decoder() -> spec_fn(schema::CaveatV1) -> Result<
    Seq<RuleModel>,
    FormatModel,
> {
    |p: schema::CaveatV1| caveat_decoded(p)
}

pub fn token_caveat_to_proto_caveat(input: &Caveat) -> (res: schema::CaveatV1)
    requires
        input.wf(),
    ensures
        caveat_encoded(res, input@),
{
    schema::CaveatV1 {
        queries: encode_vec(&input.queries, token_rule_to_proto_rule, Ghost(rule_encoding())),
    }
}

pub fn proto_caveat_to_token_caveat(input: &schema::CaveatV1) -> (res: Result<Caveat, Format>)
    ensures
        result_view(res) == caveat_decoded(*input),
        res matches Ok(c) ==> c.wf(),
{
    match decode_vec(
        &input.queries,
        proto_rule_to_token_rule,
        Ghost(rule_decoder()),
        Ghost(|r: Rule| r.wf()),
    ) {
        Ok(queries) => Ok(Caveat { queries }),
        Err(e) => Err(e),
    }
}

/// Decoding the encoding of a caveat gives the caveat back.
pub proof fn lemma_caveat_roundtrip(p: schema::CaveatV1, t: Seq<RuleModel>)
    requires
        caveat_encoded(p, t),
    ensures
        caveat_decoded(p) == Ok::<Seq<RuleModel>, FormatModel>(t),
{
    assert forall|q: schema::RuleV1, u: RuleModel| #[trigger]
        rule_encoding()(q, u) implies rule_decoder()(q) == Ok::<RuleModel, FormatModel>(u) by {
        lemma_rule_roundtrip(q, u);
    }
    lemma_decode_encoded_seq(p.queries@, t, rule_encoding(), rule_decoder());
}

// ---------------------------------------------------------------------------
// Laws: what each conversion does, variant by variant
// ---------------------------------------------------------------------------

/// Each content of a term message decodes to the term of the same name with
/// the same value; a message without content is refused.
pub proof fn law_id_decoding(p: schema::Idv1)
    ensures
        p.content is None ==> id_decoded(p) == Err::<IDModel, FormatModel>(
            deserialization("deserialization error: ID content enum is empty"@),
        ),
        p.content matches Some(schema::Idv1Content::Symbol(v)) ==> id_decoded(p) == Ok::<
            IDModel,
            FormatModel,
        >(IDModel::Symbol(v)),
        p.content matches Some(schema::Idv1Content::Variable(v)) ==> id_decoded(p) == Ok::<
            IDModel,
            FormatModel,
        >(IDModel::Variable(v)),
        p.content matches Some(schema::Idv1Content::Integer(v)) ==> id_decoded(p) == Ok::<
            IDModel,
            FormatModel,
        >(IDModel::Integer(v)),
        p.content matches Some(schema::Idv1Content::String(v)) ==> id_decoded(p) == Ok::<
            IDModel,
            FormatModel,
        >(IDModel::Str(v@)),
        p.content matches Some(schema::Idv1Content::Date(v)) ==> id_decoded(p) == Ok::<
            IDModel,
            FormatModel,
        >(IDModel::Date(v)),
        p.content matches Some(schema::Idv1Content::Bytes(v)) ==> id_decoded(p) == Ok::<
            IDModel,
            FormatModel,
        >(IDModel::Bytes(v@)),
{
}

/// Each term is written as the content of the same name with the same value.
pub proof fn law_id_encoding(p: schema::Idv1, t: IDModel)
    requires
        id_encoded(p, t),
    ensures
        t matches IDModel::Symbol(v) ==> p.content == Some(schema::Idv1Content::Symbol(v)),
        t matches IDModel::Variable(v) ==> p.content == Some(schema::Idv1Content::Variable(v)),
        t matches IDModel::Integer(v) ==> p.content == Some(schema::Idv1Content::Integer(v)),
        t matches IDModel::Str(v) ==> p.content matches Some(schema::Idv1Content::String(x))
            && x@ == v,
        t matches IDModel::Date(v) ==> p.content == Some(schema::Idv1Content::Date(v)),
        t matches IDModel::Bytes(v) ==> p.content matches Some(schema::Idv1Content::Bytes(x))
            && x@ == v,
{
}

/// A decoded predicate keeps the message's name and has the message's terms,
/// decoded one by one; it fails only when one of its terms fails, with that
/// term's error.
pub proof fn law_predicate_decoding(p: schema::PredicateV1)
    ensures
        predicate_decoded(p) matches Ok(t) ==> t.name == p.name && t.ids.len() == p.ids@.len()
            && forall|i: int|
            0 <= i < p.ids@.len() ==> id_decoded(#[trigger] p.ids@[i]) == Ok::<IDModel, FormatModel>(
                t.ids[i],
            ),
        predicate_decoded(p) matches Err(e) ==> exists|i: int|
            0 <= i < p.ids@.len() && id_decoded(#[trigger] p.ids@[i]) == Err::<IDModel, FormatModel>(
                e,
            ),
        (forall|i: int| 0 <= i < p.ids@.len() ==> (#[trigger] id_decoded(p.ids@[i])) is Ok)
            ==> predicate_decoded(p) is Ok,
{
    lemma_decode_seq_elementwise(p.ids@, id_decoder());
    assert forall|i: int| 0 <= i < p.ids@.len() implies id_decoder()(p.ids@[i]) == id_decoded(
        #[trigger] p.ids@[i],
    ) by {}
}

/// An encoded predicate has the predicate's name and its terms, encoded one
/// by one.
pub proof fn law_predicate_encoding(p: schema::PredicateV1, t: PredicateModel)
    requires
        predicate_encoded(p, t),
    ensures
        p.name == t.name,
        p.ids@.len() == t.ids.len(),
        forall|i: int| 0 <= i < t.ids.len() ==> id_encoded(#[trigger] p.ids@[i], t.ids[i]),
{
    assert forall|i: int| 0 <= i < t.ids.len() implies id_encoded(#[trigger] p.ids@[i], t.ids[i]) by {
        assert(id_encoding()(p.ids@[i], t.ids[i]));
    }
}

/// A fact is decoded and encoded as its predicate.
pub proof fn law_fact(p: schema::FactV1, t: PredicateModel)
    ensures
        fact_decoded(p) == predicate_decoded(p.predicate),
        fact_encoded(p, t) <==> predicate_encoded(p.predicate, t),
{
}

/// Each integer constraint message decodes to the constraint of the same
/// meaning: `LessThan` to `LessThan`, ..., `InSet` to `In` of the listed
/// numbers, `NotInSet` to `NotIn`; a message without constraint is refused.
pub proof fn law_int_constraint_decoding(p: schema::IntConstraintV1)
    ensures
        p.constraint is None ==> int_constraint_decoded(p) == Err::<IntConstraintModel, FormatModel>(
            deserialization("deserialization error: integer constraint enum is empty"@),
        ),
        p.constraint matches Some(schema::IntConstraintV1Constraint::LessThan(v))
            ==> int_constraint_decoded(p) == Ok::<IntConstraintModel, FormatModel>(
            IntConstraintModel::LessThan(v),
        ),
        p.constraint matches Some(schema::IntConstraintV1Constraint::GreaterThan(v))
            ==> int_constraint_decoded(p) == Ok::<IntConstraintModel, FormatModel>(
            IntConstraintModel::GreaterThan(v),
        ),
        p.constraint matches Some(schema::IntConstraintV1Constraint::LessOrEqual(v))
            ==> int_constraint_decoded(p) == Ok::<IntConstraintModel, FormatModel>(
            IntConstraintModel::LessOrEqual(v),
        ),
        p.constraint matches Some(schema::IntConstraintV1Constraint::GreaterOrEqual(v))
            ==> int_constraint_decoded(p) == Ok::<IntConstraintModel, FormatModel>(
            IntConstraintModel::GreaterOrEqual(v),
        ),
        p.constraint matches Some(schema::IntConstraintV1Constraint::Equal(v))
            ==> int_constraint_decoded(p) == Ok::<IntConstraintModel, FormatModel>(
            IntConstraintModel::Equal(v),
        ),
        p.constraint matches Some(schema::IntConstraintV1Constraint::InSet(x))
            ==> int_constraint_decoded(p) == Ok::<IntConstraintModel, FormatModel>(
            IntConstraintModel::In(x.set@.to_set()),
        ),
        p.constraint matches Some(schema::IntConstraintV1Constraint::NotInSet(x))
            ==> int_constraint_decoded(p) == Ok::<IntConstraintModel, FormatModel>(
            IntConstraintModel::NotIn(x.set@.to_set()),
        ),
{
}

/// Each integer constraint is written as the message variant of the same
/// meaning, a set as the list of its elements.
pub proof fn law_int_constraint_encoding(p: schema::IntConstraintV1, t: IntConstraintModel)
    requires
        int_constraint_encoded(p, t),
    ensures
        t matches IntConstraintModel::LessThan(v) ==> p.constraint == Some(
            schema::IntConstraintV1Constraint::LessThan(v),
        ),
        t matches IntConstraintModel::GreaterThan(v) ==> p.constraint == Some(
            schema::IntConstraintV1Constraint::GreaterThan(v),
        ),
        t matches IntConstraintModel::LessOrEqual(v) ==> p.constraint == Some(
            schema::IntConstraintV1Constraint::LessOrEqual(v),
        ),
        t matches IntConstraintModel::GreaterOrEqual(v) ==> p.constraint == Some(
            schema::IntConstraintV1Constraint::GreaterOrEqual(v),
        ),
        t matches IntConstraintModel::Equal(v) ==> p.constraint == Some(
            schema::IntConstraintV1Constraint::Equal(v),
        ),
        t matches IntConstraintModel::In(s) ==> p.constraint matches Some(
            schema::IntConstraintV1Constraint::InSet(x),
        ) && x.set@.to_set() == s && x.set@.no_duplicates(),
        t matches IntConstraintModel::NotIn(s) ==> p.constraint matches Some(
            schema::IntConstraintV1Constraint::NotInSet(x),
        ) && x.set@.to_set() == s && x.set@.no_duplicates(),
{
}

/// Each string constraint message decodes to the constraint of the same
/// meaning; a message without constraint is refused.
pub proof fn law_str_constraint_decoding(p: schema::StringConstraintV1)
    ensures
        p.constraint is None ==> str_constraint_decoded(p) == Err::<StrConstraintModel, FormatModel>(
            deserialization("deserialization error: string constraint enum is empty"@),
        ),
        p.constraint matches Some(schema::StringConstraintV1Constraint::Prefix(v))
            ==> str_constraint_decoded(p) == Ok::<StrConstraintModel, FormatModel>(
            StrConstraintModel::Prefix(v@),
        ),
        p.constraint matches Some(schema::StringConstraintV1Constraint::Suffix(v))
            ==> str_constraint_decoded(p) == Ok::<StrConstraintModel, FormatModel>(
            StrConstraintModel::Suffix(v@),
        ),
        p.constraint matches Some(schema::StringConstraintV1Constraint::Equal(v))
            ==> str_constraint_decoded(p) == Ok::<StrConstraintModel, FormatModel>(
            StrConstraintModel::Equal(v@),
        ),
        p.constraint matches Some(schema::StringConstraintV1Constraint::Regex(v))
            ==> str_constraint_decoded(p) == Ok::<StrConstraintModel, FormatModel>(
            StrConstraintModel::Regex(v@),
        ),
        p.constraint matches Some(schema::StringConstraintV1Constraint::InSet(x))
            ==> str_constraint_decoded(p) == Ok::<StrConstraintModel, FormatModel>(
            StrConstraintModel::In(views(x.set@).to_set()),
        ),
        p.constraint matches Some(schema::StringConstraintV1Constraint::NotInSet(x))
            ==> str_constraint_decoded(p) == Ok::<StrConstraintModel, FormatModel>(
            StrConstraintModel::NotIn(views(x.set@).to_set()),
        ),
{
}

/// Each string constraint is written as the message variant of the same
/// meaning, a set as the list of its elements.
pub proof fn law_str_constraint_encoding(p: schema::StringConstraintV1, t: StrConstraintModel)
    requires
        str_constraint_encoded(p, t),
    ensures
        t matches StrConstraintModel::Prefix(v) ==> p.constraint matches Some(
            schema::StringConstraintV1Constraint::Prefix(x),
        ) && x@ == v,
        t matches StrConstraintModel::Suffix(v) ==> p.constraint matches Some(
            schema::StringConstraintV1Constraint::Suffix(x),
        ) && x@ == v,
        t matches StrConstraintModel::Equal(v) ==> p.constraint matches Some(
            schema::StringConstraintV1Constraint::Equal(x),
        ) && x@ == v,
        t matches StrConstraintModel::Regex(v) ==> p.constraint matches Some(
            schema::StringConstraintV1Constraint::Regex(x),
        ) && x@ == v,
        t matches StrConstraintModel::In(s) ==> p.constraint matches Some(
            schema::StringConstraintV1Constraint::InSet(x),
        ) && views(x.set@).to_set() == s && views(x.set@).no_duplicates(),
        t matches StrConstraintModel::NotIn(s) ==> p.constraint matches Some(
            schema::StringConstraintV1Constraint::NotInSet(x),
        ) && views(x.set@).to_set() == s && views(x.set@).no_duplicates(),
{
}

/// `Before` decodes to `Before` and `After` to `After`, with the same date; a
/// message without constraint is refused. Encoding writes the same variant.
pub proof fn law_date_constraint(p: schema::DateConstraintV1, t: DateConstraint)
    ensures
        p.constraint is None ==> date_constraint_decoded(p) == Err::<DateConstraint, FormatModel>(
            deserialization("deserialization error: date constraint enum is empty"@),
        ),
        p.constraint matches Some(schema::DateConstraintV1Constraint::Before(v))
            ==> date_constraint_decoded(p) == Ok::<DateConstraint, FormatModel>(
            DateConstraint::Before(v),
        ),
        p.constraint matches Some(schema::DateConstraintV1Constraint::After(v))
            ==> date_constraint_decoded(p) == Ok::<DateConstraint, FormatModel>(
            DateConstraint::After(v),
        ),
        date_constraint_encoded(p, t) ==> (t matches DateConstraint::Before(v) ==> p.constraint
            == Some(schema::DateConstraintV1Constraint::Before(v))),
        date_constraint_encoded(p, t) ==> (t matches DateConstraint::After(v) ==> p.constraint
            == Some(schema::DateConstraintV1Constraint::After(v))),
{
}

/// `InSet` decodes to `In` and `NotInSet` to `NotIn`, of the listed symbols; a
/// message without constraint is refused. Encoding writes `In` as `InSet` and
/// `NotIn` as `NotInSet`, listing each symbol once.
pub proof fn law_symbol_constraint(p: schema::SymbolConstraintV1, t: SymbolConstraintModel)
    ensures
        p.constraint is None ==> symbol_constraint_decoded(p) == Err::<
            SymbolConstraintModel,
            FormatModel,
        >(deserialization("deserialization error: symbol constraint enum is empty"@)),
        p.constraint matches Some(schema::SymbolConstraintV1Constraint::InSet(x))
            ==> symbol_constraint_decoded(p) == Ok::<SymbolConstraintModel, FormatModel>(
            SymbolConstraintModel::In(x.set@.to_set()),
        ),
        p.constraint matches Some(schema::SymbolConstraintV1Constraint::NotInSet(x))
            ==> symbol_constraint_decoded(p) == Ok::<SymbolConstraintModel, FormatModel>(
            SymbolConstraintModel::NotIn(x.set@.to_set()),
        ),
        symbol_constraint_encoded(p, t) ==> (t matches SymbolConstraintModel::In(s)
            ==> p.constraint matches Some(schema::SymbolConstraintV1Constraint::InSet(x))
            && x.set@.to_set() == s && x.set@.no_duplicates()),
        symbol_constraint_encoded(p, t) ==> (t matches SymbolConstraintModel::NotIn(s)
            ==> p.constraint matches Some(schema::SymbolConstraintV1Constraint::NotInSet(x))
            && x.set@.to_set() == s && x.set@.no_duplicates()),
{
}

/// `Equal` decodes to `Equal`, `InSet` to `In` and `NotInSet` to `NotIn`; a
/// message without constraint is refused. Encoding writes the same variant.
pub proof fn law_bytes_constraint(p: schema::BytesConstraintV1, t: BytesConstraintModel)
    ensures
        p.constraint is None ==> bytes_constraint_decoded(p) == Err::<
            BytesConstraintModel,
            FormatModel,
        >(deserialization("deserialization error: bytes constraint enum is empty"@)),
        p.constraint matches Some(schema::BytesConstraintV1Constraint::Equal(v))
            ==> bytes_constraint_decoded(p) == Ok::<BytesConstraintModel, FormatModel>(
            BytesConstraintModel::Equal(v@),
        ),
        p.constraint matches Some(schema::BytesConstraintV1Constraint::InSet(x))
            ==> bytes_constraint_decoded(p) == Ok::<BytesConstraintModel, FormatModel>(
            BytesConstraintModel::In(views(x.set@).to_set()),
        ),
        p.constraint matches Some(schema::BytesConstraintV1Constraint::NotInSet(x))
            ==> bytes_constraint_decoded(p) == Ok::<BytesConstraintModel, FormatModel>(
            BytesConstraintModel::NotIn(views(x.set@).to_set()),
        ),
        bytes_constraint_encoded(p, t) ==> (t matches BytesConstraintModel::Equal(v)
            ==> p.constraint matches Some(schema::BytesConstraintV1Constraint::Equal(x)) && x@
            == v),
        bytes_constraint_encoded(p, t) ==> (t matches BytesConstraintModel::In(s)
            ==> p.constraint matches Some(schema::BytesConstraintV1Constraint::InSet(x)) && views(
            x.set@,
        ).to_set() == s && views(x.set@).no_duplicates()),
        bytes_constraint_encoded(p, t) ==> (t matches BytesConstraintModel::NotIn(s)
            ==> p.constraint matches Some(schema::BytesConstraintV1Constraint::NotInSet(x))
            && views(x.set@).to_set() == s && views(x.set@).no_duplicates()),
{
}

/// A decoded constraint carries the message's variable and the decoding of
/// the inner constraint of the same kind; a message without constraint is
/// refused, and an inner failure is the constraint's failure.
pub proof fn law_constraint_decoding(p: schema::ConstraintV1)
    ensures
        constraint_decoded(p) matches Ok(c) ==> c.id == p.id,
        p.constraint is None ==> constraint_decoded(p) == Err::<ConstraintModel, FormatModel>(
            deserialization("deserialization error: constraint enum is empty"@),
        ),
        p.constraint matches Some(schema::ConstraintV1Constraint::Int(x)) ==> (match int_constraint_decoded(x) {
            Ok(c) => constraint_decoded(p) == Ok::<ConstraintModel, FormatModel>(
                ConstraintModel { id: p.id, kind: ConstraintKindModel::Int(c) },
            ),
            Err(e) => constraint_decoded(p) == Err::<ConstraintModel, FormatModel>(e),
        }),
        p.constraint matches Some(schema::ConstraintV1Constraint::String(x)) ==> (match str_constraint_decoded(x) {
            Ok(c) => constraint_decoded(p) == Ok::<ConstraintModel, FormatModel>(
                ConstraintModel { id: p.id, kind: ConstraintKindModel::Str(c) },
            ),
            Err(e) => constraint_decoded(p) == Err::<ConstraintModel, FormatModel>(e),
        }),
        p.constraint matches Some(schema::ConstraintV1Constraint::Date(x)) ==> (match date_constraint_decoded(x) {
            Ok(c) => constraint_decoded(p) == Ok::<ConstraintModel, FormatModel>(
                ConstraintModel { id: p.id, kind: ConstraintKindModel::Date(c) },
            ),
            Err(e) => constraint_decoded(p) == Err::<ConstraintModel, FormatModel>(e),
        }),
        p.constraint matches Some(schema::ConstraintV1Constraint::Symbol(x)) ==> (match symbol_constraint_decoded(x) {
            Ok(c) => constraint_decoded(p) == Ok::<ConstraintModel, FormatModel>(
                ConstraintModel { id: p.id, kind: ConstraintKindModel::Symbol(c) },
            ),
            Err(e) => constraint_decoded(p) == Err::<ConstraintModel, FormatModel>(e),
        }),
        p.constraint matches Some(schema::ConstraintV1Constraint::Bytes(x)) ==> (match bytes_constraint_decoded(x) {
            Ok(c) => constraint_decoded(p) == Ok::<ConstraintModel, FormatModel>(
                ConstraintModel { id: p.id, kind: ConstraintKindModel::Bytes(c) },
            ),
            Err(e) => constraint_decoded(p) == Err::<ConstraintModel, FormatModel>(e),
        }),
{
}

/// An encoded constraint carries the constraint's variable, and its inner
/// constraint in the message variant of the same kind.
pub proof fn law_constraint_encoding(p: schema::ConstraintV1, t: ConstraintModel)
    requires
        constraint_encoded(p, t),
    ensures
        p.id == t.id,
        t.kind matches ConstraintKindModel::Int(c) ==> p.constraint matches Some(
            schema::ConstraintV1Constraint::Int(x),
        ) && int_constraint_encoded(x, c),
        t.kind matches ConstraintKindModel::Str(c) ==> p.constraint matches Some(
            schema::ConstraintV1Constraint::String(x),
        ) && str_constraint_encoded(x, c),
        t.kind matches ConstraintKindModel::Date(c) ==> p.constraint matches Some(
            schema::ConstraintV1Constraint::Date(x),
        ) && date_constraint_encoded(x, c),
        t.kind matches ConstraintKindModel::Symbol(c) ==> p.constraint matches Some(
            schema::ConstraintV1Constraint::Symbol(x),
        ) && symbol_constraint_encoded(x, c),
        t.kind matches ConstraintKindModel::Bytes(c) ==> p.constraint matches Some(
            schema::ConstraintV1Constraint::Bytes(x),
        ) && bytes_constraint_encoded(x, c),
{
}

/// A decoded rule has the message's head, body and constraints, each decoded
/// one by one; it fails only when one of them fails, with that error.
pub proof fn law_rule_decoding(p: schema::RuleV1)
    ensures
        rule_decoded(p) matches Ok(r) ==> {
            &&& predicate_decoded(p.head) == Ok::<PredicateModel, FormatModel>(r.head)
            &&& r.body.len() == p.body@.len()
            &&& forall|i: int|
                0 <= i < p.body@.len() ==> predicate_decoded(#[trigger] p.body@[i]) == Ok::<
                    PredicateModel,
                    FormatModel,
                >(r.body[i])
            &&& r.constraints.len() == p.constraints@.len()
            &&& forall|i: int|
                0 <= i < p.constraints@.len() ==> constraint_decoded(#[trigger] p.constraints@[i])
                    == Ok::<ConstraintModel, FormatModel>(r.constraints[i])
        },
        rule_decoded(p) matches Err(e) ==> predicate_decoded(p.head) == Err::<
            PredicateModel,
            FormatModel,
        >(e) || (exists|i: int|
            0 <= i < p.body@.len() && predicate_decoded(#[trigger] p.body@[i]) == Err::<
                PredicateModel,
                FormatModel,
            >(e)) || (exists|i: int|
            0 <= i < p.constraints@.len() && constraint_decoded(#[trigger] p.constraints@[i])
                == Err::<ConstraintModel, FormatModel>(e)),
{
    lemma_decode_seq_elementwise(p.body@, predicate_decoder());
    lemma_decode_seq_elementwise(p.constraints@, constraint_decoder());
    assert forall|i: int| 0 <= i < p.body@.len() implies predicate_decoder()(p.body@[i])
        == predicate_decoded(#[trigger] p.body@[i]) by {}
    assert forall|i: int| 0 <= i < p.constraints@.len() implies constraint_decoder()(
        p.constraints@[i],
    ) == constraint_decoded(#[trigger] p.constraints@[i]) by {}
}

/// An encoded rule has the rule's head, body and constraints, each encoded.
pub proof fn law_rule_encoding(p: schema::RuleV1, t: RuleModel)
    requires
        rule_encoded(p, t),
    ensures
        predicate_encoded(p.head, t.head),
        p.body@.len() == t.body.len(),
        forall|i: int| 0 <= i < t.body.len() ==> predicate_encoded(#[trigger] p.body@[i], t.body[i]),
        p.constraints@.len() == t.constraints.len(),
        forall|i: int|
            0 <= i < t.constraints.len() ==> constraint_encoded(
                #[trigger] p.constraints@[i],
                t.constraints[i],
            ),
{
    assert forall|i: int| 0 <= i < t.body.len() implies predicate_encoded(
        #[trigger] p.body@[i],
        t.body[i],
    ) by {
        assert(predicate_encoding()(p.body@[i], t.body[i]));
    }
    assert forall|i: int| 0 <= i < t.constraints.len() implies constraint_encoded(
        #[trigger] p.constraints@[i],
        t.constraints[i],
    ) by {
        assert(constraint_encoding()(p.constraints@[i], t.constraints[i]));
    }
}

/// A caveat's queries are decoded, and encoded, one by one.
pub proof fn law_caveat(p: schema::CaveatV1, t: Seq<RuleModel>)
    ensures
        caveat_decoded(p) matches Ok(r) ==> r.len() == p.queries@.len() && forall|i: int|
            0 <= i < p.queries@.len() ==> rule_decoded(#[trigger] p.queries@[i]) == Ok::<
                RuleModel,
                FormatModel,
            >(r[i]),
        caveat_decoded(p) matches Err(e) ==> exists|i: int|
            0 <= i < p.queries@.len() && rule_decoded(#[trigger] p.queries@[i]) == Err::<
                RuleModel,
                FormatModel,
            >(e),
        caveat_encoded(p, t) ==> p.queries@.len() == t.len() && forall|i: int|
            0 <= i < t.len() ==> rule_encoded(#[trigger] p.queries@[i], t[i]),
{
    lemma_decode_seq_elementwise(p.queries@, rule_decoder());
    assert forall|i: int| 0 <= i < p.queries@.len() implies rule_decoder()(p.queries@[i])
        == rule_decoded(#[trigger] p.queries@[i]) by {}
    if caveat_encoded(p, t) {
        assert forall|i: int| 0 <= i < t.len() implies rule_encoded(#[trigger] p.queries@[i], t[i]) by {
            assert(rule_encoding()(p.queries@[i], t[i]));
        }
    }
}


/// Errors come out in reading order: a predicate's error is that of its first
/// failing term.
pub proof fn law_predicate_error_order(p: schema::PredicateV1, i: int)
    requires
        0 <= i < p.ids@.len(),
        id_decoded(p.ids@[i]) is Err,
        forall|j: int| 0 <= j < i ==> (#[trigger] id_decoded(p.ids@[j])) is Ok,
    ensures
        predicate_decoded(p) == Err::<PredicateModel, FormatModel>(id_decoded(p.ids@[i])->Err_0),
{
    assert forall|j: int| 0 <= j < i implies (#[trigger] id_decoder()(p.ids@[j])) is Ok by {
        assert(id_decoded(p.ids@[j]) is Ok);
    }
    lemma_decode_seq_first_error(p.ids@, id_decoder(), i);
}

/// A rule's body is read first, then its constraints, then its head: the
/// error is that of the first failing body predicate; when the body reads,
/// that of the first failing constraint; when those read too, that of the
/// head.
pub proof fn law_rule_error_order(p: schema::RuleV1, i: int)
    ensures
        0 <= i < p.body@.len() && predicate_decoded(p.body@[i]) is Err && (forall|j: int|
            0 <= j < i ==> (#[trigger] predicate_decoded(p.body@[j])) is Ok) ==> rule_decoded(p)
            == Err::<RuleModel, FormatModel>(predicate_decoded(p.body@[i])->Err_0),
        (forall|j: int| 0 <= j < p.body@.len() ==> (#[trigger] predicate_decoded(p.body@[j])) is Ok)
            && 0 <= i < p.constraints@.len() && constraint_decoded(p.constraints@[i]) is Err && (
        forall|j: int| 0 <= j < i ==> (#[trigger] constraint_decoded(p.constraints@[j])) is Ok)
            ==> rule_decoded(p) == Err::<RuleModel, FormatModel>(
            constraint_decoded(p.constraints@[i])->Err_0,
        ),
        (forall|j: int| 0 <= j < p.body@.len() ==> (#[trigger] predicate_decoded(p.body@[j])) is Ok)
            && (forall|j: int|
            0 <= j < p.constraints@.len() ==> (#[trigger] constraint_decoded(p.constraints@[j])) is Ok)
            && predicate_decoded(p.head) is Err ==> rule_decoded(p) == Err::<RuleModel, FormatModel>(
            predicate_decoded(p.head)->Err_0,
        ),
{
    assert forall|j: int| 0 <= j < p.body@.len() implies predicate_decoder()(p.body@[j])
        == predicate_decoded(#[trigger] p.body@[j]) by {}
    assert forall|j: int| 0 <= j < p.constraints@.len() implies constraint_decoder()(
        p.constraints@[j],
    ) == constraint_decoded(#[trigger] p.constraints@[j]) by {}
    lemma_decode_seq_elementwise(p.body@, predicate_decoder());
    lemma_decode_seq_elementwise(p.constraints@, constraint_decoder());
    if 0 <= i < p.body@.len() && predicate_decoded(p.body@[i]) is Err && (forall|j: int|
        0 <= j < i ==> (#[trigger] predicate_decoded(p.body@[j])) is Ok) {
        assert forall|j: int| 0 <= j < i implies (#[trigger] predicate_decoder()(p.body@[j])) is Ok by {
            assert(predicate_decoded(p.body@[j]) is Ok);
        }
        lemma_decode_seq_first_error(p.body@, predicate_decoder(), i);
    }
    if (forall|j: int| 0 <= j < p.body@.len() ==> (#[trigger] predicate_decoded(p.body@[j])) is Ok)
        && 0 <= i < p.constraints@.len() && constraint_decoded(p.constraints@[i]) is Err && (
    forall|j: int| 0 <= j < i ==> (#[trigger] constraint_decoded(p.constraints@[j])) is Ok) {
        assert forall|j: int| 0 <= j < i implies (#[trigger] constraint_decoder()(
            p.constraints@[j],
        )) is Ok by {
            assert(constraint_decoded(p.constraints@[j]) is Ok);
        }
        lemma_decode_seq_first_error(p.constraints@, constraint_decoder(), i);
    }
}

/// A caveat's error is that of its first failing query.
pub proof fn law_caveat_error_order(p: schema::CaveatV1, i: int)
    requires
        0 <= i < p.queries@.len(),
        rule_decoded(p.queries@[i]) is Err,
        forall|j: int| 0 <= j < i ==> (#[trigger] rule_decoded(p.queries@[j])) is Ok,
    ensures
        caveat_decoded(p) == Err::<Seq<RuleModel>, FormatModel>(rule_decoded(p.queries@[i])->Err_0),
{
    assert forall|j: int| 0 <= j < i implies (#[trigger] rule_decoder()(p.queries@[j])) is Ok by {
        assert(rule_decoded(p.queries@[j]) is Ok);
    }
    lemma_decode_seq_first_error(p.queries@, rule_decoder(), i);
}

} // verus!
