//! The messages of the serialized format, as a protobuf decoder hands them
//! over: required fields as plain values, optional ones as `Option`, repeated
//! ones as `Vec`, and enumerations as their `i32` wire values.
use vstd::prelude::*;

verus! {

/// The aggregated signature of a token.
#[derive(Clone, Debug, PartialEq, Eq, Default)]
pub struct Signature {
    pub parameters: Vec<Vec<u8>>,
    pub z: Vec<u8>,
}

/// A block of a token.
#[derive(Clone, Debug, PartialEq, Eq, Default)]
pub struct Block {
    pub index: u32,
    pub symbols: Vec<String>,
    pub facts_v0: Vec<FactV0>,
    pub rules_v0: Vec<RuleV0>,
    pub caveats_v0: Vec<CaveatV0>,
    pub context: Option<String>,
    pub version: Option<u32>,
    pub facts_v1: Vec<FactV1>,
    pub rules_v1: Vec<RuleV1>,
    pub caveats_v1: Vec<CaveatV1>,
}

#[derive(Clone, Debug, PartialEq, Eq, Default)]
pub struct FactV0 {
    pub predicate: PredicateV0,
}

#[derive(Clone, Debug, PartialEq, Eq, Default)]
pub struct RuleV0 {
    pub head: PredicateV0,
    pub body: Vec<PredicateV0>,
    pub constraints: Vec<ConstraintV0>,
}

#[derive(Clone, Debug, PartialEq, Eq, Default)]
pub struct CaveatV0 {
    pub queries: Vec<RuleV0>,
}

#[derive(Clone, Debug, PartialEq, Eq, Default)]
pub struct PredicateV0 {
    pub name: u64,
    pub ids: Vec<Idv0>,
}

/// A term, version 0: `kind` tells which of the optional fields holds it.
#[derive(Clone, Debug, PartialEq, Eq, Default)]
pub struct Idv0 {
    pub kind: i32,
    pub symbol: Option<u64>,
    pub variable: Option<u32>,
    pub integer: Option<i64>,
    pub str: Option<String>,
    pub date: Option<u64>,
    pub bytes: Option<Vec<u8>>,
}

/// A constraint, version 0: `kind` tells which of the optional fields holds it.
#[derive(Clone, Debug, PartialEq, Eq, Default)]
pub struct ConstraintV0 {
    pub id: u32,
    pub kind: i32,
    pub int: Option<IntConstraintV0>,
    pub str: Option<StringConstraintV0>,
    pub date: Option<DateConstraintV0>,
    pub symbol: Option<SymbolConstraintV0>,
    pub bytes: Option<BytesConstraintV0>,
}

#[derive(Clone, Debug, PartialEq, Eq, Default)]
pub struct IntConstraintV0 {
    pub kind: i32,
    pub lower: Option<i64>,
    pub larger: Option<i64>,
    pub lower_or_equal: Option<i64>,
    pub larger_or_equal: Option<i64>,
    pub equal: Option<i64>,
    pub in_set: Vec<i64>,
    pub not_in_set: Vec<i64>,
}

#[derive(Clone, Debug, PartialEq, Eq, Default)]
pub struct StringConstraintV0 {
    pub kind: i32,
    pub prefix: Option<String>,
    pub suffix: Option<String>,
    pub equal: Option<String>,
    pub in_set: Vec<String>,
    pub not_in_set: Vec<String>,
    pub regex: Option<String>,
}

#[derive(Clone, Debug, PartialEq, Eq, Default)]
pub struct DateConstraintV0 {
    pub kind: i32,
    pub before: Option<u64>,
    pub after: Option<u64>,
}

#[derive(Clone, Debug, PartialEq, Eq, Default)]
pub struct SymbolConstraintV0 {
    pub kind: i32,
    pub in_set: Vec<u64>,
    pub not_in_set: Vec<u64>,
}

#[derive(Clone, Debug, PartialEq, Eq, Default)]
pub struct BytesConstraintV0 {
    pub kind: i32,
    pub equal: Option<Vec<u8>>,
    pub in_set: Vec<Vec<u8>>,
    pub not_in_set: Vec<Vec<u8>>,
}

#[derive(Clone, Debug, PartialEq, Eq, Default)]
pub struct FactV1 {
    pub predicate: PredicateV1,
}

#[derive(Clone, Debug, PartialEq, Eq, Default)]
pub struct RuleV1 {
    pub head: PredicateV1,
    pub body: Vec<PredicateV1>,
    pub constraints: Vec<ConstraintV1>,
}

#[derive(Clone, Debug, PartialEq, Eq, Default)]
pub struct CaveatV1 {
    pub queries: Vec<RuleV1>,
}

#[derive(Clone, Debug, PartialEq, Eq, Default)]
pub struct PredicateV1 {
    pub name: u64,
    pub ids: Vec<Idv1>,
}

/// A term, version 1.
#[derive(Clone, Debug, PartialEq, Eq, Default)]
pub struct Idv1 {
    pub content: Option<Idv1Content>,
}

/// The content of a term, version 1.
#[derive(Clone, Debug, PartialEq, Eq)]
pub enum Idv1Content {
    Symbol(u64),
    Variable(u32),
    Integer(i64),
    String(String),
    Date(u64),
    Bytes(Vec<u8>),
}

/// A constraint, version 1.
#[derive(Clone, Debug, PartialEq, Eq, Default)]
pub struct ConstraintV1 {
    pub id: u32,
    pub constraint: Option<ConstraintV1Constraint>,
}

/// The constraint carried by a [`ConstraintV1`].
#[derive(Clone, Debug, PartialEq, Eq)]
pub enum ConstraintV1Constraint {
    Int(IntConstraintV1),
    String(StringConstraintV1),
    Date(DateConstraintV1),
    Symbol(SymbolConstraintV1),
    Bytes(BytesConstraintV1),
}

#[derive(Clone, Debug, PartialEq, Eq, Default)]
pub struct IntConstraintV1 {
    pub constraint: Option<IntConstraintV1Constraint>,
}

#[derive(Clone, Debug, PartialEq, Eq)]
pub enum IntConstraintV1Constraint {
    LessThan(i64),
    GreaterThan(i64),
    LessOrEqual(i64),
    GreaterOrEqual(i64),
    Equal(i64),
    InSet(IntSet),
    NotInSet(IntSet),
}

#[derive(Clone, Debug, PartialEq, Eq, Default)]
pub struct IntSet {
    pub set: Vec<i64>,
}

#[derive(Clone, Debug, PartialEq, Eq, Default)]
pub struct StringConstraintV1 {
    pub constraint: Option<StringConstraintV1Constraint>,
}

#[derive(Clone, Debug, PartialEq, Eq)]
pub enum StringConstraintV1Constraint {
    Prefix(String),
    Suffix(String),
    Equal(String),
    InSet(StringSet),
    NotInSet(StringSet),
    Regex(String),
}

#[derive(Clone, Debug, PartialEq, Eq, Default)]
pub struct StringSet {
    pub set: Vec<String>,
}

#[derive(Clone, Debug, PartialEq, Eq, Default)]
pub struct DateConstraintV1 {
    pub constraint: Option<DateConstraintV1Constraint>,
}

#[derive(Clone, Debug, PartialEq, Eq)]
pub enum DateConstraintV1Constraint {
    Before(u64),
    After(u64),
}

#[derive(Clone, Debug, PartialEq, Eq, Default)]
pub struct SymbolConstraintV1 {
    pub constraint: Option<SymbolConstraintV1Constraint>,
}

#[derive(Clone, Debug, PartialEq, Eq)]
pub enum SymbolConstraintV1Constraint {
    InSet(SymbolSet),
    NotInSet(SymbolSet),
}

#[derive(Clone, Debug, PartialEq, Eq, Default)]
pub struct SymbolSet {
    pub set: Vec<u64>,
}

#[derive(Clone, Debug, PartialEq, Eq, Default)]
pub struct BytesConstraintV1 {
    pub constraint: Option<BytesConstraintV1Constraint>,
}

#[derive(Clone, Debug, PartialEq, Eq)]
pub enum BytesConstraintV1Constraint {
    Equal(Vec<u8>),
    InSet(BytesSet),
    NotInSet(BytesSet),
}

#[derive(Clone, Debug, PartialEq, Eq, Default)]
pub struct BytesSet {
    pub set: Vec<Vec<u8>>,
}

/// The kind of a term, version 0.
#[derive(Clone, Copy, Debug, PartialEq, Eq)]
pub enum Idv0Kind {
    Symbol,
    Variable,
    Integer,
    Str,
    Date,
    Bytes,
}

impl Idv0Kind {
    /// The kind that a wire value names, if any.
    pub open spec fn spec_from_i32(v: i32) -> Option<Idv0Kind> {
        if v == 0 {
            Some(Idv0Kind::Symbol)
        } else if v == 1 {
            Some(Idv0Kind::Variable)
        } else if v == 2 {
            Some(Idv0Kind::Integer)
        } else if v == 3 {
            Some(Idv0Kind::Str)
        } else if v == 4 {
            Some(Idv0Kind::Date)
        } else if v == 5 {
            Some(Idv0Kind::Bytes)
        } else {
            None
        }
    }

    /// The wire value of the kind.
    pub open spec fn spec_to_i32(self) -> i32 {
        match self {
            Idv0Kind::Symbol => 0,
            Idv0Kind::Variable => 1,
            Idv0Kind::Integer => 2,
            Idv0Kind::Str => 3,
            Idv0Kind::Date => 4,
            Idv0Kind::Bytes => 5,
        }
    }

    /// The kind that a wire value names, if any.
    pub fn from_i32(v: i32) -> (res: Option<Idv0Kind>)
        ensures
            res == Self::spec_from_i32(v),
    {
        if v == 0 {
            Some(Idv0Kind::Symbol)
        } else if v == 1 {
            Some(Idv0Kind::Variable)
        } else if v == 2 {
            Some(Idv0Kind::Integer)
        } else if v == 3 {
            Some(Idv0Kind::Str)
        } else if v == 4 {
            Some(Idv0Kind::Date)
        } else if v == 5 {
            Some(Idv0Kind::Bytes)
        } else {
            None
        }
    }

    /// The wire value of the kind.
    pub fn to_i32(self) -> (res: i32)
        ensures
            res == self.spec_to_i32(),
    {
        match self {
            Idv0Kind::Symbol => 0,
            Idv0Kind::Variable => 1,
            Idv0Kind::Integer => 2,
            Idv0Kind::Str => 3,
            Idv0Kind::Date => 4,
            Idv0Kind::Bytes => 5,
        }
    }
}

/// The kind of a constraint, version 0.
#[derive(Clone, Copy, Debug, PartialEq, Eq)]
pub enum ConstraintV0Kind {
    Int,
    String,
    Date,
    Symbol,
    Bytes,
}

impl ConstraintV0Kind {
    /// The kind that a wire value names, if any.
    pub open spec fn spec_from_i32(v: i32) -> Option<ConstraintV0Kind> {
        if v == 0 {
            Some(ConstraintV0Kind::Int)
        } else if v == 1 {
            Some(ConstraintV0Kind::String)
        } else if v == 2 {
            Some(ConstraintV0Kind::Date)
        } else if v == 3 {
            Some(ConstraintV0Kind::Symbol)
        } else if v == 4 {
            Some(ConstraintV0Kind::Bytes)
        } else {
            None
        }
    }

    /// The wire value of the kind.
    pub open spec fn spec_to_i32(self) -> i32 {
        match self {
            ConstraintV0Kind::Int => 0,
            ConstraintV0Kind::String => 1,
            ConstraintV0Kind::Date => 2,
            ConstraintV0Kind::Symbol => 3,
            ConstraintV0Kind::Bytes => 4,
        }
    }

    /// The kind that a wire value names, if any.
    pub fn from_i32(v: i32) -> (res: Option<ConstraintV0Kind>)
        ensures
            res == Self::spec_from_i32(v),
    {
        if v == 0 {
            Some(ConstraintV0Kind::Int)
        } else if v == 1 {
            Some(ConstraintV0Kind::String)
        } else if v == 2 {
            Some(ConstraintV0Kind::Date)
        } else if v == 3 {
            Some(ConstraintV0Kind::Symbol)
        } else if v == 4 {
            Some(ConstraintV0Kind::Bytes)
        } else {
            None
        }
    }

    /// The wire value of the kind.
    pub fn to_i32(self) -> (res: i32)
        ensures
            res == self.spec_to_i32(),
    {
        match self {
            ConstraintV0Kind::Int => 0,
            ConstraintV0Kind::String => 1,
            ConstraintV0Kind::Date => 2,
            ConstraintV0Kind::Symbol => 3,
            ConstraintV0Kind::Bytes => 4,
        }
    }
}

/// The kind of an integer constraint, version 0.
#[derive(Clone, Copy, Debug, PartialEq, Eq)]
pub enum IntConstraintV0Kind {
    Lower,
    Larger,
    LowerOrEqual,
    LargerOrEqual,
    Equal,
    In,
    NotIn,
}

impl IntConstraintV0Kind {
    /// The kind that a wire value names, if any.
    pub open spec fn spec_from_i32(v: i32) -> Option<IntConstraintV0Kind> {
        if v == 0 {
            Some(IntConstraintV0Kind::Lower)
        } else if v == 1 {
            Some(IntConstraintV0Kind::Larger)
        } else if v == 2 {
            Some(IntConstraintV0Kind::LowerOrEqual)
        } else if v == 3 {
            Some(IntConstraintV0Kind::LargerOrEqual)
        } else if v == 4 {
            Some(IntConstraintV0Kind::Equal)
        } else if v == 5 {
            Some(IntConstraintV0Kind::In)
        } else if v == 6 {
            Some(IntConstraintV0Kind::NotIn)
        } else {
            None
        }
    }

    /// The wire value of the kind.
    pub open spec fn spec_to_i32(self) -> i32 {
        match self {
            IntConstraintV0Kind::Lower => 0,
            IntConstraintV0Kind::Larger => 1,
            IntConstraintV0Kind::LowerOrEqual => 2,
            IntConstraintV0Kind::LargerOrEqual => 3,
            IntConstraintV0Kind::Equal => 4,
            IntConstraintV0Kind::In => 5,
            IntConstraintV0Kind::NotIn => 6,
        }
    }

    /// The kind that a wire value names, if any.
    pub fn from_i32(v: i32) -> (res: Option<IntConstraintV0Kind>)
        ensures
            res == Self::spec_from_i32(v),
    {
        if v == 0 {
            Some(IntConstraintV0Kind::Lower)
        } else if v == 1 {
            Some(IntConstraintV0Kind::Larger)
        } else if v == 2 {
            Some(IntConstraintV0Kind::LowerOrEqual)
        } else if v == 3 {
            Some(IntConstraintV0Kind::LargerOrEqual)
        } else if v == 4 {
            Some(IntConstraintV0Kind::Equal)
        } else if v == 5 {
            Some(IntConstraintV0Kind::In)
        } else if v == 6 {
            Some(IntConstraintV0Kind::NotIn)
        } else {
            None
        }
    }

    /// The wire value of the kind.
    pub fn to_i32(self) -> (res: i32)
        ensures
            res == self.spec_to_i32(),
    {
        match self {
            IntConstraintV0Kind::Lower => 0,
            IntConstraintV0Kind::Larger => 1,
            IntConstraintV0Kind::LowerOrEqual => 2,
            IntConstraintV0Kind::LargerOrEqual => 3,
            IntConstraintV0Kind::Equal => 4,
            IntConstraintV0Kind::In => 5,
            IntConstraintV0Kind::NotIn => 6,
        }
    }
}

/// The kind of a string constraint, version 0.
#[derive(Clone, Copy, Debug, PartialEq, Eq)]
pub enum StringConstraintV0Kind {
    Prefix,
    Suffix,
    Equal,
    Regex,
    In,
    NotIn,
}

impl StringConstraintV0Kind {
    /// The kind that a wire value names, if any.
    pub open spec fn spec_from_i32(v: i32) -> Option<StringConstraintV0Kind> {
        if v == 0 {
            Some(StringConstraintV0Kind::Prefix)
        } else if v == 1 {
            Some(StringConstraintV0Kind::Suffix)
        } else if v == 2 {
            Some(StringConstraintV0Kind::Equal)
        } else if v == 3 {
            Some(StringConstraintV0Kind::Regex)
        } else if v == 4 {
            Some(StringConstraintV0Kind::In)
        } else if v == 5 {
            Some(StringConstraintV0Kind::NotIn)
        } else {
            None
        }
    }

    /// The wire value of the kind.
    pub open spec fn spec_to_i32(self) -> i32 {
        match self {
            StringConstraintV0Kind::Prefix => 0,
            StringConstraintV0Kind::Suffix => 1,
            StringConstraintV0Kind::Equal => 2,
            StringConstraintV0Kind::Regex => 3,
            StringConstraintV0Kind::In => 4,
            StringConstraintV0Kind::NotIn => 5,
        }
    }

    /// The kind that a wire value names, if any.
    pub fn from_i32(v: i32) -> (res: Option<StringConstraintV0Kind>)
        ensures
            res == Self::spec_from_i32(v),
    {
        if v == 0 {
            Some(StringConstraintV0Kind::Prefix)
        } else if v == 1 {
            Some(StringConstraintV0Kind::Suffix)
        } else if v == 2 {
            Some(StringConstraintV0Kind::Equal)
        } else if v == 3 {
            Some(StringConstraintV0Kind::Regex)
        } else if v == 4 {
            Some(StringConstraintV0Kind::In)
        } else if v == 5 {
            Some(StringConstraintV0Kind::NotIn)
        } else {
            None
        }
    }

    /// The wire value of the kind.
    pub fn to_i32(self) -> (res: i32)
        ensures
            res == self.spec_to_i32(),
    {
        match self {
            StringConstraintV0Kind::Prefix => 0,
            StringConstraintV0Kind::Suffix => 1,
            StringConstraintV0Kind::Equal => 2,
            StringConstraintV0Kind::Regex => 3,
            StringConstraintV0Kind::In => 4,
            StringConstraintV0Kind::NotIn => 5,
        }
    }
}

/// The kind of a date constraint, version 0.
#[derive(Clone, Copy, Debug, PartialEq, Eq)]
pub enum DateConstraintV0Kind {
    Before,
    After,
}

impl DateConstraintV0Kind {
    /// The kind that a wire value names, if any.
    pub open spec fn spec_from_i32(v: i32) -> Option<DateConstraintV0Kind> {
        if v == 0 {
            Some(DateConstraintV0Kind::Before)
        } else if v == 1 {
            Some(DateConstraintV0Kind::After)
        } else {
            None
        }
    }

    /// The wire value of the kind.
    pub open spec fn spec_to_i32(self) -> i32 {
        match self {
            DateConstraintV0Kind::Before => 0,
            DateConstraintV0Kind::After => 1,
        }
    }

    /// The kind that a wire value names, if any.
    pub fn from_i32(v: i32) -> (res: Option<DateConstraintV0Kind>)
        ensures
            res == Self::spec_from_i32(v),
    {
        if v == 0 {
            Some(DateConstraintV0Kind::Before)
        } else if v == 1 {
            Some(DateConstraintV0Kind::After)
        } else {
            None
        }
    }

    /// The wire value of the kind.
    pub fn to_i32(self) -> (res: i32)
        ensures
            res == self.spec_to_i32(),
    {
        match self {
            DateConstraintV0Kind::Before => 0,
            DateConstraintV0Kind::After => 1,
        }
    }
}

/// The kind of a symbol constraint, version 0.
#[derive(Clone, Copy, Debug, PartialEq, Eq)]
pub enum SymbolConstraintV0Kind {
    In,
    NotIn,
}

impl SymbolConstraintV0Kind {
    /// The kind that a wire value names, if any.
    pub open spec fn spec_from_i32(v: i32) -> Option<SymbolConstraintV0Kind> {
        if v == 0 {
            Some(SymbolConstraintV0Kind::In)
        } else if v == 1 {
            Some(SymbolConstraintV0Kind::NotIn)
        } else {
            None
        }
    }

    /// The wire value of the kind.
    pub open spec fn spec_to_i32(self) -> i32 {
        match self {
            SymbolConstraintV0Kind::In => 0,
            SymbolConstraintV0Kind::NotIn => 1,
        }
    }

    /// The kind that a wire value names, if any.
    pub fn from_i32(v: i32) -> (res: Option<SymbolConstraintV0Kind>)
        ensures
            res == Self::spec_from_i32(v),
    {
        if v == 0 {
            Some(SymbolConstraintV0Kind::In)
        } else if v == 1 {
            Some(SymbolConstraintV0Kind::NotIn)
        } else {
            None
        }
    }

    /// The wire value of the kind.
    pub fn to_i32(self) -> (res: i32)
        ensures
            res == self.spec_to_i32(),
    {
        match self {
            SymbolConstraintV0Kind::In => 0,
            SymbolConstraintV0Kind::NotIn => 1,
        }
    }
}

/// The kind of a bytes constraint, version 0.
#[derive(Clone, Copy, Debug, PartialEq, Eq)]
pub enum BytesConstraintV0Kind {
    Equal,
    In,
    NotIn,
}

impl BytesConstraintV0Kind {
    /// The kind that a wire value names, if any.
    pub open spec fn spec_from_i32(v: i32) -> Option<BytesConstraintV0Kind> {
        if v == 0 {
            Some(BytesConstraintV0Kind::Equal)
        } else if v == 1 {
            Some(BytesConstraintV0Kind::In)
        } else if v == 2 {
            Some(BytesConstraintV0Kind::NotIn)
        } else {
            None
        }
    }

    /// The wire value of the kind.
    pub open spec fn spec_to_i32(self) -> i32 {
        match self {
            BytesConstraintV0Kind::Equal => 0,
            BytesConstraintV0Kind::In => 1,
            BytesConstraintV0Kind::NotIn => 2,
        }
    }

    /// The kind that a wire value names, if any.
    pub fn from_i32(v: i32) -> (res: Option<BytesConstraintV0Kind>)
        ensures
            res == Self::spec_from_i32(v),
    {
        if v == 0 {
            Some(BytesConstraintV0Kind::Equal)
        } else if v == 1 {
            Some(BytesConstraintV0Kind::In)
        } else if v == 2 {
            Some(BytesConstraintV0Kind::NotIn)
        } else {
            None
        }
    }

    /// The wire value of the kind.
    pub fn to_i32(self) -> (res: i32)
        ensures
            res == self.spec_to_i32(),
    {
        match self {
            BytesConstraintV0Kind::Equal => 0,
            BytesConstraintV0Kind::In => 1,
            BytesConstraintV0Kind::NotIn => 2,
        }
    }
}
} // verus!
