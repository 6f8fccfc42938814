//! The datalog values carried by a token block, and their mathematical models.
use std::collections::HashSet;
use vstd::prelude::*;

verus! {

/// The models of the elements of a sequence.
pub open spec fn views<T: View>(s: Seq<T>) -> Seq<T::V> {
    s.map_values(|x: T| x@)
}

/// Pushing onto a sequence pushes the element's model onto the models.
pub proof fn lemma_views_push<T: View>(s: Seq<T>, x: T)
    ensures
        views(s.push(x)) == views(s).push(x@),
{
    assert(views(s.push(x)) =~= views(s).push(x@));
}

/// The contents of a sequence used as a set: the models of its elements.
pub open spec fn view_set<T: View>(s: Seq<T>) -> Set<T::V> {
    views(s).to_set()
}

/// No two elements of the sequence have the same model.
pub open spec fn distinct_views<T: View>(s: Seq<T>) -> bool {
    views(s).no_duplicates()
}

/// A term of a predicate.
#[derive(Clone, Debug, PartialEq, Eq)]
pub enum ID {
    Symbol(u64),
    Variable(u32),
    Integer(i64),
    Str(String),
    Date(u64),
    Bytes(Vec<u8>),
}

/// Model of an [`ID`].
pub enum IDModel {
    Symbol(u64),
    Variable(u32),
    Integer(i64),
    Str(Seq<char>),
    Date(u64),
    Bytes(Seq<u8>),
}

impl View for ID {
    type V = IDModel;

    open spec fn view(&self) -> IDModel {
        match self {
            ID::Symbol(s) => IDModel::Symbol(*s),
            ID::Variable(v) => IDModel::Variable(*v),
            ID::Integer(i) => IDModel::Integer(*i),
            ID::Str(s) => IDModel::Str(s@),
            ID::Date(d) => IDModel::Date(*d),
            ID::Bytes(b) => IDModel::Bytes(b@),
        }
    }
}

/// A predicate: a symbol applied to a list of terms.
#[derive(Clone, Debug, PartialEq, Eq)]
pub struct Predicate {
    pub name: u64,
    pub ids: Vec<ID>,
}

/// Model of a [`Predicate`].
pub struct PredicateModel {
    pub name: u64,
    pub ids: Seq<IDModel>,
}

impl View for Predicate {
    type V = PredicateModel;

    open spec fn view(&self) -> PredicateModel {
        PredicateModel { name: self.name, ids: views(self.ids@) }
    }
}

/// A fact; its model is the model of its predicate.
#[derive(Clone, Debug, PartialEq, Eq)]
pub struct Fact {
    pub predicate: Predicate,
}

impl View for Fact {
    type V = PredicateModel;

    open spec fn view(&self) -> PredicateModel {
        self.predicate@
    }
}

/// A constraint on integer values.
#[derive(Debug, PartialEq, Eq)]
pub enum IntConstraint {
    LessThan(i64),
    GreaterThan(i64),
    LessOrEqual(i64),
    GreaterOrEqual(i64),
    Equal(i64),
    In(HashSet<i64>),
    NotIn(HashSet<i64>),
}

/// Model of an [`IntConstraint`].
pub enum IntConstraintModel {
    LessThan(i64),
    GreaterThan(i64),
    LessOrEqual(i64),
    GreaterOrEqual(i64),
    Equal(i64),
    In(Set<i64>),
    NotIn(Set<i64>),
}

impl View for IntConstraint {
    type V = IntConstraintModel;

    open spec fn view(&self) -> IntConstraintModel {
        match self {
            IntConstraint::LessThan(i) => IntConstraintModel::LessThan(*i),
            IntConstraint::GreaterThan(i) => IntConstraintModel::GreaterThan(*i),
            IntConstraint::LessOrEqual(i) => IntConstraintModel::LessOrEqual(*i),
            IntConstraint::GreaterOrEqual(i) => IntConstraintModel::GreaterOrEqual(*i),
            IntConstraint::Equal(i) => IntConstraintModel::Equal(*i),
            IntConstraint::In(s) => IntConstraintModel::In(s@),
            IntConstraint::NotIn(s) => IntConstraintModel::NotIn(s@),
        }
    }
}

/// A constraint on string values. The sets are held as vectors in which no
/// string occurs twice.
#[derive(Clone, Debug, PartialEq, Eq)]
pub enum StrConstraint {
    Prefix(String),
    Suffix(String),
    Equal(String),
    Regex(String),
    In(Vec<String>),
    NotIn(Vec<String>),
}

/// Model of a [`StrConstraint`].
pub enum StrConstraintModel {
    Prefix(Seq<char>),
    Suffix(Seq<char>),
    Equal(Seq<char>),
    Regex(Seq<char>),
    In(Set<Seq<char>>),
    NotIn(Set<Seq<char>>),
}

impl View for StrConstraint {
    type V = StrConstraintModel;

    open spec fn view(&self) -> StrConstraintModel {
        match self {
            StrConstraint::Prefix(s) => StrConstraintModel::Prefix(s@),
            StrConstraint::Suffix(s) => StrConstraintModel::Suffix(s@),
            StrConstraint::Equal(s) => StrConstraintModel::Equal(s@),
            StrConstraint::Regex(s) => StrConstraintModel::Regex(s@),
            StrConstraint::In(s) => StrConstraintModel::In(view_set(s@)),
            StrConstraint::NotIn(s) => StrConstraintModel::NotIn(view_set(s@)),
        }
    }
}

impl StrConstraint {
    /// The sets hold no string twice.
    pub open spec fn wf(&self) -> bool {
        match self {
            StrConstraint::In(s) => distinct_views(s@),
            StrConstraint::NotIn(s) => distinct_views(s@),
            _ => true,
        }
    }
}

/// A constraint on dates.
#[derive(Clone, Copy, Debug, PartialEq, Eq)]
pub enum DateConstraint {
    Before(u64),
    After(u64),
}

impl View for DateConstraint {
    type V = DateConstraint;

    open spec fn view(&self) -> DateConstraint {
        *self
    }
}

/// A constraint on symbols.
#[derive(Debug, PartialEq, Eq)]
pub enum SymbolConstraint {
    In(HashSet<u64>),
    NotIn(HashSet<u64>),
}

/// Model of a [`SymbolConstraint`].
pub enum SymbolConstraintModel {
    In(Set<u64>),
    NotIn(Set<u64>),
}

impl View for SymbolConstraint {
    type V = SymbolConstraintModel;

    open spec fn view(&self) -> SymbolConstraintModel {
        match self {
            SymbolConstraint::In(s) => SymbolConstraintModel::In(s@),
            SymbolConstraint::NotIn(s) => SymbolConstraintModel::NotIn(s@),
        }
    }
}

/// A constraint on byte strings. The sets are held as vectors in which no
/// byte string occurs twice.
#[derive(Clone, Debug, PartialEq, Eq)]
pub enum BytesConstraint {
    Equal(Vec<u8>),
    In(Vec<Vec<u8>>),
    NotIn(Vec<Vec<u8>>),
}

/// Model of a [`BytesConstraint`].
pub enum BytesConstraintModel {
    Equal(Seq<u8>),
    In(Set<Seq<u8>>),
    NotIn(Set<Seq<u8>>),
}

impl View for BytesConstraint {
    type V = BytesConstraintModel;

    open spec fn view(&self) -> BytesConstraintModel {
        match self {
            BytesConstraint::Equal(b) => BytesConstraintModel::Equal(b@),
            BytesConstraint::In(s) => BytesConstraintModel::In(view_set(s@)),
            BytesConstraint::NotIn(s) => BytesConstraintModel::NotIn(view_set(s@)),
        }
    }
}

impl BytesConstraint {
    /// The sets hold no byte string twice.
    pub open spec fn wf(&self) -> bool {
        match self {
            BytesConstraint::In(s) => distinct_views(s@),
            BytesConstraint::NotIn(s) => distinct_views(s@),
            _ => true,
        }
    }
}

/// The kind of a constraint, with its parameters.
#[derive(Debug, PartialEq, Eq)]
pub enum ConstraintKind {
    Int(IntConstraint),
    Str(StrConstraint),
    Date(DateConstraint),
    Symbol(SymbolConstraint),
    Bytes(BytesConstraint),
}

/// Model of a [`ConstraintKind`].
pub enum ConstraintKindModel {
    Int(IntConstraintModel),
    Str(StrConstraintModel),
    Date(DateConstraint),
    Symbol(SymbolConstraintModel),
    Bytes(BytesConstraintModel),
}

impl View for ConstraintKind {
    type V = ConstraintKindModel;

    open spec fn view(&self) -> ConstraintKindModel {
        match self {
            ConstraintKind::Int(c) => ConstraintKindModel::Int(c@),
            ConstraintKind::Str(c) => ConstraintKindModel::Str(c@),
            ConstraintKind::Date(c) => ConstraintKindModel::Date(c@),
            ConstraintKind::Symbol(c) => ConstraintKindModel::Symbol(c@),
            ConstraintKind::Bytes(c) => ConstraintKindModel::Bytes(c@),
        }
    }
}

impl ConstraintKind {
    pub open spec fn wf(&self) -> bool {
        match self {
            ConstraintKind::Str(c) => c.wf(),
            ConstraintKind::Bytes(c) => c.wf(),
            _ => true,
        }
    }
}

/// A constraint on the value bound to a variable.
#[derive(Debug, PartialEq, Eq)]
pub struct Constraint {
    pub id: u32,
    pub kind: ConstraintKind,
}

/// Model of a [`Constraint`].
pub struct ConstraintModel {
    pub id: u32,
    pub kind: ConstraintKindModel,
}

impl View for Constraint {
    type V = ConstraintModel;

    open spec fn view(&self) -> ConstraintModel {
        ConstraintModel { id: self.id, kind: self.kind@ }
    }
}

impl Constraint {
    pub open spec fn wf(&self) -> bool {
        self.kind.wf()
    }
}

/// All constraints of the sequence are well formed.
pub open spec fn constraints_wf(s: Seq<Constraint>) -> bool {
    forall|i: int| 0 <= i < s.len() ==> (#[trigger] s[i]).wf()
}

/// A rule: a head derived from a body, under constraints.
#[derive(Debug, PartialEq, Eq)]
pub struct Rule {
    pub head: Predicate,
    pub body: Vec<Predicate>,
    pub constraints: Vec<Constraint>,
}

/// Model of a [`Rule`].
pub struct RuleModel {
    pub head: PredicateModel,
    pub body: Seq<PredicateModel>,
    pub constraints: Seq<ConstraintModel>,
}

impl View for Rule {
    type V = RuleModel;

    open spec fn view(&self) -> RuleModel {
        RuleModel { head: self.head@, body: views(self.body@), constraints: views(self.constraints@) }
    }
}

impl Rule {
    pub open spec fn wf(&self) -> bool {
        constraints_wf(self.constraints@)
    }
}

/// All rules of the sequence are well formed.
pub open spec fn rules_wf(s: Seq<Rule>) -> bool {
    forall|i: int| 0 <= i < s.len() ==> (#[trigger] s[i]).wf()
}

/// A caveat: a list of queries; its model is the sequence of their models.
#[derive(Debug, PartialEq, Eq)]
pub struct Caveat {
    pub queries: Vec<Rule>,
}

impl View for Caveat {
    type V = Seq<RuleModel>;

    open spec fn view(&self) -> Seq<RuleModel> {
        views(self.queries@)
    }
}

impl Caveat {
    pub open spec fn wf(&self) -> bool {
        rules_wf(self.queries@)
    }
}

/// All caveats of the sequence are well formed.
pub open spec fn caveats_wf(s: Seq<Caveat>) -> bool {
    forall|i: int| 0 <= i < s.len() ==> (#[trigger] s[i]).wf()
}

/// The table of symbol names of a block.
#[derive(Clone, Debug, PartialEq, Eq)]
pub struct SymbolTable {
    pub symbols: Vec<String>,
}

impl View for SymbolTable {
    type V = Seq<Seq<char>>;

    open spec fn view(&self) -> Seq<Seq<char>> {
        views(self.symbols@)
    }
}

/// The model of a term is the term of the same name with the same value.
pub proof fn law_id_view(t: ID)
    ensures
        t matches ID::Symbol(v) ==> t@ == IDModel::Symbol(v),
        t matches ID::Variable(v) ==> t@ == IDModel::Variable(v),
        t matches ID::Integer(v) ==> t@ == IDModel::Integer(v),
        t matches ID::Str(v) ==> t@ == IDModel::Str(v@),
        t matches ID::Date(v) ==> t@ == IDModel::Date(v),
        t matches ID::Bytes(v) ==> t@ == IDModel::Bytes(v@),
{
}

/// The model of a predicate has its name and the models of its terms; a fact
/// is modelled by its predicate.
pub proof fn law_predicate_view(p: Predicate, f: Fact)
    ensures
        p@.name == p.name,
        p@.ids.len() == p.ids@.len(),
        forall|i: int| 0 <= i < p.ids@.len() ==> p@.ids[i] == (#[trigger] p.ids@[i])@,
        f@ == f.predicate@,
{
}

/// The model of a constraint is the constraint of the same name, over the
/// same value or the set of the listed values.
pub proof fn law_constraint_views(
    i: IntConstraint,
    s: StrConstraint,
    y: SymbolConstraint,
    b: BytesConstraint,
    c: Constraint,
)
    ensures
        i matches IntConstraint::LessThan(v) ==> i@ == IntConstraintModel::LessThan(v),
        i matches IntConstraint::GreaterThan(v) ==> i@ == IntConstraintModel::GreaterThan(v),
        i matches IntConstraint::LessOrEqual(v) ==> i@ == IntConstraintModel::LessOrEqual(v),
        i matches IntConstraint::GreaterOrEqual(v) ==> i@ == IntConstraintModel::GreaterOrEqual(v),
        i matches IntConstraint::Equal(v) ==> i@ == IntConstraintModel::Equal(v),
        i matches IntConstraint::In(v) ==> i@ == IntConstraintModel::In(v@),
        i matches IntConstraint::NotIn(v) ==> i@ == IntConstraintModel::NotIn(v@),
        s matches StrConstraint::Prefix(v) ==> s@ == StrConstraintModel::Prefix(v@),
        s matches StrConstraint::Suffix(v) ==> s@ == StrConstraintModel::Suffix(v@),
        s matches StrConstraint::Equal(v) ==> s@ == StrConstraintModel::Equal(v@),
        s matches StrConstraint::Regex(v) ==> s@ == StrConstraintModel::Regex(v@),
        s matches StrConstraint::In(v) ==> s@ == StrConstraintModel::In(views(v@).to_set()),
        s matches StrConstraint::NotIn(v) ==> s@ == StrConstraintModel::NotIn(views(v@).to_set()),
        y matches SymbolConstraint::In(v) ==> y@ == SymbolConstraintModel::In(v@),
        y matches SymbolConstraint::NotIn(v) ==> y@ == SymbolConstraintModel::NotIn(v@),
        b matches BytesConstraint::Equal(v) ==> b@ == BytesConstraintModel::Equal(v@),
        b matches BytesConstraint::In(v) ==> b@ == BytesConstraintModel::In(views(v@).to_set()),
        b matches BytesConstraint::NotIn(v) ==> b@ == BytesConstraintModel::NotIn(views(v@).to_set()),
        c@.id == c.id,
        c.kind matches ConstraintKind::Int(k) ==> c@.kind == ConstraintKindModel::Int(k@),
        c.kind matches ConstraintKind::Str(k) ==> c@.kind == ConstraintKindModel::Str(k@),
        c.kind matches ConstraintKind::Date(k) ==> c@.kind == ConstraintKindModel::Date(k),
        c.kind matches ConstraintKind::Symbol(k) ==> c@.kind == ConstraintKindModel::Symbol(k@),
        c.kind matches ConstraintKind::Bytes(k) ==> c@.kind == ConstraintKindModel::Bytes(k@),
{
}

/// The model of a rule has the models of its head, body and constraints, one
/// for one; a caveat is modelled by the models of its queries.
pub proof fn law_rule_view(r: Rule, c: Caveat)
    ensures
        r@.head == r.head@,
        r@.body.len() == r.body@.len(),
        forall|i: int| 0 <= i < r.body@.len() ==> r@.body[i] == (#[trigger] r.body@[i])@,
        r@.constraints.len() == r.constraints@.len(),
        forall|i: int|
            0 <= i < r.constraints@.len() ==> r@.constraints[i] == (#[trigger] r.constraints@[i])@,
        c@.len() == c.queries@.len(),
        forall|i: int| 0 <= i < c.queries@.len() ==> c@[i] == (#[trigger] c.queries@[i])@,
{
}

} // verus!
