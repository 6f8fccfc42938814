//! A block of a token, as the library holds it.
use crate::datalog::{caveats_wf, rules_wf, views, Caveat, Fact, PredicateModel, Rule, RuleModel, SymbolTable};
use vstd::prelude::*;

verus! {

/// The highest schema version that this library reads.
pub const MAX_SCHEMA_VERSION: u32 = 1;

/// A block of a token.
#[derive(Debug, PartialEq, Eq)]
pub struct Block {
    pub index: u32,
    pub symbols: SymbolTable,
    pub facts: Vec<Fact>,
    pub rules: Vec<Rule>,
    pub caveats: Vec<Caveat>,
    pub context: Option<String>,
    pub version: u32,
}

/// Model of a [`Block`].
pub struct BlockModel {
    pub index: u32,
    pub symbols: Seq<Seq<char>>,
    pub facts: Seq<PredicateModel>,
    pub rules: Seq<RuleModel>,
    pub caveats: Seq<Seq<RuleModel>>,
    pub context: Option<Seq<char>>,
    pub version: u32,
}

/// The model of an optional string.
pub open spec fn opt_string_view(s: Option<String>) -> Option<Seq<char>> {
    match s {
        Some(s) => Some(s@),
        None => None,
    }
}

impl View for Block {
    type V = BlockModel;

    open spec fn view(&self) -> BlockModel {
        BlockModel {
            index: self.index,
            symbols: self.symbols@,
            facts: views(self.facts@),
            rules: views(self.rules@),
            caveats: views(self.caveats@),
            context: opt_string_view(self.context),
            version: self.version,
        }
    }
}

impl Block {
    /// The sets held by the block's constraints hold no element twice.
    pub open spec fn wf(&self) -> bool {
        rules_wf(self.rules@) && caveats_wf(self.caveats@)
    }
}

/// The model of a block has its index, symbols, context and version, and
/// the models of its facts, rules and caveats, one for one.
pub proof fn law_block_view(b: Block)
    ensures
        b@.index == b.index,
        b@.symbols == views(b.symbols.symbols@),
        b@.context == opt_string_view(b.context),
        b@.version == b.version,
        b@.facts.len() == b.facts@.len(),
        forall|i: int| 0 <= i < b.facts@.len() ==> b@.facts[i] == (#[trigger] b.facts@[i])@,
        b@.rules.len() == b.rules@.len(),
        forall|i: int| 0 <= i < b.rules@.len() ==> b@.rules[i] == (#[trigger] b.rules@[i])@,
        b@.caveats.len() == b.caveats@.len(),
        forall|i: int| 0 <= i < b.caveats@.len() ==> b@.caveats[i] == (#[trigger] b.caveats@[i])@,
{
}

} // verus!
