use biscuit_format::crypto::TokenSignature;
use biscuit_format::datalog::{
    Caveat, Constraint, ConstraintKind, Fact, IntConstraint, Predicate, Rule, StrConstraint,
    SymbolTable, ID,
};
use biscuit_format::error::Format;
use biscuit_format::format::convert::{
    parameter_from_decompression, proto_block_to_token_block, proto_sig_to_token_sig,
    token_block_to_proto_block, token_sig_to_proto_sig,
};
use biscuit_format::format::schema;
use biscuit_format::token::{Block, MAX_SCHEMA_VERSION};
use curve25519_dalek::constants::RISTRETTO_BASEPOINT_COMPRESSED;
use curve25519_dalek::scalar::Scalar;

fn deser(text: &str) -> Format {
    Format::DeserializationError(text.to_string())
}

fn rule() -> Rule {
    Rule {
        head: Predicate { name: 1, ids: vec![ID::Variable(0)] },
        body: vec![Predicate { name: 2, ids: vec![ID::Variable(0), ID::Str("x".to_string())] }],
        constraints: vec![
            Constraint { id: 0, kind: ConstraintKind::Int(IntConstraint::LessThan(10)) },
            Constraint {
                id: 0,
                kind: ConstraintKind::Str(StrConstraint::In(vec!["a".to_string()])),
            },
        ],
    }
}

fn block(version: u32) -> Block {
    Block {
        index: 2,
        symbols: SymbolTable { symbols: vec!["authority".to_string(), "ambient".to_string()] },
        facts: vec![Fact { predicate: Predicate { name: 7, ids: vec![ID::Integer(1)] } }],
        rules: vec![rule()],
        caveats: vec![Caveat { queries: vec![rule()] }],
        context: Some("ctx".to_string()),
        version,
    }
}

#[test]
fn block_is_written_in_version_one_fields() {
    let p = token_block_to_proto_block(&block(1));
    assert_eq!(p.index, 2);
    assert_eq!(p.symbols, vec!["authority".to_string(), "ambient".to_string()]);
    assert!(p.facts_v0.is_empty() && p.rules_v0.is_empty() && p.caveats_v0.is_empty());
    assert_eq!(p.facts_v1.len(), 1);
    assert_eq!(p.rules_v1.len(), 1);
    assert_eq!(p.caveats_v1.len(), 1);
    assert_eq!(p.context, Some("ctx".to_string()));
    assert_eq!(p.version, Some(1));
}

#[test]
fn block_roundtrip() {
    let p = token_block_to_proto_block(&block(1));
    assert_eq!(proto_block_to_token_block(&p), Ok(block(1)));
}

#[test]
fn empty_block_of_version_zero_roundtrip() {
    let b = Block {
        index: 0,
        symbols: SymbolTable { symbols: vec![] },
        facts: vec![],
        rules: vec![],
        caveats: vec![],
        context: None,
        version: 0,
    };
    let p = token_block_to_proto_block(&b);
    assert_eq!(proto_block_to_token_block(&p), Ok(b));
}

#[test]
fn version_zero_block_reads_version_zero_fields() {
    // a version 0 block with contents is written in the version 1 fields,
    // which a version 0 reader does not look at
    let p = token_block_to_proto_block(&block(0));
    let read = proto_block_to_token_block(&p).unwrap();
    assert!(read.facts.is_empty() && read.rules.is_empty() && read.caveats.is_empty());
    assert_eq!(read.version, 0);

    let mut q = schema::Block::default();
    q.facts_v0 = vec![schema::FactV0 {
        predicate: schema::PredicateV0 {
            name: 4,
            ids: vec![schema::Idv0 { kind: 0, symbol: Some(2), ..Default::default() }],
        },
    }];
    let read = proto_block_to_token_block(&q).unwrap();
    assert_eq!(read.version, 0);
    assert_eq!(read.facts, vec![Fact { predicate: Predicate { name: 4, ids: vec![ID::Symbol(2)] } }]);
}

#[test]
fn block_with_unknown_version_is_refused() {
    let mut p = token_block_to_proto_block(&block(1));
    p.version = Some(MAX_SCHEMA_VERSION + 1);
    assert_eq!(
        proto_block_to_token_block(&p),
        Err(Format::Version { maximum: 1, actual: 2 })
    );
}

#[test]
fn block_reports_first_error_in_facts() {
    let mut p = token_block_to_proto_block(&block(1));
    p.facts_v1[0].predicate.ids[0].content = None;
    p.rules_v1[0].head.ids[0].content = None;
    assert_eq!(
        proto_block_to_token_block(&p),
        Err(deser("deserialization error: ID content enum is empty"))
    );
}

fn base_point() -> Vec<u8> {
    RISTRETTO_BASEPOINT_COMPRESSED.to_bytes().to_vec()
}

fn group_order_bytes() -> Vec<u8> {
    // little-endian encoding of 2^252 + 27742317777372353535851937790883648493
    vec![
        0xed, 0xd3, 0xf5, 0x5c, 0x1a, 0x63, 0x12, 0x58, 0xd6, 0x9c, 0xf7, 0xa2, 0xde, 0xf9, 0xde,
        0x14, 0, 0, 0, 0, 0, 0, 0, 0, 0, 0, 0, 0, 0, 0, 0, 0x10,
    ]
}

#[test]
fn signature_roundtrip() {
    let sig = TokenSignature {
        parameters: vec![base_point(), vec![0u8; 32]],
        z: Scalar::one().to_bytes().to_vec(),
    };
    let p = token_sig_to_proto_sig(&sig);
    assert_eq!(p.parameters, sig.parameters);
    assert_eq!(p.z, sig.z);
    assert_eq!(proto_sig_to_token_sig(p), Ok(sig));
}

#[test]
fn signature_parameter_of_wrong_size_is_refused() {
    let p = schema::Signature { parameters: vec![base_point(), vec![1u8; 31]], z: vec![0u8; 32] };
    assert_eq!(
        proto_sig_to_token_sig(p),
        Err(deser("deserialization error: invalid size for parameters = 31"))
    );
}

#[test]
fn signature_parameter_that_is_no_point_is_refused() {
    let p = schema::Signature { parameters: vec![vec![0xffu8; 32]], z: vec![0u8; 32] };
    assert_eq!(
        proto_sig_to_token_sig(p),
        Err(deser("deserialization error: cannot decompress parameters point"))
    );
}

#[test]
fn signature_z_of_wrong_size_is_refused() {
    let p = schema::Signature { parameters: vec![base_point()], z: vec![0u8; 3] };
    assert_eq!(
        proto_sig_to_token_sig(p),
        Err(deser("deserialization error: invalid size for z = 3 bytes"))
    );
    let q = schema::Signature { parameters: vec![], z: vec![0u8; 100] };
    assert_eq!(
        proto_sig_to_token_sig(q),
        Err(deser("deserialization error: invalid size for z = 100 bytes"))
    );
}

#[test]
fn signature_z_must_be_below_group_order() {
    let at_order = schema::Signature { parameters: vec![], z: group_order_bytes() };
    assert_eq!(
        proto_sig_to_token_sig(at_order),
        Err(deser("deserialization error: non canonical z scalar"))
    );
    let mut below = group_order_bytes();
    below[0] -= 1;
    let just_below = schema::Signature { parameters: vec![], z: below.clone() };
    assert_eq!(
        proto_sig_to_token_sig(just_below),
        Ok(TokenSignature { parameters: vec![], z: below })
    );
    let high = schema::Signature { parameters: vec![], z: vec![0xffu8; 32] };
    assert!(proto_sig_to_token_sig(high).is_err());
}

#[test]
fn parameter_check_outcome() {
    let point = base_point();
    assert_eq!(parameter_from_decompression(&point, true), Ok(point.clone()));
    assert_eq!(
        parameter_from_decompression(&point, false),
        Err(deser("deserialization error: cannot decompress parameters point"))
    );
}
