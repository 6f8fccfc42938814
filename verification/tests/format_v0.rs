use biscuit_format::datalog::{
    BytesConstraint, Caveat, Constraint, ConstraintKind, DateConstraint, Fact, IntConstraint,
    Predicate, Rule, StrConstraint, SymbolConstraint, ID,
};
use biscuit_format::error::Format;
use biscuit_format::format::convert::v0;
use biscuit_format::format::schema;
use biscuit_format::format::schema::{ConstraintV0Kind, Idv0Kind, IntConstraintV0Kind};
use std::collections::HashSet;

fn deser(text: &str) -> Format {
    Format::DeserializationError(text.to_string())
}

#[test]
fn v0_id_encoding_sets_kind_and_one_field() {
    let p = v0::token_id_to_proto_id(&ID::Integer(42));
    assert_eq!(
        p,
        schema::Idv0 { kind: 2, integer: Some(42), ..Default::default() }
    );
    let q = v0::token_id_to_proto_id(&ID::Str("s".to_string()));
    assert_eq!(q, schema::Idv0 { kind: 3, str: Some("s".to_string()), ..Default::default() });
}

#[test]
fn v0_id_roundtrip() {
    let ids = vec![
        ID::Symbol(3),
        ID::Variable(7),
        ID::Integer(-12),
        ID::Str("hello".to_string()),
        ID::Date(1_600_000_000),
        ID::Bytes(vec![0xbe, 0xef]),
    ];
    for id in ids {
        let p = v0::token_id_to_proto_id(&id);
        assert_eq!(v0::proto_id_to_token_id(&p), Ok(id));
    }
}

#[test]
fn v0_id_errors() {
    let unknown = schema::Idv0 { kind: 6, ..Default::default() };
    assert_eq!(v0::proto_id_to_token_id(&unknown), Err(deser("deserialization error: invalid id kind")));
    let missing = schema::Idv0 { kind: 0, integer: Some(1), ..Default::default() };
    assert_eq!(v0::proto_id_to_token_id(&missing), Err(deser("deserialization error: invalid id")));
}

#[test]
fn v0_id_reads_only_the_field_of_its_kind() {
    let p = schema::Idv0 { kind: 1, variable: Some(3), integer: Some(9), ..Default::default() };
    assert_eq!(v0::proto_id_to_token_id(&p), Ok(ID::Variable(3)));
}

#[test]
fn v0_predicate_fact_roundtrip() {
    let pred = Predicate { name: 5, ids: vec![ID::Symbol(1), ID::Date(2)] };
    let p = v0::token_predicate_to_proto_predicate(&pred);
    assert_eq!(v0::proto_predicate_to_token_predicate(&p), Ok(pred.clone()));
    let fact = Fact { predicate: pred };
    let f = v0::token_fact_to_proto_fact(&fact);
    assert_eq!(v0::proto_fact_to_token_fact(&f), Ok(fact));
}

#[test]
fn v0_int_constraint_roundtrip() {
    let cases = vec![
        IntConstraint::LessThan(1),
        IntConstraint::GreaterThan(-2),
        IntConstraint::LessOrEqual(3),
        IntConstraint::GreaterOrEqual(4),
        IntConstraint::Equal(5),
        IntConstraint::In([1i64, 2].iter().cloned().collect()),
        IntConstraint::NotIn([9i64].iter().cloned().collect()),
    ];
    for c in cases {
        let p = v0::token_int_constraint_to_proto_int_constraint(&c);
        assert_eq!(v0::proto_int_constraint_to_token_int_constraint(&p), Ok(c));
    }
}

#[test]
fn v0_int_constraint_empty_set_does_not_read_back() {
    let p = v0::token_int_constraint_to_proto_int_constraint(&IntConstraint::In(HashSet::new()));
    assert_eq!(p.kind, 5);
    assert_eq!(
        v0::proto_int_constraint_to_token_int_constraint(&p),
        Err(deser("deserialization error: invalid id"))
    );
    let unknown = schema::IntConstraintV0 { kind: 7, ..Default::default() };
    assert_eq!(
        v0::proto_int_constraint_to_token_int_constraint(&unknown),
        Err(deser("deserialization error: invalid int constraint kind"))
    );
}

#[test]
fn v0_str_constraint_roundtrip_and_errors() {
    let cases = vec![
        StrConstraint::Prefix("a".to_string()),
        StrConstraint::Suffix("b".to_string()),
        StrConstraint::Equal("c".to_string()),
        StrConstraint::Regex("d+".to_string()),
        StrConstraint::In(vec!["e".to_string(), "f".to_string()]),
        StrConstraint::NotIn(vec!["g".to_string()]),
    ];
    for c in cases {
        let p = v0::token_str_constraint_to_proto_str_constraint(&c);
        assert_eq!(v0::proto_str_constraint_to_token_str_constraint(&p), Ok(c));
    }
    let missing = schema::StringConstraintV0 { kind: 3, ..Default::default() };
    assert_eq!(
        v0::proto_str_constraint_to_token_str_constraint(&missing),
        Err(deser("deserialization error: invalid string constraint"))
    );
    let unknown = schema::StringConstraintV0 { kind: -1, ..Default::default() };
    assert_eq!(
        v0::proto_str_constraint_to_token_str_constraint(&unknown),
        Err(deser("deserialization error: invalid string constraint kind"))
    );
    let repeated = schema::StringConstraintV0 {
        kind: 4,
        in_set: vec!["x".to_string(), "x".to_string()],
        ..Default::default()
    };
    assert_eq!(
        v0::proto_str_constraint_to_token_str_constraint(&repeated),
        Ok(StrConstraint::In(vec!["x".to_string()]))
    );
}

#[test]
fn v0_date_constraint_roundtrip_and_errors() {
    for c in vec![DateConstraint::Before(1), DateConstraint::After(2)] {
        let p = v0::token_date_constraint_to_proto_date_constraint(&c);
        assert_eq!(v0::proto_date_constraint_to_token_date_constraint(&p), Ok(c));
    }
    let p = v0::token_date_constraint_to_proto_date_constraint(&DateConstraint::After(9));
    assert_eq!(p, schema::DateConstraintV0 { kind: 1, before: None, after: Some(9) });
    let missing = schema::DateConstraintV0 { kind: 0, before: None, after: Some(1) };
    assert_eq!(
        v0::proto_date_constraint_to_token_date_constraint(&missing),
        Err(deser("deserialization error: invalid date constraint"))
    );
    let unknown = schema::DateConstraintV0 { kind: 2, before: None, after: None };
    assert_eq!(
        v0::proto_date_constraint_to_token_date_constraint(&unknown),
        Err(deser("deserialization error: invalid date constraint kind"))
    );
}

#[test]
fn v0_symbol_constraint_roundtrip_and_errors() {
    let set: HashSet<u64> = [3u64, 4].iter().cloned().collect();
    for c in vec![SymbolConstraint::In(set.clone()), SymbolConstraint::NotIn(set)] {
        let p = v0::token_symbol_constraint_to_proto_symbol_constraint(&c);
        assert_eq!(v0::proto_symbol_constraint_to_token_symbol_constraint(&p), Ok(c));
    }
    let empty = schema::SymbolConstraintV0 { kind: 1, in_set: vec![], not_in_set: vec![] };
    assert_eq!(
        v0::proto_symbol_constraint_to_token_symbol_constraint(&empty),
        Err(deser("deserialization error: invalid symbol constraint"))
    );
    let unknown = schema::SymbolConstraintV0 { kind: 2, in_set: vec![1], not_in_set: vec![] };
    assert_eq!(
        v0::proto_symbol_constraint_to_token_symbol_constraint(&unknown),
        Err(deser("deserialization error: invalid symbol constraint kind"))
    );
}

#[test]
fn v0_bytes_constraint_roundtrip_and_errors() {
    let cases = vec![
        BytesConstraint::Equal(vec![1]),
        BytesConstraint::In(vec![vec![2], vec![3]]),
        BytesConstraint::NotIn(vec![vec![4]]),
    ];
    for c in cases {
        let p = v0::token_bytes_constraint_to_proto_bytes_constraint(&c);
        assert_eq!(v0::proto_bytes_constraint_to_token_bytes_constraint(&p), Ok(c));
    }
    let missing = schema::BytesConstraintV0 { kind: 0, ..Default::default() };
    assert_eq!(
        v0::proto_bytes_constraint_to_token_bytes_constraint(&missing),
        Err(deser("deserialization error: invalid string constraint"))
    );
    let unknown = schema::BytesConstraintV0 { kind: 3, ..Default::default() };
    assert_eq!(
        v0::proto_bytes_constraint_to_token_bytes_constraint(&unknown),
        Err(deser("deserialization error: invalid bytes constraint kind"))
    );
}

#[test]
fn v0_constraint_roundtrip_except_symbol() {
    let cases = vec![
        Constraint { id: 0, kind: ConstraintKind::Int(IntConstraint::Equal(1)) },
        Constraint { id: 1, kind: ConstraintKind::Str(StrConstraint::Suffix("s".to_string())) },
        Constraint { id: 2, kind: ConstraintKind::Date(DateConstraint::Before(5)) },
        Constraint { id: 4, kind: ConstraintKind::Bytes(BytesConstraint::Equal(vec![7])) },
    ];
    for c in cases {
        let p = v0::token_constraint_to_proto_constraint(&c);
        assert_eq!(v0::proto_constraint_to_token_constraint(&p), Ok(c));
    }
}

#[test]
fn v0_symbol_constraint_is_written_with_date_kind() {
    let c = Constraint {
        id: 3,
        kind: ConstraintKind::Symbol(SymbolConstraint::In([8u64].iter().cloned().collect())),
    };
    let p = v0::token_constraint_to_proto_constraint(&c);
    assert_eq!(p.kind, 2);
    assert!(p.symbol.is_some());
    assert!(p.date.is_none());
    assert_eq!(
        v0::proto_constraint_to_token_constraint(&p),
        Err(deser("deserialization error: invalid constraint"))
    );
}

#[test]
fn v0_constraint_errors() {
    let unknown = schema::ConstraintV0 { id: 0, kind: 9, ..Default::default() };
    assert_eq!(
        v0::proto_constraint_to_token_constraint(&unknown),
        Err(deser("deserialization error: invalid constraint kind"))
    );
    let symbol = schema::ConstraintV0 {
        id: 0,
        kind: 3,
        symbol: Some(schema::SymbolConstraintV0 { kind: 0, in_set: vec![1], not_in_set: vec![] }),
        ..Default::default()
    };
    let expected: HashSet<u64> = [1u64].iter().cloned().collect();
    assert_eq!(
        v0::proto_constraint_to_token_constraint(&symbol),
        Ok(Constraint { id: 0, kind: ConstraintKind::Symbol(SymbolConstraint::In(expected)) })
    );
}

#[test]
fn v0_rule_caveat_roundtrip() {
    let rule = || Rule {
        head: Predicate { name: 1, ids: vec![ID::Variable(0)] },
        body: vec![Predicate { name: 2, ids: vec![ID::Variable(0)] }],
        constraints: vec![Constraint {
            id: 0,
            kind: ConstraintKind::Int(IntConstraint::GreaterThan(3)),
        }],
    };
    let p = v0::token_rule_to_proto_rule(&rule());
    assert_eq!(v0::proto_rule_to_token_rule(&p), Ok(rule()));
    let caveat = Caveat { queries: vec![rule()] };
    let c = v0::token_caveat_to_proto_caveat(&caveat);
    assert_eq!(v0::proto_caveat_to_token_caveat(&c), Ok(caveat));
    let bad = schema::CaveatV0 {
        queries: vec![schema::RuleV0 {
            head: schema::PredicateV0 { name: 0, ids: vec![schema::Idv0 { kind: 8, ..Default::default() }] },
            body: vec![],
            constraints: vec![],
        }],
    };
    assert_eq!(
        v0::proto_caveat_to_token_caveat(&bad),
        Err(deser("deserialization error: invalid id kind"))
    );
}

#[test]
fn v0_kind_numbers() {
    assert_eq!(Idv0Kind::from_i32(5), Some(Idv0Kind::Bytes));
    assert_eq!(Idv0Kind::from_i32(6), None);
    assert_eq!(Idv0Kind::Str.to_i32(), 3);
    assert_eq!(ConstraintV0Kind::from_i32(3), Some(ConstraintV0Kind::Symbol));
    assert_eq!(IntConstraintV0Kind::NotIn.to_i32(), 6);
}
