use biscuit_format::datalog::{
    BytesConstraint, Caveat, Constraint, ConstraintKind, DateConstraint, Fact, IntConstraint,
    Predicate, Rule, StrConstraint, SymbolConstraint, ID,
};
use biscuit_format::error::Format;
use biscuit_format::format::convert::v1;
use biscuit_format::format::schema;
use std::collections::HashSet;

fn all_ids() -> Vec<ID> {
    vec![
        ID::Symbol(3),
        ID::Variable(7),
        ID::Integer(-12),
        ID::Str("hello".to_string()),
        ID::Date(1_600_000_000),
        ID::Bytes(vec![0xde, 0xad]),
    ]
}

fn deser(text: &str) -> Format {
    Format::DeserializationError(text.to_string())
}

#[test]
fn v1_id_encoding_uses_one_variant_per_term() {
    assert_eq!(
        v1::token_id_to_proto_id(&ID::Str("a".to_string())),
        schema::Idv1 { content: Some(schema::Idv1Content::String("a".to_string())) }
    );
    assert_eq!(
        v1::token_id_to_proto_id(&ID::Variable(4)),
        schema::Idv1 { content: Some(schema::Idv1Content::Variable(4)) }
    );
}

#[test]
fn v1_id_roundtrip() {
    for id in all_ids() {
        let p = v1::token_id_to_proto_id(&id);
        assert_eq!(v1::proto_id_to_token_id(&p), Ok(id));
    }
}

#[test]
fn v1_empty_id_is_refused() {
    let p = schema::Idv1 { content: None };
    assert_eq!(
        v1::proto_id_to_token_id(&p),
        Err(deser("deserialization error: ID content enum is empty"))
    );
}

#[test]
fn v1_predicate_and_fact_roundtrip() {
    let pred = Predicate { name: 9, ids: all_ids() };
    let p = v1::token_predicate_to_proto_predicate(&pred);
    assert_eq!(p.name, 9);
    assert_eq!(p.ids.len(), 6);
    assert_eq!(v1::proto_predicate_to_token_predicate(&p), Ok(pred.clone()));

    let fact = Fact { predicate: pred };
    let f = v1::token_fact_to_proto_fact(&fact);
    assert_eq!(v1::proto_fact_to_token_fact(&f), Ok(fact));
}

#[test]
fn v1_predicate_reports_first_bad_term() {
    let p = schema::PredicateV1 {
        name: 1,
        ids: vec![
            schema::Idv1 { content: Some(schema::Idv1Content::Integer(1)) },
            schema::Idv1 { content: None },
        ],
    };
    assert_eq!(
        v1::proto_predicate_to_token_predicate(&p),
        Err(deser("deserialization error: ID content enum is empty"))
    );
    let f = schema::FactV1 { predicate: p };
    assert!(v1::proto_fact_to_token_fact(&f).is_err());
}

#[test]
fn v1_int_constraint_roundtrip() {
    let cases = vec![
        IntConstraint::LessThan(1),
        IntConstraint::GreaterThan(-2),
        IntConstraint::LessOrEqual(3),
        IntConstraint::GreaterOrEqual(4),
        IntConstraint::Equal(5),
        IntConstraint::In([1i64, 2, 3].iter().cloned().collect()),
        IntConstraint::NotIn(HashSet::new()),
    ];
    for c in cases {
        let p = v1::token_int_constraint_to_proto_int_constraint(&c);
        assert_eq!(v1::proto_int_constraint_to_token_int_constraint(&p), Ok(c));
    }
}

#[test]
fn v1_int_set_is_listed_once_each() {
    let set: HashSet<i64> = [10i64, 20, 30].iter().cloned().collect();
    let p = v1::token_int_constraint_to_proto_int_constraint(&IntConstraint::In(set.clone()));
    match p.constraint {
        Some(schema::IntConstraintV1Constraint::InSet(s)) => {
            let mut listed = s.set.clone();
            listed.sort();
            assert_eq!(listed, vec![10, 20, 30]);
        }
        other => panic!("unexpected encoding {:?}", other),
    }
}

#[test]
fn v1_int_set_with_repeats_decodes_to_its_set() {
    let p = schema::IntConstraintV1 {
        constraint: Some(schema::IntConstraintV1Constraint::NotInSet(schema::IntSet {
            set: vec![4, 4, 5],
        })),
    };
    let expected: HashSet<i64> = [4i64, 5].iter().cloned().collect();
    assert_eq!(
        v1::proto_int_constraint_to_token_int_constraint(&p),
        Ok(IntConstraint::NotIn(expected))
    );
}

#[test]
fn v1_int_constraint_empty_is_refused() {
    let p = schema::IntConstraintV1 { constraint: None };
    assert_eq!(
        v1::proto_int_constraint_to_token_int_constraint(&p),
        Err(deser("deserialization error: integer constraint enum is empty"))
    );
}

#[test]
fn v1_str_constraint_roundtrip() {
    let cases = vec![
        StrConstraint::Prefix("pre".to_string()),
        StrConstraint::Suffix("suf".to_string()),
        StrConstraint::Equal("eq".to_string()),
        StrConstraint::Regex("a.*b".to_string()),
        StrConstraint::In(vec!["x".to_string(), "y".to_string()]),
        StrConstraint::NotIn(vec!["z".to_string()]),
    ];
    for c in cases {
        let p = v1::token_str_constraint_to_proto_str_constraint(&c);
        assert_eq!(v1::proto_str_constraint_to_token_str_constraint(&p), Ok(c));
    }
}

#[test]
fn v1_str_set_with_repeats_keeps_each_once() {
    let p = schema::StringConstraintV1 {
        constraint: Some(schema::StringConstraintV1Constraint::InSet(schema::StringSet {
            set: vec!["a".to_string(), "b".to_string(), "a".to_string()],
        })),
    };
    assert_eq!(
        v1::proto_str_constraint_to_token_str_constraint(&p),
        Ok(StrConstraint::In(vec!["a".to_string(), "b".to_string()]))
    );
    let empty = schema::StringConstraintV1 { constraint: None };
    assert_eq!(
        v1::proto_str_constraint_to_token_str_constraint(&empty),
        Err(deser("deserialization error: string constraint enum is empty"))
    );
}

#[test]
fn v1_date_constraint_roundtrip_and_error() {
    for c in vec![DateConstraint::Before(100), DateConstraint::After(200)] {
        let p = v1::token_date_constraint_to_proto_date_constraint(&c);
        assert_eq!(v1::proto_date_constraint_to_token_date_constraint(&p), Ok(c));
    }
    let empty = schema::DateConstraintV1 { constraint: None };
    assert_eq!(
        v1::proto_date_constraint_to_token_date_constraint(&empty),
        Err(deser("deserialization error: date constraint enum is empty"))
    );
}

#[test]
fn v1_symbol_constraint_roundtrip_and_error() {
    let set: HashSet<u64> = [1u64, 2].iter().cloned().collect();
    for c in vec![SymbolConstraint::In(set.clone()), SymbolConstraint::NotIn(set)] {
        let p = v1::token_symbol_constraint_to_proto_symbol_constraint(&c);
        assert_eq!(v1::proto_symbol_constraint_to_token_symbol_constraint(&p), Ok(c));
    }
    let empty = schema::SymbolConstraintV1 { constraint: None };
    assert_eq!(
        v1::proto_symbol_constraint_to_token_symbol_constraint(&empty),
        Err(deser("deserialization error: symbol constraint enum is empty"))
    );
}

#[test]
fn v1_bytes_constraint_roundtrip_and_error() {
    let cases = vec![
        BytesConstraint::Equal(vec![1, 2]),
        BytesConstraint::In(vec![vec![1], vec![2, 3]]),
        BytesConstraint::NotIn(vec![vec![]]),
    ];
    for c in cases {
        let p = v1::token_bytes_constraint_to_proto_bytes_constraint(&c);
        assert_eq!(v1::proto_bytes_constraint_to_token_bytes_constraint(&p), Ok(c));
    }
    let repeated = schema::BytesConstraintV1 {
        constraint: Some(schema::BytesConstraintV1Constraint::InSet(schema::BytesSet {
            set: vec![vec![9], vec![9]],
        })),
    };
    assert_eq!(
        v1::proto_bytes_constraint_to_token_bytes_constraint(&repeated),
        Ok(BytesConstraint::In(vec![vec![9]]))
    );
    let empty = schema::BytesConstraintV1 { constraint: None };
    assert_eq!(
        v1::proto_bytes_constraint_to_token_bytes_constraint(&empty),
        Err(deser("deserialization error: bytes constraint enum is empty"))
    );
}

fn sample_constraints() -> Vec<Constraint> {
    vec![
        Constraint { id: 0, kind: ConstraintKind::Int(IntConstraint::Equal(1)) },
        Constraint { id: 1, kind: ConstraintKind::Str(StrConstraint::Prefix("p".to_string())) },
        Constraint { id: 2, kind: ConstraintKind::Date(DateConstraint::After(5)) },
        Constraint {
            id: 3,
            kind: ConstraintKind::Symbol(SymbolConstraint::In([8u64].iter().cloned().collect())),
        },
        Constraint { id: 4, kind: ConstraintKind::Bytes(BytesConstraint::Equal(vec![7])) },
    ]
}

#[test]
fn v1_constraint_roundtrip_and_error() {
    for c in sample_constraints() {
        let p = v1::token_constraint_to_proto_constraint(&c);
        assert_eq!(p.id, c.id);
        assert_eq!(v1::proto_constraint_to_token_constraint(&p), Ok(c));
    }
    let empty = schema::ConstraintV1 { id: 3, constraint: None };
    assert_eq!(
        v1::proto_constraint_to_token_constraint(&empty),
        Err(deser("deserialization error: constraint enum is empty"))
    );
    let bad_inner = schema::ConstraintV1 {
        id: 3,
        constraint: Some(schema::ConstraintV1Constraint::Date(schema::DateConstraintV1 {
            constraint: None,
        })),
    };
    assert_eq!(
        v1::proto_constraint_to_token_constraint(&bad_inner),
        Err(deser("deserialization error: date constraint enum is empty"))
    );
}

fn sample_rule() -> Rule {
    Rule {
        head: Predicate { name: 1, ids: vec![ID::Variable(0)] },
        body: vec![
            Predicate { name: 2, ids: vec![ID::Variable(0), ID::Symbol(5)] },
            Predicate { name: 3, ids: vec![] },
        ],
        constraints: sample_constraints(),
    }
}

#[test]
fn v1_rule_and_caveat_roundtrip() {
    let rule = sample_rule();
    let p = v1::token_rule_to_proto_rule(&rule);
    assert_eq!(p.body.len(), 2);
    assert_eq!(p.constraints.len(), 5);
    assert_eq!(v1::proto_rule_to_token_rule(&p), Ok(rule));

    let caveat = Caveat { queries: vec![sample_rule(), sample_rule()] };
    let c = v1::token_caveat_to_proto_caveat(&caveat);
    assert_eq!(c.queries.len(), 2);
    assert_eq!(v1::proto_caveat_to_token_caveat(&c), Ok(caveat));
}

#[test]
fn v1_rule_reads_body_before_head() {
    let bad_pred = schema::PredicateV1 { name: 0, ids: vec![schema::Idv1 { content: None }] };
    let p = schema::RuleV1 {
        head: bad_pred.clone(),
        body: vec![],
        constraints: vec![schema::ConstraintV1 { id: 0, constraint: None }],
    };
    // the constraints are read before the head
    assert_eq!(
        v1::proto_rule_to_token_rule(&p),
        Err(deser("deserialization error: constraint enum is empty"))
    );
    let q = schema::RuleV1 { head: bad_pred, body: vec![], constraints: vec![] };
    assert_eq!(
        v1::proto_rule_to_token_rule(&q),
        Err(deser("deserialization error: ID content enum is empty"))
    );
    let caveat = schema::CaveatV1 { queries: vec![q] };
    assert!(v1::proto_caveat_to_token_caveat(&caveat).is_err());
}
