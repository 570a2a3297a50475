//! The query catalog and the decimal text of numbers.

use pg_tpch::error::QueryError;
use pg_tpch::queries::{query_text, tpch_queries, tpch_query, Q1, Q22, QUERY_COUNT};
use pg_tpch::text::decimal_string;

#[test]
fn test_tpch_queries() {
    let results = tpch_queries();
    assert_eq!(results.len(), 22);
}

#[test]
fn test_tpch_query_returns_string() {
    let query_text = tpch_query(1).unwrap();
    println!("{}", query_text);
    assert_eq!(query_text, Q1);
    assert!(query_text.starts_with("select\n    l_returnflag,"));
}

#[test]
fn catalog_lines_are_numbered_one_to_twenty_two() {
    let lines = tpch_queries();
    assert_eq!(QUERY_COUNT, 22);
    for (i, line) in lines.iter().enumerate() {
        let number = i as i32 + 1;
        let text = tpch_query(number).unwrap();
        assert_eq!(*line, format!("query_nr: {}, query: {}", number, text));
    }
    let mut distinct = lines.clone();
    distinct.sort();
    distinct.dedup();
    assert_eq!(distinct.len(), 22);
}

#[test]
fn every_query_is_a_select_statement() {
    for number in 1..=22 {
        let text = query_text(number).unwrap();
        assert!(text.contains("select"));
        assert!(text.contains("from"));
        assert!(text.ends_with(';'));
        assert_eq!(text.matches(';').count(), 1);
        assert_eq!(text.matches('(').count(), text.matches(')').count());
        assert_eq!(text.matches('\'').count() % 2, 0);
    }
    assert!(query_text(22).unwrap() == Q22);
}

#[test]
fn unknown_query_numbers_are_errors() {
    assert_eq!(tpch_query(23), Err(QueryError::UnknownQueryNumber { number: 23 }));
    assert_eq!(tpch_query(0), Err(QueryError::UnknownQueryNumber { number: 0 }));
    assert_eq!(tpch_query(-1), Err(QueryError::UnknownQueryNumber { number: -1 }));
    assert_eq!(
        tpch_query(i32::MAX),
        Err(QueryError::UnknownQueryNumber { number: i32::MAX })
    );
    assert_eq!(query_text(0), None);
    assert_eq!(query_text(23), None);
    assert_eq!(
        QueryError::UnknownQueryNumber { number: 23 }.message(),
        "unknown query number 23: it must be between 1 and 22 (inclusive)"
    );
}

#[test]
fn decimal_text_of_integers() {
    assert_eq!(decimal_string(0), "0");
    assert_eq!(decimal_string(7), "7");
    assert_eq!(decimal_string(10), "10");
    assert_eq!(decimal_string(-1), "-1");
    assert_eq!(decimal_string(1234567890), "1234567890");
    assert_eq!(decimal_string(i64::MAX), "9223372036854775807");
    assert_eq!(decimal_string(i64::MIN), "-9223372036854775808");
    for value in [-1000i64, -99, -10, 9, 99, 100, 101, 65535, 1 << 40] {
        assert_eq!(decimal_string(value), value.to_string());
    }
}
