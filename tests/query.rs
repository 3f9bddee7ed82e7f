use adba::query::{
    classify_statement, coerce_cell, coerce_row, kind_from_upper, CellDecodings, CellValue,
    StatementKind,
};

fn text(s: &str) -> CellDecodings {
    CellDecodings { text: Some(s.to_string()), integer: None, real_bits: None }
}

fn integer(i: i64) -> CellDecodings {
    CellDecodings { text: None, integer: Some(i), real_bits: Some((i as f64).to_bits()) }
}

#[test]
fn select_is_a_query_in_any_case() {
    assert_eq!(classify_statement("SELECT 1"), StatementKind::Query);
    assert_eq!(classify_statement("select * from t"), StatementKind::Query);
    assert_eq!(classify_statement("  \n\tSeLeCt name FROM t"), StatementKind::Query);
}

#[test]
fn other_statements_are_mutations() {
    assert_eq!(classify_statement("INSERT INTO t VALUES (1)"), StatementKind::Mutation);
    assert_eq!(classify_statement("DROP TABLE t"), StatementKind::Mutation);
    assert_eq!(classify_statement("WITH x AS (SELECT 1) SELECT * FROM x"), StatementKind::Mutation);
    assert_eq!(classify_statement(""), StatementKind::Mutation);
    assert_eq!(classify_statement("SELEC"), StatementKind::Mutation);
}

#[test]
fn prefix_check_on_upper_text() {
    assert_eq!(kind_from_upper("SELECTX"), StatementKind::Query);
    assert_eq!(kind_from_upper("SELECT"), StatementKind::Query);
    assert_eq!(kind_from_upper("select"), StatementKind::Mutation);
    assert_eq!(kind_from_upper(" SELECT"), StatementKind::Mutation);
}

#[test]
fn text_holding_a_number_stays_text() {
    assert_eq!(coerce_cell(text("42")), CellValue::Text("42".to_string()));
}

#[test]
fn integer_cell_stays_a_number() {
    assert_eq!(coerce_cell(integer(42)), CellValue::Integer(42));
    assert_eq!(coerce_cell(integer(i64::MIN)), CellValue::Integer(i64::MIN));
}

#[test]
fn real_cell_keeps_its_bits() {
    let d = CellDecodings { text: None, integer: None, real_bits: Some(1.5f64.to_bits()) };
    assert_eq!(coerce_cell(d), CellValue::Real(1.5f64.to_bits()));
}

#[test]
fn undecodable_cell_is_null() {
    let d = CellDecodings { text: None, integer: None, real_bits: None };
    assert_eq!(coerce_cell(d), CellValue::Null);
}

#[test]
fn text_wins_over_every_other_decoding() {
    let d = CellDecodings { text: Some("7".to_string()), integer: Some(7), real_bits: Some(7.0f64.to_bits()) };
    assert_eq!(coerce_cell(d), CellValue::Text("7".to_string()));
}

#[test]
fn rows_are_coerced_per_column() {
    let row = coerce_row(vec![text("42"), integer(1), CellDecodings { text: None, integer: None, real_bits: None }]);
    assert_eq!(row, vec![CellValue::Text("42".to_string()), CellValue::Integer(1), CellValue::Null]);
    assert_eq!(coerce_row(Vec::new()), Vec::<CellValue>::new());
}
