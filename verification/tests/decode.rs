use dblayer::bind::Backend;
use dblayer::decode::{decode_cell, decode_row, kind_of_reported_type, parse_all, to_raw};
use dblayer::model::{ColKind, ColType, DbError, RawCell, RawValue};

fn cell(name: &str, ty: &str, value: RawValue) -> RawCell {
    RawCell {
        name: name.to_string(),
        reported_type: ty.to_string(),
        value,
    }
}

#[test]
fn dispatch_table_matches_design() {
    assert_eq!(kind_of_reported_type("TEXT"), Some(ColKind::Text));
    assert_eq!(kind_of_reported_type("VARCHAR"), Some(ColKind::Text));
    assert_eq!(kind_of_reported_type("INTEGER"), Some(ColKind::Int));
    assert_eq!(kind_of_reported_type("INT"), Some(ColKind::Int));
    assert_eq!(kind_of_reported_type("SERIAL"), Some(ColKind::Int));
    assert_eq!(kind_of_reported_type("REAL"), Some(ColKind::Real));
    assert_eq!(kind_of_reported_type("NUMERIC"), Some(ColKind::Real));
    assert_eq!(kind_of_reported_type("BOOLEAN"), Some(ColKind::Bool));
    assert_eq!(kind_of_reported_type("DATE"), Some(ColKind::Date));
    assert_eq!(kind_of_reported_type("TIME"), Some(ColKind::Time));
    assert_eq!(kind_of_reported_type("DATETIME"), Some(ColKind::Datetime));
}

#[test]
fn dispatch_is_case_insensitive() {
    assert_eq!(kind_of_reported_type("text"), Some(ColKind::Text));
    assert_eq!(kind_of_reported_type("Varchar"), Some(ColKind::Text));
    assert_eq!(kind_of_reported_type("integer"), Some(ColKind::Int));
    assert_eq!(kind_of_reported_type("dateTime"), Some(ColKind::Datetime));
    assert_eq!(kind_of_reported_type("bOoLeAn"), Some(ColKind::Bool));
}

#[test]
fn dispatch_rejects_unknown_names() {
    assert_eq!(kind_of_reported_type("BLOB"), None);
    assert_eq!(kind_of_reported_type(""), None);
    assert_eq!(kind_of_reported_type("TEXTS"), None);
    assert_eq!(kind_of_reported_type("IN"), None);
}

#[test]
fn round_trip_every_supported_variant() {
    // Binding a value and decoding the corresponding result column gives
    // the value back, for every supported variant.
    let cases: Vec<(ColType, &str)> = vec![
        (ColType::Integer(Some(42)), "INTEGER"),
        (ColType::Real(Some(2.5f64.to_bits())), "REAL"),
        (ColType::String(Some("hello".to_string())), "TEXT"),
        (ColType::Bool(Some(true)), "BOOLEAN"),
        (ColType::Date(Some(19876)), "DATE"),
        (ColType::Time(Some(43200)), "TIME"),
        (ColType::Datetime(Some(1717171717)), "DATETIME"),
    ];
    for (v, ty) in cases {
        let raw = to_raw(v.clone()).expect("supported variant must have a raw form");
        let decoded = decode_cell(cell("c", ty, raw)).expect("must decode");
        assert_eq!(decoded, v);
    }
}

#[test]
fn round_trip_preserves_null() {
    // The None case of every variant survives the trip.
    let cases: Vec<(ColType, &str)> = vec![
        (ColType::Integer(None), "INT"),
        (ColType::Real(None), "NUMERIC"),
        (ColType::String(None), "VARCHAR"),
        (ColType::Bool(None), "BOOLEAN"),
        (ColType::Date(None), "DATE"),
        (ColType::Time(None), "TIME"),
        (ColType::Datetime(None), "DATETIME"),
    ];
    for (v, ty) in cases {
        let raw = to_raw(v.clone()).expect("supported variant must have a raw form");
        let decoded = decode_cell(cell("c", ty, raw)).expect("must decode");
        assert_eq!(decoded, v);
    }
}

#[test]
fn composite_placeholders_have_no_raw_form() {
    assert_eq!(to_raw(ColType::Array), None);
    assert_eq!(to_raw(ColType::Object), None);
}

#[test]
fn unknown_reported_type_is_a_parse_error() {
    let r = decode_cell(cell("payload", "JSONB", RawValue::Text(Some("{}".to_string()))));
    match r {
        Err(DbError::Parse {
            column,
            reported_type,
        }) => {
            assert_eq!(column, "payload");
            assert_eq!(reported_type, "JSONB");
        }
        other => panic!("expected a parse error, got {:?}", other),
    }
}

#[test]
fn mismatched_payload_is_a_parse_error() {
    // The reported type is in the table, but the payload has a different
    // shape than that family expects.
    let r = decode_cell(cell("n", "INTEGER", RawValue::Text(Some("7".to_string()))));
    match r {
        Err(DbError::Parse {
            column,
            reported_type,
        }) => {
            assert_eq!(column, "n");
            assert_eq!(reported_type, "INTEGER");
        }
        other => panic!("expected a parse error, got {:?}", other),
    }
}

#[test]
fn decode_row_keeps_column_order() {
    let row = vec![
        cell("id", "INTEGER", RawValue::Int(Some(1))),
        cell("email", "VARCHAR", RawValue::Text(Some("a@b.c".to_string()))),
        cell("role", "VARCHAR", RawValue::Text(None)),
    ];
    let rec = decode_row(row).expect("row must decode");
    assert_eq!(rec.len(), 3);
    assert_eq!(rec.key_at(0).as_str(), "id");
    assert_eq!(rec.key_at(1).as_str(), "email");
    assert_eq!(rec.key_at(2).as_str(), "role");
    assert_eq!(rec.value_at(0), &ColType::Integer(Some(1)));
    assert_eq!(
        rec.get(&"email".to_string()),
        Some(&ColType::String(Some("a@b.c".to_string())))
    );
    assert_eq!(rec.get(&"role".to_string()), Some(&ColType::String(None)));
    assert_eq!(rec.get(&"absent".to_string()), None);
}

#[test]
fn duplicate_column_name_keeps_later_value() {
    // Two columns reporting the same name yield one entry holding the
    // later column's value.
    let row = vec![
        cell("x", "INTEGER", RawValue::Int(Some(1))),
        cell("x", "INTEGER", RawValue::Int(Some(2))),
    ];
    let rec = decode_row(row).expect("row must decode");
    assert_eq!(rec.len(), 1);
    assert_eq!(rec.get(&"x".to_string()), Some(&ColType::Integer(Some(2))));
}

#[test]
fn duplicate_name_overwrites_in_place() {
    let row = vec![
        cell("a", "INTEGER", RawValue::Int(Some(1))),
        cell("b", "INTEGER", RawValue::Int(Some(2))),
        cell("a", "TEXT", RawValue::Text(Some("later".to_string()))),
    ];
    let rec = decode_row(row).expect("row must decode");
    assert_eq!(rec.len(), 2);
    assert_eq!(rec.key_at(0).as_str(), "a");
    assert_eq!(rec.key_at(1).as_str(), "b");
    assert_eq!(
        rec.get(&"a".to_string()),
        Some(&ColType::String(Some("later".to_string())))
    );
}

#[test]
fn decode_row_reports_first_offender() {
    let row = vec![
        cell("ok", "INTEGER", RawValue::Int(Some(1))),
        cell("bad1", "UUID", RawValue::Text(None)),
        cell("bad2", "JSON", RawValue::Text(None)),
    ];
    match decode_row(row) {
        Err(DbError::Parse { column, .. }) => assert_eq!(column, "bad1"),
        other => panic!("expected a parse error, got {:?}", other),
    }
}

#[test]
fn empty_row_decodes_to_empty_record() {
    let rec = decode_row(Vec::new()).expect("an empty row decodes");
    assert_eq!(rec.len(), 0);
    assert_eq!(rec.get(&"any".to_string()), None);
}

#[test]
fn parse_all_decodes_rows_in_order() {
    let rows = vec![
        vec![cell("id", "INTEGER", RawValue::Int(Some(1)))],
        vec![cell("id", "INTEGER", RawValue::Int(Some(2)))],
    ];
    let recs = parse_all(rows).expect("rows must decode");
    assert_eq!(recs.len(), 2);
    assert_eq!(recs[0].get(&"id".to_string()), Some(&ColType::Integer(Some(1))));
    assert_eq!(recs[1].get(&"id".to_string()), Some(&ColType::Integer(Some(2))));
}

#[test]
fn parse_all_reports_first_bad_row() {
    let rows = vec![
        vec![cell("id", "INTEGER", RawValue::Int(Some(1)))],
        vec![cell("p", "POINT", RawValue::Text(None))],
    ];
    match parse_all(rows) {
        Err(DbError::Parse { column, reported_type }) => {
            assert_eq!(column, "p");
            assert_eq!(reported_type, "POINT");
        }
        other => panic!("expected a parse error, got {:?}", other),
    }
}

#[test]
fn error_kinds_have_fixed_names() {
    let e = DbError::Parse {
        column: "c".to_string(),
        reported_type: "T".to_string(),
    };
    assert_eq!(e.kind_name(), "parse");
    let q = DbError::Query {
        message: "m".to_string(),
    };
    assert_eq!(q.kind_name(), "query");
}

#[test]
fn backend_is_shared_by_dispatch() {
    // The one dispatch table serves both backends; a server-only name
    // still decodes when the embedded driver reports it and vice versa.
    let _ = Backend::Embedded;
    let r = decode_cell(cell("n", "SERIAL", RawValue::Int(Some(5))));
    assert_eq!(r, Ok(ColType::Integer(Some(5))));
}
