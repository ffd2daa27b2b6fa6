use frame_reader::{
    build_schema, cast_cell, cast_value, delimited_plan, read_data_rows, read_pivot_rows,
    resolve_alias, select_reader, transpose_rows, CanonType, FramePlan, RawCell, ReadError,
    ReaderVariant, SourceKind, TypedValue,
};

fn pairs(entries: &[(&str, &str)]) -> Vec<(String, String)> {
    entries.iter().map(|(n, a)| (n.to_string(), a.to_string())).collect()
}

#[test]
fn alias_lookup_returns_documented_types() {
    assert_eq!(resolve_alias("null"), Some(CanonType::Ignored));
    assert_eq!(resolve_alias("X"), Some(CanonType::Ignored));
    assert_eq!(resolve_alias("remove"), Some(CanonType::Ignored));
    assert_eq!(resolve_alias("bool"), Some(CanonType::Boolean));
    assert_eq!(resolve_alias("BOOLEAN"), Some(CanonType::Boolean));
    assert_eq!(resolve_alias("u8"), Some(CanonType::UInt8));
    assert_eq!(resolve_alias("bit"), Some(CanonType::UInt8));
    assert_eq!(resolve_alias("UInt16"), Some(CanonType::UInt16));
    assert_eq!(resolve_alias("u32"), Some(CanonType::UInt32));
    assert_eq!(resolve_alias("Integer"), Some(CanonType::UInt32));
    assert_eq!(resolve_alias("INT"), Some(CanonType::UInt32));
    assert_eq!(resolve_alias("u64"), Some(CanonType::UInt64));
    assert_eq!(resolve_alias("uint128"), Some(CanonType::UInt128));
    assert_eq!(resolve_alias("tinyint"), Some(CanonType::Int8));
    assert_eq!(resolve_alias("int16"), Some(CanonType::Int16));
    assert_eq!(resolve_alias("Int32"), Some(CanonType::Int32));
    assert_eq!(resolve_alias("INT64"), Some(CanonType::Int64));
    assert_eq!(resolve_alias("i128"), Some(CanonType::Int128));
    assert_eq!(resolve_alias("f32"), Some(CanonType::Float32));
    assert_eq!(resolve_alias("decimal"), Some(CanonType::Float64));
    assert_eq!(resolve_alias("FLOAT"), Some(CanonType::Float64));
    assert_eq!(resolve_alias("string"), Some(CanonType::Text));
    assert_eq!(resolve_alias("TEXT"), Some(CanonType::Text));
    assert_eq!(resolve_alias("date"), Some(CanonType::Date));
}

#[test]
fn alias_lookup_outside_table_fails() {
    assert_eq!(resolve_alias(""), None);
    assert_eq!(resolve_alias("int"), None);
    assert_eq!(resolve_alias("varchar"), None);
    assert_eq!(resolve_alias("u 8"), None);
    assert_eq!(resolve_alias("nULL"), None);
}

#[test]
fn schema_empty_list_fails() {
    let r = build_schema(&Vec::new());
    assert!(matches!(r, Err(ReadError::EmptySchema)));
}

#[test]
fn schema_unknown_alias_names_column() {
    let r = build_schema(&pairs(&[("a", "u8"), ("b", "nope"), ("c", "also_bad")]));
    match r {
        Err(ReadError::UnknownTypeAlias { column, alias }) => {
            assert_eq!(column, "b");
            assert_eq!(alias, "nope");
        },
        other => panic!("expected UnknownTypeAlias, got {:?}", other),
    }
}

#[test]
fn schema_preserves_order() {
    let s = build_schema(&pairs(&[("a", "u32"), ("b", "str"), ("c", "x")])).unwrap();
    assert_eq!(s.cols.len(), 3);
    assert_eq!(s.cols[0].name, "a");
    assert_eq!(s.cols[0].ty, CanonType::UInt32);
    assert_eq!(s.cols[1].name, "b");
    assert_eq!(s.cols[1].ty, CanonType::Text);
    assert_eq!(s.cols[2].name, "c");
    assert_eq!(s.cols[2].ty, CanonType::Ignored);
}

#[test]
fn cast_integer_truncates_to_unsigned_width() {
    let r = cast_value(&RawCell::Int(300), CanonType::UInt8).unwrap();
    assert!(matches!(r, TypedValue::UInt8(44)));
    let r = cast_value(&RawCell::Int(-1), CanonType::UInt8).unwrap();
    assert!(matches!(r, TypedValue::UInt8(255)));
    let r = cast_value(&RawCell::Int(-1), CanonType::UInt64).unwrap();
    assert!(matches!(r, TypedValue::UInt64(u64::MAX)));
    let r = cast_value(&RawCell::Int(65538), CanonType::UInt16).unwrap();
    assert!(matches!(r, TypedValue::UInt16(2)));
}

#[test]
fn cast_integer_truncates_to_signed_width() {
    let r = cast_value(&RawCell::Int(300), CanonType::Int8).unwrap();
    assert!(matches!(r, TypedValue::Int8(44)));
    let r = cast_value(&RawCell::Int(200), CanonType::Int8).unwrap();
    assert!(matches!(r, TypedValue::Int8(-56)));
    let r = cast_value(&RawCell::Int(-1), CanonType::Int8).unwrap();
    assert!(matches!(r, TypedValue::Int8(-1)));
    let r = cast_value(&RawCell::Int(-5), CanonType::Int128).unwrap();
    assert!(matches!(r, TypedValue::Int128(-5)));
    let r = cast_value(&RawCell::Int(-1), CanonType::UInt128).unwrap();
    assert!(matches!(r, TypedValue::UInt128(u128::MAX)));
}

#[test]
fn cast_integer_to_boolean_tests_zero() {
    let r = cast_value(&RawCell::Int(0), CanonType::Boolean).unwrap();
    assert!(matches!(r, TypedValue::Bool(false)));
    let r = cast_value(&RawCell::Int(7), CanonType::Boolean).unwrap();
    assert!(matches!(r, TypedValue::Bool(true)));
    let r = cast_value(&RawCell::Int(-3), CanonType::Boolean).unwrap();
    assert!(matches!(r, TypedValue::Bool(true)));
}

#[test]
fn cast_integer_to_text_target_is_incompatible() {
    let r = cast_value(&RawCell::Int(1), CanonType::Text);
    assert!(matches!(r, Err(ReadError::IncompatibleCast)));
    let r = cast_value(&RawCell::Int(1), CanonType::Date);
    assert!(matches!(r, Err(ReadError::IncompatibleCast)));
}

#[test]
fn cast_error_cell_appends_null_and_never_fails() {
    let mut buf: Vec<TypedValue> = Vec::new();
    let r = cast_cell(&RawCell::Error("bad cell".to_string()), CanonType::UInt32, &mut buf);
    assert!(r.is_ok());
    assert_eq!(buf.len(), 1);
    assert!(matches!(buf[0], TypedValue::Null));
}

#[test]
fn cast_empty_and_underivable_date_append_null() {
    let mut buf: Vec<TypedValue> = Vec::new();
    cast_cell(&RawCell::Empty, CanonType::Date, &mut buf).unwrap();
    cast_cell(&RawCell::DateTime(None), CanonType::Date, &mut buf).unwrap();
    assert!(matches!(buf[0], TypedValue::Null));
    assert!(matches!(buf[1], TypedValue::Null));
}

#[test]
fn cast_unrecognized_cell_aborts() {
    let r = cast_value(&RawCell::Unrecognized, CanonType::UInt8);
    assert!(matches!(r, Err(ReadError::UnsupportedCellVariant)));
}

#[test]
fn cast_float_passes_through_bits() {
    let bits = 1.5f64.to_bits();
    let r = cast_value(&RawCell::Float(bits), CanonType::UInt8).unwrap();
    assert!(matches!(r, TypedValue::Float64Bits(b) if b == bits));
}

#[test]
fn transposer_routes_flat_index_by_modulo() {
    // Nine cells in row-major order with three columns: the cell at flat
    // position 4 lands in column 4 % 3 == 1, output row 4 / 3 == 1.
    let s = build_schema(&pairs(&[("a", "i64"), ("b", "i64"), ("c", "i64")])).unwrap();
    let rows: Vec<Vec<RawCell>> = (0..3)
        .map(|r| (0..3).map(|c| RawCell::Int(r * 3 + c)).collect())
        .collect();
    let bufs = transpose_rows(&s, &rows, 0).unwrap();
    assert_eq!(bufs.len(), 3);
    assert!(matches!(bufs[1][1], TypedValue::Int64(4)));
    assert!(matches!(bufs[0][2], TypedValue::Int64(6)));
    assert!(matches!(bufs[2][0], TypedValue::Int64(2)));
}

#[test]
fn transposer_never_grows_ignored_columns() {
    let s = build_schema(&pairs(&[("a", "i64"), ("skip", "x"), ("c", "str")])).unwrap();
    let rows: Vec<Vec<RawCell>> = (0..100)
        .map(|r| {
            vec![
                RawCell::Int(r),
                RawCell::Text(format!("dropped {r}")),
                RawCell::Text(format!("kept {r}")),
            ]
        })
        .collect();
    let bufs = transpose_rows(&s, &rows, 0).unwrap();
    assert_eq!(bufs[0].len(), 100);
    assert_eq!(bufs[1].len(), 0);
    assert_eq!(bufs[2].len(), 100);
}

#[test]
fn transposer_rejects_ragged_rows() {
    let s = build_schema(&pairs(&[("a", "i64"), ("b", "i64")])).unwrap();
    let rows = vec![
        vec![RawCell::Int(1), RawCell::Int(2)],
        vec![RawCell::Int(3)],
    ];
    let r = transpose_rows(&s, &rows, 0);
    assert!(matches!(r, Err(ReadError::RaggedRow { row: 1 })));
}

#[test]
fn assembler_drops_ignored_columns_in_order() {
    let p = pairs(&[("a", "u32"), ("skip", "null"), ("c", "str")]);
    let rows = vec![
        vec![RawCell::Int(1), RawCell::Int(9), RawCell::Text("x".to_string())],
        vec![RawCell::Int(2), RawCell::Int(9), RawCell::Text("y".to_string())],
    ];
    let plan = read_data_rows(&p, &rows).unwrap();
    match plan {
        FramePlan::Data(cols) => {
            assert_eq!(cols.len(), 2);
            assert_eq!(cols[0].name, "a");
            assert_eq!(cols[0].ty, CanonType::UInt32);
            assert_eq!(cols[1].name, "c");
            assert_eq!(cols[1].ty, CanonType::Text);
            assert!(matches!(cols[0].values[1], TypedValue::UInt32(2)));
            assert!(matches!(cols[1].values[0], TypedValue::Text(ref s) if s == "x"));
        },
        other => panic!("expected a data plan, got {:?}", other),
    }
}

#[test]
fn pivot_header_must_echo_schema_names() {
    let p = pairs(&[("a", "u32"), ("b", "str")]);
    let rows = vec![vec![
        RawCell::Text("a".to_string()),
        RawCell::Text("wrong".to_string()),
    ]];
    let r = read_pivot_rows(&p, &rows);
    match r {
        Err(ReadError::HeaderMismatch { index, expected }) => {
            assert_eq!(index, 1);
            assert_eq!(expected, "b");
        },
        other => panic!("expected HeaderMismatch, got {:?}", other),
    }
}

#[test]
fn pivot_header_only_yields_empty_plan_with_full_schema() {
    let p = pairs(&[("a", "u32"), ("skip", "x"), ("b", "str")]);
    let rows = vec![vec![
        RawCell::Text("a".to_string()),
        RawCell::Text("skip".to_string()),
        RawCell::Text("b".to_string()),
    ]];
    let plan = read_pivot_rows(&p, &rows).unwrap();
    match plan {
        FramePlan::Empty(cols) => {
            assert_eq!(cols.len(), 3);
            assert_eq!(cols[0].name, "a");
            assert_eq!(cols[0].ty, CanonType::UInt32);
            assert_eq!(cols[1].name, "skip");
            assert_eq!(cols[1].ty, CanonType::Ignored);
            assert_eq!(cols[2].name, "b");
            assert_eq!(cols[2].ty, CanonType::Text);
        },
        other => panic!("expected an empty plan, got {:?}", other),
    }
}

#[test]
fn pivot_with_data_rows_transposes_them() {
    let p = pairs(&[("a", "u32"), ("b", "str")]);
    let rows = vec![
        vec![RawCell::Text("a".to_string()), RawCell::Text("b".to_string())],
        vec![RawCell::Int(7), RawCell::Text("v".to_string())],
    ];
    let plan = read_pivot_rows(&p, &rows).unwrap();
    match plan {
        FramePlan::Data(cols) => {
            assert_eq!(cols.len(), 2);
            assert_eq!(cols[0].values.len(), 1);
            assert!(matches!(cols[0].values[0], TypedValue::UInt32(7)));
        },
        other => panic!("expected a data plan, got {:?}", other),
    }
}

#[test]
fn dispatcher_selects_reader_by_kind() {
    assert_eq!(select_reader(&SourceKind::Txt).unwrap(), ReaderVariant::Delimited);
    assert_eq!(select_reader(&SourceKind::Csv).unwrap(), ReaderVariant::Delimited);
    assert_eq!(select_reader(&SourceKind::PivotTable).unwrap(), ReaderVariant::PivotCache);
    assert_eq!(select_reader(&SourceKind::Table).unwrap(), ReaderVariant::NamedTable);
    assert_eq!(select_reader(&SourceKind::SheetRange).unwrap(), ReaderVariant::CellRange);
    let r = select_reader(&SourceKind::Other("Json".to_string()));
    match r {
        Err(ReadError::UnimplementedSourceKind(name)) => assert_eq!(name, "Json"),
        other => panic!("expected UnimplementedSourceKind, got {:?}", other),
    }
}

#[test]
fn delimited_plan_selects_non_ignored_columns() {
    let p = pairs(&[("a", "u32"), ("skip", "Remove"), ("b", "str")]);
    let (schema, selected) = delimited_plan(&p).unwrap();
    assert_eq!(schema.cols.len(), 3);
    assert_eq!(selected, vec!["a".to_string(), "b".to_string()]);
}
