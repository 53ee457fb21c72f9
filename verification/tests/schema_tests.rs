use parquet_ui::schema::{
    child_row_for_field, format_sorting_columns, schema_child_rows, sort_order_summary, SortKey,
};
use parquet_ui::types::{
    is_nested, type_label, type_label_full, FieldDesc, IntervalUnit, TimeUnit, TypeDesc,
};

fn field(name: &str, data_type: TypeDesc, nullable: bool) -> FieldDesc {
    FieldDesc { name: name.to_string(), data_type, nullable }
}

fn entries(key: TypeDesc, value: TypeDesc) -> Box<FieldDesc> {
    Box::new(field(
        "entries",
        TypeDesc::Struct(vec![field("key", key, false), field("value", value, true)]),
        false,
    ))
}

#[test]
fn type_labels_of_scalars() {
    assert_eq!(type_label(&TypeDesc::Boolean), "Bool");
    assert_eq!(type_label(&TypeDesc::Int64), "Int64");
    assert_eq!(type_label(&TypeDesc::Utf8View), "Utf8View");
    assert_eq!(type_label(&TypeDesc::FixedSizeBinary(16)), "FixedSizeBinary(16)");
    assert_eq!(type_label(&TypeDesc::Time32(TimeUnit::Millisecond)), "Time32(ms)");
    assert_eq!(type_label(&TypeDesc::Duration(TimeUnit::Microsecond)), "Duration(\u{b5}s)");
    assert_eq!(
        type_label(&TypeDesc::Timestamp(TimeUnit::Nanosecond, None)),
        "Timestamp(ns)"
    );
    assert_eq!(
        type_label(&TypeDesc::Timestamp(TimeUnit::Second, Some("UTC".to_string()))),
        "Timestamp(s, UTC)"
    );
    assert_eq!(type_label(&TypeDesc::Interval(IntervalUnit::MonthDayNano)), "Interval(MonthDayNano)");
    assert_eq!(type_label(&TypeDesc::Decimal128(38, -2)), "Decimal128(38, -2)");
    assert_eq!(type_label(&TypeDesc::Union), "Union");
}

#[test]
fn type_labels_of_nested_types() {
    let list = TypeDesc::List(Box::new(field("item", TypeDesc::Int32, true)));
    assert_eq!(type_label(&list), "List<Int32>");
    let fsl = TypeDesc::FixedSizeList(Box::new(field("item", TypeDesc::Float32, true)), 3);
    assert_eq!(type_label(&fsl), "FixedSizeList<Float32, 3>");
    let st = TypeDesc::Struct(vec![
        field("a", TypeDesc::Int8, true),
        field("b", TypeDesc::Struct(vec![field("x", TypeDesc::Utf8, true), field("y", TypeDesc::Utf8, true)]), true),
        field("c", TypeDesc::Date32, true),
        field("d", TypeDesc::Null, true),
    ]);
    assert_eq!(
        type_label(&st),
        "Struct{a: Int8, b: Struct{x: Utf8, \u{2026}}, c: Date32, \u{2026}}"
    );
    let map = TypeDesc::Mapping(entries(TypeDesc::Utf8, TypeDesc::Int64), false);
    assert_eq!(type_label(&map), "Map<Utf8, Int64>");
    let odd_map = TypeDesc::Mapping(Box::new(field("entries", TypeDesc::Int32, false)), false);
    assert_eq!(type_label(&odd_map), "Map<?>");
    let dict = TypeDesc::Dictionary(Box::new(TypeDesc::Int32), Box::new(TypeDesc::Utf8));
    assert_eq!(type_label(&dict), "Dict<Int32, Utf8>");
    let ree = TypeDesc::RunEndEncoded(
        Box::new(field("run_ends", TypeDesc::Int32, false)),
        Box::new(field("values", TypeDesc::LargeUtf8, true)),
    );
    assert_eq!(type_label(&ree), "REE<LargeUtf8>");
    assert!(is_nested(&list) && is_nested(&st) && is_nested(&map) && is_nested(&fsl));
    assert!(!is_nested(&dict) && !is_nested(&TypeDesc::Utf8));
}

#[test]
fn full_type_labels_expand_structs() {
    let st = TypeDesc::Struct(vec![
        field("a", TypeDesc::Int8, true),
        field("b", TypeDesc::List(Box::new(field("item", TypeDesc::Struct(vec![field("z", TypeDesc::Boolean, false)]), true))), false),
    ]);
    let expected = "Struct {\n  a: Int8 (nullable)\n  b: List<Struct {\n    z: Bool\n  }>\n}";
    assert_eq!(type_label_full(&st), expected);
    let map = TypeDesc::Mapping(entries(TypeDesc::Utf8, TypeDesc::Float64), false);
    assert_eq!(type_label_full(&map), "Map<Utf8, Float64>");
    assert_eq!(type_label_full(&TypeDesc::Int16), "Int16");
}

fn names() -> Vec<String> {
    vec!["id".to_string(), "ts".to_string()]
}

#[test]
fn sorting_columns_are_listed() {
    let cols = vec![
        SortKey { column_idx: 1, descending: true, nulls_first: false },
        SortKey { column_idx: 0, descending: false, nulls_first: true },
        SortKey { column_idx: 5, descending: false, nulls_first: false },
        SortKey { column_idx: -1, descending: true, nulls_first: true },
    ];
    assert_eq!(
        format_sorting_columns(&names(), &cols),
        "ts DESC NULLS LAST, id ASC NULLS FIRST, ? ASC NULLS LAST, ? DESC NULLS FIRST"
    );
    assert_eq!(format_sorting_columns(&names(), &vec![]), "(none specified)");
}

#[test]
fn sort_order_summary_cases() {
    let k = vec![SortKey { column_idx: 0, descending: false, nulls_first: false }];
    assert_eq!(sort_order_summary(&names(), &vec![]), "(no row groups)");
    assert_eq!(sort_order_summary(&names(), &vec![None, None]), "(not specified)");
    assert_eq!(
        sort_order_summary(&names(), &vec![Some(k.clone()), Some(k.clone())]),
        "id ASC NULLS LAST"
    );
    assert_eq!(
        sort_order_summary(&names(), &vec![Some(k.clone()), None]),
        "(varies by row group \u{2014} see Row Groups tab)"
    );
    let other = vec![SortKey { column_idx: 0, descending: true, nulls_first: false }];
    assert_eq!(
        sort_order_summary(&names(), &vec![Some(k), Some(other)]),
        "(varies by row group \u{2014} see Row Groups tab)"
    );
    assert_eq!(sort_order_summary(&names(), &vec![Some(vec![])]), "(none specified)");
}

#[test]
fn child_rows_of_nested_columns() {
    let dt = TypeDesc::Struct(vec![
        field("a", TypeDesc::Int32, true),
        field("b", TypeDesc::List(Box::new(field("item", TypeDesc::Utf8, false))), false),
    ]);
    let rows = schema_child_rows(&dt, 0);
    let shown: Vec<(String, String, String)> =
        rows.iter().map(|r| (r.name.clone(), r.type_label.clone(), r.nullable.clone())).collect();
    assert_eq!(
        shown,
        vec![
            ("\u{21b3} a".to_string(), "Int32".to_string(), "yes".to_string()),
            ("\u{21b3} b".to_string(), "List<Utf8>".to_string(), "no".to_string()),
            ("  \u{21b3} item".to_string(), "Utf8".to_string(), "no".to_string()),
        ]
    );
    assert_eq!(rows[1].type_full, "List<Utf8>");
    let map = TypeDesc::Mapping(entries(TypeDesc::Utf8, TypeDesc::Int64), false);
    let map_rows = schema_child_rows(&map, 2);
    assert_eq!(map_rows.len(), 2);
    assert_eq!(map_rows[0].name, "    \u{21b3} key");
    assert_eq!(map_rows[1].name, "    \u{21b3} value");
    assert!(schema_child_rows(&TypeDesc::Int8, 0).is_empty());
    let single = child_row_for_field(&field("x", TypeDesc::Boolean, true), 1);
    assert_eq!(single.len(), 1);
    assert_eq!(single[0].name, "  \u{21b3} x");
}
