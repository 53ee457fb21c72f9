use parquet_ui::types::{FieldDesc, TimeUnit, TypeDesc};
use parquet_ui::wrangle::export::{path_extension, ExportFormat};
use parquet_ui::wrangle::insights::{
    add_to_bucket, bucket_counts, classify, count_of, non_null_count, stats_sql, top_value_label,
    top_values_sql, wants_histogram, wants_top_values, ColumnKind, BUCKETS, TOP_K,
};
use parquet_ui::wrangle::session::{base_query, count_sql, page_sql, TABLE_NAME};
use parquet_ui::wrangle::summary::{column_in_range, summary_sql};
use std::path::Path;

#[test]
fn session_queries() {
    assert_eq!(TABLE_NAME, "t");
    assert_eq!(base_query(), "SELECT * FROM t");
    assert_eq!(page_sql("SELECT * FROM t", 200, 100), "SELECT * FROM (SELECT * FROM t) LIMIT 100 OFFSET 200");
    assert_eq!(count_sql("SELECT 1"), "SELECT COUNT(*) FROM (SELECT 1)");
}

#[test]
fn insight_queries() {
    assert_eq!(
        stats_sql("a\"b"),
        "SELECT COUNT(*) AS total, (COUNT(*) - COUNT(\"a\"\"b\")) AS nulls, approx_distinct(CAST(\"a\"\"b\" AS VARCHAR)) AS distinct_count, CAST(MIN(\"a\"\"b\") AS VARCHAR) AS min_v, CAST(MAX(\"a\"\"b\") AS VARCHAR) AS max_v FROM t"
    );
    assert_eq!(
        top_values_sql("c", TOP_K),
        "SELECT CAST(\"c\" AS VARCHAR) AS v, COUNT(*) AS cnt FROM t WHERE \"c\" IS NOT NULL GROUP BY \"c\" ORDER BY cnt DESC LIMIT 3"
    );
}

#[test]
fn summary_queries() {
    let base = "SELECT COUNT(*) AS total, (COUNT(*) - COUNT(\"x\")) AS nulls, approx_distinct(CAST(\"x\" AS VARCHAR)) AS distinct_count, CAST(MIN(\"x\") AS VARCHAR) AS min_v, CAST(MAX(\"x\") AS VARCHAR) AS max_v";
    assert_eq!(summary_sql("x", false), format!("{base} FROM t"));
    assert_eq!(
        summary_sql("x", true),
        format!("{base}, AVG(CAST(\"x\" AS DOUBLE)) AS mean_v, STDDEV(CAST(\"x\" AS DOUBLE)) AS std_v, approx_percentile_cont(CAST(\"x\" AS DOUBLE), 0.25) AS q25_v, approx_percentile_cont(CAST(\"x\" AS DOUBLE), 0.5) AS q50_v, approx_percentile_cont(CAST(\"x\" AS DOUBLE), 0.75) AS q75_v FROM t")
    );
    assert_eq!(
        top_values_sql("x", parquet_ui::wrangle::summary::TOP_K),
        "SELECT CAST(\"x\" AS VARCHAR) AS v, COUNT(*) AS cnt FROM t WHERE \"x\" IS NOT NULL GROUP BY \"x\" ORDER BY cnt DESC LIMIT 10"
    );
}

#[test]
fn column_kinds() {
    assert_eq!(classify(&TypeDesc::Float64), ColumnKind::Numeric);
    assert_eq!(classify(&TypeDesc::Decimal128(10, 2)), ColumnKind::Numeric);
    assert_eq!(classify(&TypeDesc::Decimal64(10, 2)), ColumnKind::Other);
    assert_eq!(classify(&TypeDesc::Boolean), ColumnKind::Boolean);
    assert_eq!(classify(&TypeDesc::Timestamp(TimeUnit::Millisecond, None)), ColumnKind::Temporal);
    assert_eq!(classify(&TypeDesc::Duration(TimeUnit::Second)), ColumnKind::Other);
    assert_eq!(classify(&TypeDesc::LargeUtf8), ColumnKind::String);
    let list = TypeDesc::List(Box::new(FieldDesc { name: "i".to_string(), data_type: TypeDesc::Int8, nullable: true }));
    assert_eq!(classify(&list), ColumnKind::Other);
    assert!(wants_histogram(ColumnKind::Numeric) && !wants_histogram(ColumnKind::String));
    assert!(wants_top_values(ColumnKind::String) && wants_top_values(ColumnKind::Boolean));
    assert!(wants_top_values(ColumnKind::Temporal));
    assert!(!wants_top_values(ColumnKind::Numeric) && !wants_top_values(ColumnKind::Other));
}

#[test]
fn counts_from_aggregates() {
    assert_eq!(count_of(-5), 0);
    assert_eq!(count_of(42), 42);
    assert_eq!(non_null_count(10, 3), 7);
    assert_eq!(non_null_count(3, 10), 0);
    assert_eq!(top_value_label(None), "\u{2205}");
    assert_eq!(top_value_label(Some("x".to_string())), "x");
}

#[test]
fn histogram_buckets() {
    let rows = vec![(Some(0), 5), (None, 9), (Some(9), 2), (Some(10), 7), (Some(-1), 1), (Some(0), 3), (Some(4), -8)];
    let bins = bucket_counts(&rows);
    assert_eq!(bins.len(), BUCKETS);
    assert_eq!(bins, vec![8, 0, 0, 0, 0, 0, 0, 0, 0, 2]);
    let mut b = vec![0u64; BUCKETS];
    add_to_bucket(&mut b, 3, 4);
    add_to_bucket(&mut b, 3, -4);
    add_to_bucket(&mut b, 11, 4);
    assert_eq!(b, vec![0, 0, 0, 4, 0, 0, 0, 0, 0, 0]);
}

fn std_format(p: &str) -> Option<ExportFormat> {
    ExportFormat::from_extension(Path::new(p).extension().and_then(|e| e.to_str()))
}

#[test]
fn export_format_from_extension() {
    assert_eq!(ExportFormat::from_path("out.parquet"), Some(ExportFormat::Parquet));
    assert_eq!(ExportFormat::from_path("OUT.CSV"), Some(ExportFormat::Csv));
    assert_eq!(ExportFormat::from_path("a/b.jsonl"), Some(ExportFormat::Json));
    assert_eq!(ExportFormat::from_path("a/b.NdJson"), Some(ExportFormat::Json));
    assert_eq!(ExportFormat::from_path("a/b.json"), Some(ExportFormat::Json));
    assert_eq!(ExportFormat::from_path("notes.txt"), None);
    assert_eq!(ExportFormat::from_path("noext"), None);
    assert_eq!(ExportFormat::from_path(".csv"), None);
}

#[test]
fn export_format_agrees_with_path_extension() {
    let paths = [
        "a.parquet", "a.PARQUET", "dir/a.csv", "a.tar.json", ".csv", "a.", "a", "dir.csv/",
        "dir.csv/file", "a.jsonl", "a.NDJSON", "..", "a..csv", "/x/.hidden.csv", "a/..", "a/.",
        "a.csv/", "a.csv//", "/", "", "x/.json", "x/..json", "x/...", ".a.b", "a/b/c.Csv",
        "./a.parquet", "a.csv/.", "a/./b.json", ".", "a.csv/..",
    ];
    for p in paths {
        assert_eq!(ExportFormat::from_path(p), std_format(p), "path {p:?}");
        let ext = Path::new(p).extension().and_then(|e| e.to_str()).map(|e| e.to_string());
        assert_eq!(path_extension(p), ext, "path {p:?}");
    }
}

#[test]
fn summary_column_index_is_checked() {
    assert_eq!(column_in_range(2, 3), Ok(2));
    assert_eq!(column_in_range(3, 3), Err("column index 3 out of range".to_string()));
    assert_eq!(column_in_range(0, 0), Err("column index 0 out of range".to_string()));
}
