use parquet_ui::wrangle::pipeline::{ident, sql_string, AggFn, Pipeline, Step};

fn s(v: &str) -> String {
    v.to_string()
}

fn cols(v: &[&str]) -> Vec<String> {
    v.iter().map(|c| c.to_string()).collect()
}

#[test]
fn identifiers_are_quoted_with_doubled_quotes() {
    assert_eq!(ident("name"), "\"name\"");
    assert_eq!(ident("a\"b"), "\"a\"\"b\"");
    assert_eq!(ident(""), "\"\"");
    assert_eq!(ident("\"\""), "\"\"\"\"\"\"");
}

#[test]
fn string_literals_are_quoted_with_doubled_quotes() {
    assert_eq!(sql_string("it's"), "'it''s'");
    assert_eq!(sql_string(""), "''");
    assert_eq!(sql_string("plain"), "'plain'");
}

fn unquote(t: &str, q: char) -> Option<String> {
    let inner = t.strip_prefix(q)?.strip_suffix(q)?;
    let mut out = String::new();
    let mut chars = inner.chars().peekable();
    while let Some(c) = chars.next() {
        if c == q {
            if chars.next() != Some(q) {
                return None;
            }
        }
        out.push(c);
    }
    Some(out)
}

#[test]
fn quoting_round_trips() {
    for name in ["x", "a\"b", "\"", "it's", "''", "", "é \"q\" ü"] {
        assert_eq!(unquote(&ident(name), '"').as_deref(), Some(name));
        assert_eq!(unquote(&sql_string(name), '\'').as_deref(), Some(name));
    }
    assert_ne!(ident("a\"b"), ident("a\"\"b"));
}

#[test]
fn agg_fn_names() {
    let sqls: Vec<&str> = AggFn::ALL.iter().map(|f| f.sql()).collect();
    assert_eq!(sqls, vec!["COUNT", "COUNT(DISTINCT ?)", "SUM", "AVG", "MIN", "MAX"]);
    let labels: Vec<&str> = AggFn::ALL.iter().map(|f| f.label()).collect();
    assert_eq!(labels, vec!["count", "count_distinct", "sum", "avg", "min", "max"]);
}

#[test]
fn each_step_wraps_the_previous_query() {
    let p = "SELECT * FROM t";
    let cases: Vec<(Step, &str)> = vec![
        (
            Step::Sort { column: s("a"), descending: true, nulls_first: false },
            "SELECT * FROM (SELECT * FROM t) ORDER BY \"a\" DESC NULLS LAST",
        ),
        (Step::Filter { predicate: s("x > 1") }, "SELECT * FROM (SELECT * FROM t) WHERE x > 1"),
        (
            Step::DropColumns { columns: cols(&["a", "b"]) },
            "SELECT * EXCEPT (\"a\", \"b\") FROM (SELECT * FROM t)",
        ),
        (
            Step::Rename { from: s("a"), to: s("b") },
            "SELECT * EXCEPT (\"a\"), \"a\" AS \"b\" FROM (SELECT * FROM t)",
        ),
        (
            Step::Cast { column: s("a"), target_type: s("BIGINT") },
            "SELECT * REPLACE (CAST(\"a\" AS BIGINT) AS \"a\") FROM (SELECT * FROM t)",
        ),
        (
            Step::FillNa { column: s("a"), value: s("0") },
            "SELECT * REPLACE (COALESCE(\"a\", 0) AS \"a\") FROM (SELECT * FROM t)",
        ),
        (
            Step::NullIf { column: s("a"), value: s("''") },
            "SELECT * REPLACE (NULLIF(\"a\", '') AS \"a\") FROM (SELECT * FROM t)",
        ),
        (Step::DropNa { columns: vec![] }, "SELECT * FROM (SELECT * FROM t) WHERE TRUE"),
        (
            Step::DropNa { columns: cols(&["a", "b"]) },
            "SELECT * FROM (SELECT * FROM t) WHERE \"a\" IS NOT NULL AND \"b\" IS NOT NULL",
        ),
        (
            Step::FindReplace { column: s("a"), pattern: s("x'y"), replacement: s("z"), regex: false },
            "SELECT * REPLACE (replace(CAST(\"a\" AS VARCHAR), 'x''y', 'z') AS \"a\") FROM (SELECT * FROM t)",
        ),
        (
            Step::FindReplace { column: s("a"), pattern: s("[0-9]+"), replacement: s("#"), regex: true },
            "SELECT * REPLACE (regexp_replace(CAST(\"a\" AS VARCHAR), '[0-9]+', '#') AS \"a\") FROM (SELECT * FROM t)",
        ),
        (
            Step::Lowercase { column: s("a") },
            "SELECT * REPLACE (lower(CAST(\"a\" AS VARCHAR)) AS \"a\") FROM (SELECT * FROM t)",
        ),
        (
            Step::Uppercase { column: s("a") },
            "SELECT * REPLACE (upper(CAST(\"a\" AS VARCHAR)) AS \"a\") FROM (SELECT * FROM t)",
        ),
        (
            Step::Strip { column: s("a") },
            "SELECT * REPLACE (btrim(CAST(\"a\" AS VARCHAR)) AS \"a\") FROM (SELECT * FROM t)",
        ),
        (
            Step::TextLength { column: s("a"), new_column: s("n") },
            "SELECT *, char_length(CAST(\"a\" AS VARCHAR)) AS \"n\" FROM (SELECT * FROM t)",
        ),
        (
            Step::Round { column: s("a"), decimals: -2 },
            "SELECT * REPLACE (round(CAST(\"a\" AS DOUBLE), -2) AS \"a\") FROM (SELECT * FROM t)",
        ),
        (
            Step::Floor { column: s("a") },
            "SELECT * REPLACE (floor(CAST(\"a\" AS DOUBLE)) AS \"a\") FROM (SELECT * FROM t)",
        ),
        (
            Step::Ceiling { column: s("a") },
            "SELECT * REPLACE (ceil(CAST(\"a\" AS DOUBLE)) AS \"a\") FROM (SELECT * FROM t)",
        ),
        (Step::DropDuplicates { columns: vec![] }, "SELECT DISTINCT * FROM (SELECT * FROM t)"),
        (
            Step::DropDuplicates { columns: cols(&["a", "b"]) },
            "SELECT * EXCEPT (__rn) FROM ( SELECT *, ROW_NUMBER() OVER (PARTITION BY \"a\", \"b\" ORDER BY \"a\", \"b\") AS __rn FROM (SELECT * FROM t) ) WHERE __rn = 1",
        ),
        (
            Step::GroupByAggregate {
                keys: cols(&["k"]),
                aggregations: vec![(s("v"), AggFn::Sum, s("total")), (s("v"), AggFn::CountDistinct, s("n"))],
            },
            "SELECT \"k\", SUM(\"v\") AS \"total\", COUNT(DISTINCT \"v\") AS \"n\" FROM (SELECT * FROM t) GROUP BY \"k\"",
        ),
        (
            Step::GroupByAggregate { keys: vec![], aggregations: vec![(s("v"), AggFn::Max, s("m"))] },
            "SELECT MAX(\"v\") AS \"m\" FROM (SELECT * FROM t)",
        ),
        (
            Step::FormulaColumn { new_column: s("c"), expression: s("a + b") },
            "SELECT *, (a + b) AS \"c\" FROM (SELECT * FROM t)",
        ),
    ];
    for (step, expected) in cases {
        assert_eq!(step.wrap(p), expected, "{step:?}");
    }
}

#[test]
fn each_step_describes_itself() {
    let cases: Vec<(Step, &str)> = vec![
        (Step::Sort { column: s("a"), descending: false, nulls_first: true }, "Sort by a ASC NULLS FIRST"),
        (Step::Filter { predicate: s("x > 1") }, "Filter rows where x > 1"),
        (Step::DropColumns { columns: cols(&["a", "b"]) }, "Drop columns: a, b"),
        (Step::Rename { from: s("a"), to: s("b") }, "Rename a \u{2192} b"),
        (Step::Cast { column: s("a"), target_type: s("INT") }, "Cast a \u{2192} INT"),
        (Step::FillNa { column: s("a"), value: s("0") }, "Fill nulls in a with 0"),
        (Step::NullIf { column: s("a"), value: s("0") }, "Nullify a when equal to 0"),
        (Step::DropNa { columns: vec![] }, "Drop rows with any null"),
        (Step::DropNa { columns: cols(&["a"]) }, "Drop rows with null in: a"),
        (
            Step::FindReplace { column: s("a"), pattern: s("x"), replacement: s("y"), regex: true },
            "Replace in a: x \u{2192} y (regex)",
        ),
        (
            Step::FindReplace { column: s("a"), pattern: s("x"), replacement: s("y"), regex: false },
            "Replace in a: x \u{2192} y",
        ),
        (Step::Lowercase { column: s("a") }, "Lowercase a"),
        (Step::Uppercase { column: s("a") }, "Uppercase a"),
        (Step::Strip { column: s("a") }, "Strip whitespace a"),
        (Step::TextLength { column: s("a"), new_column: s("n") }, "n = length(a)"),
        (Step::Round { column: s("a"), decimals: 3 }, "Round a to 3 decimals"),
        (Step::Floor { column: s("a") }, "Floor a"),
        (Step::Ceiling { column: s("a") }, "Ceiling a"),
        (Step::DropDuplicates { columns: vec![] }, "Drop duplicate rows (all columns)"),
        (Step::DropDuplicates { columns: cols(&["a", "b"]) }, "Drop duplicates by: a, b"),
        (
            Step::GroupByAggregate {
                keys: cols(&["k", "j"]),
                aggregations: vec![(s("v"), AggFn::Avg, s("m")), (s("w"), AggFn::Count, s("c"))],
            },
            "Group by [k, j] aggregate avg(v) AS m, count(w) AS c",
        ),
        (Step::FormulaColumn { new_column: s("c"), expression: s("a*2") }, "c = a*2"),
    ];
    for (step, expected) in cases {
        assert_eq!(step.description(), expected);
    }
}

fn sample() -> Pipeline {
    let mut p = Pipeline::default();
    p.push(Step::Filter { predicate: s("a > 0") });
    p.push(Step::Lowercase { column: s("b") });
    p.push(Step::Sort { column: s("a"), descending: false, nulls_first: false });
    p
}

#[test]
fn pipeline_sql_chains_the_steps() {
    let p = sample();
    assert!(!p.is_empty());
    assert_eq!(Pipeline::default().to_sql(), "SELECT * FROM t");
    assert!(Pipeline::default().is_empty());
    let one = "SELECT * FROM (SELECT * FROM t) WHERE a > 0";
    let two = format!("SELECT * REPLACE (lower(CAST(\"b\" AS VARCHAR)) AS \"b\") FROM ({one})");
    let three = format!("SELECT * FROM ({two}) ORDER BY \"a\" ASC NULLS LAST");
    assert_eq!(p.prefix_sql(0), "SELECT * FROM t");
    assert_eq!(p.prefix_sql(1), one);
    assert_eq!(p.prefix_sql(2), two);
    assert_eq!(p.prefix_sql(3), three);
    assert_eq!(p.prefix_sql(99), three);
    assert_eq!(p.to_sql(), three);
}

#[test]
fn prefix_sql_extends_by_wrapping() {
    let p = sample();
    for n in 0..p.steps.len() {
        assert_eq!(p.prefix_sql(n + 1), p.steps[n].wrap(&p.prefix_sql(n)));
    }
}

#[test]
fn pretty_sql_uses_one_cte_per_step() {
    let p = sample();
    let expected = "WITH\n  s1 AS (\n    SELECT * FROM (SELECT * FROM t) WHERE a > 0\n  ),\n  s2 AS (\n    SELECT * REPLACE (lower(CAST(\"b\" AS VARCHAR)) AS \"b\") FROM (SELECT * FROM s1)\n  ),\n  s3 AS (\n    SELECT * FROM (SELECT * FROM s2) ORDER BY \"a\" ASC NULLS LAST\n  )\nSELECT * FROM s3";
    assert_eq!(p.to_pretty_sql(), expected);
    assert_eq!(Pipeline::default().to_pretty_sql(), "SELECT * FROM t");
}

fn descriptions(p: &Pipeline) -> Vec<String> {
    p.steps.iter().map(|st| st.description()).collect()
}

#[test]
fn editing_steps() {
    let mut p = sample();
    p.move_up(2);
    assert_eq!(descriptions(&p), vec!["Filter rows where a > 0", "Sort by a ASC NULLS LAST", "Lowercase b"]);
    p.move_up(0);
    assert_eq!(descriptions(&p)[0], "Filter rows where a > 0");
    p.move_down(2);
    assert_eq!(descriptions(&p)[2], "Lowercase b");
    p.move_down(0);
    assert_eq!(descriptions(&p), vec!["Sort by a ASC NULLS LAST", "Filter rows where a > 0", "Lowercase b"]);
    p.remove(7);
    assert_eq!(p.steps.len(), 3);
    p.remove(1);
    assert_eq!(descriptions(&p), vec!["Sort by a ASC NULLS LAST", "Lowercase b"]);
}

#[test]
fn move_up_then_down_restores_order() {
    let mut p = sample();
    let before = descriptions(&p);
    p.move_up(1);
    p.move_down(0);
    assert_eq!(descriptions(&p), before);
}

#[test]
fn removing_a_step_keeps_earlier_queries() {
    let mut p = sample();
    let before = p.prefix_sql(1);
    p.remove(2);
    assert_eq!(p.prefix_sql(1), before);
    let mut q = sample();
    let first_two = q.prefix_sql(1);
    q.move_down(1);
    assert_eq!(q.prefix_sql(1), first_two);
}
