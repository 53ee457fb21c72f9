//! A data-wrangling pipeline: an ordered list of steps, each of which wraps
//! the query of the steps before it into a new `SELECT`.
use vstd::prelude::*;
use crate::text::{chars_of, dec, dec_int, join, lemma_join_take, push_char, push_i64, push_str, push_u64, views};
use crate::wrangle::session::{base_query, base_sql};

verus! {

// ---------------------------------------------------------------------------
// Aggregate functions
// ---------------------------------------------------------------------------

#[derive(Debug, Clone, Copy)]
pub enum AggFn {
    Count,
    CountDistinct,
    Sum,
    Avg,
    Min,
    Max,
}

pub open spec fn agg_sql_spec(f: AggFn) -> Seq<char> {
    match f {
        AggFn::Count => "COUNT"@,
        AggFn::CountDistinct => "COUNT(DISTINCT ?)"@,
        AggFn::Sum => "SUM"@,
        AggFn::Avg => "AVG"@,
        AggFn::Min => "MIN"@,
        AggFn::Max => "MAX"@,
    }
}

pub open spec fn agg_label_spec(f: AggFn) -> Seq<char> {
    match f {
        AggFn::Count => "count"@,
        AggFn::CountDistinct => "count_distinct"@,
        AggFn::Sum => "sum"@,
        AggFn::Avg => "avg"@,
        AggFn::Min => "min"@,
        AggFn::Max => "max"@,
    }
}

impl AggFn {
    /// The SQL function name.
    pub fn sql(self) -> (r: &'static str)
        ensures
            r@ == agg_sql_spec(self),
    {
        match self {
            AggFn::Count => "COUNT",
            AggFn::CountDistinct => "COUNT(DISTINCT ?)",
            AggFn::Sum => "SUM",
            AggFn::Avg => "AVG",
            AggFn::Min => "MIN",
            AggFn::Max => "MAX",
        }
    }

    /// The name shown to the user.
    pub fn label(self) -> (r: &'static str)
        ensures
            r@ == agg_label_spec(self),
    {
        match self {
            AggFn::Count => "count",
            AggFn::CountDistinct => "count_distinct",
            AggFn::Sum => "sum",
            AggFn::Avg => "avg",
            AggFn::Min => "min",
            AggFn::Max => "max",
        }
    }

    pub const ALL: [AggFn; 6] = [
        AggFn::Count,
        AggFn::CountDistinct,
        AggFn::Sum,
        AggFn::Avg,
        AggFn::Min,
        AggFn::Max,
    ];
}

// ---------------------------------------------------------------------------
// Quoting
// ---------------------------------------------------------------------------

/// `s` with every `q` doubled.
pub open spec fn doubled(s: Seq<char>, q: char) -> Seq<char>
    decreases s.len(),
{
    if s.len() == 0 {
        Seq::empty()
    } else if s.last() == q {
        doubled(s.drop_last(), q) + seq![q, q]
    } else {
        doubled(s.drop_last(), q).push(s.last())
    }
}

/// A double-quoted SQL identifier.
pub open spec fn ident_spec(name: Seq<char>) -> Seq<char> {
    seq!['"'] + doubled(name, '"') + seq!['"']
}

/// A single-quoted SQL string literal.
pub open spec fn sql_string_spec(s: Seq<char>) -> Seq<char> {
    seq!['\''] + doubled(s, '\'') + seq!['\'']
}

/// Appends `s` quoted with `q`, embedded `q`s doubled.
fn push_quoted(out: &mut String, s: &str, q: char)
    ensures
        final(out)@ == old(out)@ + (seq![q] + doubled(s@, q) + seq![q]),
{
    let ghost start = out@;
    let v = chars_of(s);
    push_char(out, q);
    let mut i: usize = 0;
    while i < v.len()
        invariant
            i <= v.len(),
            out@ == start + seq![q] + doubled(v@.take(i as int), q),
        decreases v.len() - i,
    {
        let c = v[i];
        proof {
            assert(v@.take(i + 1).drop_last() == v@.take(i as int));
            assert(v@.take(i + 1).last() == c);
        }
        if c == q {
            push_char(out, q);
            push_char(out, q);
            proof {
                let pre = v@.take(i as int);
                assert(start + seq![q] + doubled(pre, q) + seq![q, q] == start + seq![q] + doubled(
                    pre,
                    q,
                ).push(q).push(q));
            }
        } else {
            push_char(out, c);
        }
        i += 1;
    }
    push_char(out, q);
    assert(v@.take(v.len() as int) == v@);
    assert(out@ == start + (seq![q] + doubled(s@, q) + seq![q]));
}

/// Appends `name` as a double-quoted SQL identifier.
pub fn push_ident(out: &mut String, name: &str)
    ensures
        final(out)@ == old(out)@ + ident_spec(name@),
{
    push_quoted(out, name, '"');
}

/// Appends `s` as a single-quoted SQL string literal.
pub fn push_sql_string(out: &mut String, s: &str)
    ensures
        final(out)@ == old(out)@ + sql_string_spec(s@),
{
    push_quoted(out, s, '\'');
}

/// `name` as a double-quoted SQL identifier, with `"` doubled.
pub fn ident(name: &str) -> (r: String)
    ensures
        r@ == ident_spec(name@),
{
    let mut s = String::new();
    push_ident(&mut s, name);
    s
}

/// `s` as a single-quoted SQL string literal, with `'` doubled.
pub fn sql_string(s: &str) -> (r: String)
    ensures
        r@ == sql_string_spec(s@),
{
    let mut out = String::new();
    push_sql_string(&mut out, s);
    out
}

// ---------------------------------------------------------------------------
// Steps
// ---------------------------------------------------------------------------

#[derive(Debug, Clone)]
pub enum Step {
    Sort { column: String, descending: bool, nulls_first: bool },
    Filter { predicate: String },
    DropColumns { columns: Vec<String> },
    Rename { from: String, to: String },
    Cast { column: String, target_type: String },
    FillNa { column: String, value: String },
    NullIf { column: String, value: String },
    DropNa { columns: Vec<String> },
    FindReplace { column: String, pattern: String, replacement: String, regex: bool },
    Lowercase { column: String },
    Uppercase { column: String },
    Strip { column: String },
    TextLength { column: String, new_column: String },
    Round { column: String, decimals: i32 },
    Floor { column: String },
    Ceiling { column: String },
    DropDuplicates { columns: Vec<String> },
    GroupByAggregate { keys: Vec<String>, aggregations: Vec<(String, AggFn, String)> },
    FormulaColumn { new_column: String, expression: String },
}

/// A step with its text as character sequences.
pub enum StepModel {
    Sort { column: Seq<char>, descending: bool, nulls_first: bool },
    Filter { predicate: Seq<char> },
    DropColumns { columns: Seq<Seq<char>> },
    Rename { from: Seq<char>, to: Seq<char> },
    Cast { column: Seq<char>, target_type: Seq<char> },
    FillNa { column: Seq<char>, value: Seq<char> },
    NullIf { column: Seq<char>, value: Seq<char> },
    DropNa { columns: Seq<Seq<char>> },
    FindReplace { column: Seq<char>, pattern: Seq<char>, replacement: Seq<char>, regex: bool },
    Lowercase { column: Seq<char> },
    Uppercase { column: Seq<char> },
    Strip { column: Seq<char> },
    TextLength { column: Seq<char>, new_column: Seq<char> },
    Round { column: Seq<char>, decimals: i32 },
    Floor { column: Seq<char> },
    Ceiling { column: Seq<char> },
    DropDuplicates { columns: Seq<Seq<char>> },
    GroupByAggregate { keys: Seq<Seq<char>>, aggregations: Seq<(Seq<char>, AggFn, Seq<char>)> },
    FormulaColumn { new_column: Seq<char>, expression: Seq<char> },
}

pub open spec fn agg_views(a: Seq<(String, AggFn, String)>) -> Seq<(Seq<char>, AggFn, Seq<char>)> {
    a.map_values(|t: (String, AggFn, String)| (t.0@, t.1, t.2@))
}

impl View for Step {
    type V = StepModel;

    open spec fn view(&self) -> StepModel {
        match self {
            Step::Sort { column, descending, nulls_first } => StepModel::Sort {
                column: column@,
                descending: *descending,
                nulls_first: *nulls_first,
            },
            Step::Filter { predicate } => StepModel::Filter { predicate: predicate@ },
            Step::DropColumns { columns } => StepModel::DropColumns { columns: views(columns@) },
            Step::Rename { from, to } => StepModel::Rename { from: from@, to: to@ },
            Step::Cast { column, target_type } => StepModel::Cast {
                column: column@,
                target_type: target_type@,
            },
            Step::FillNa { column, value } => StepModel::FillNa { column: column@, value: value@ },
            Step::NullIf { column, value } => StepModel::NullIf { column: column@, value: value@ },
            Step::DropNa { columns } => StepModel::DropNa { columns: views(columns@) },
            Step::FindReplace { column, pattern, replacement, regex } => StepModel::FindReplace {
                column: column@,
                pattern: pattern@,
                replacement: replacement@,
                regex: *regex,
            },
            Step::Lowercase { column } => StepModel::Lowercase { column: column@ },
            Step::Uppercase { column } => StepModel::Uppercase { column: column@ },
            Step::Strip { column } => StepModel::Strip { column: column@ },
            Step::TextLength { column, new_column } => StepModel::TextLength {
                column: column@,
                new_column: new_column@,
            },
            Step::Round { column, decimals } => StepModel::Round {
                column: column@,
                decimals: *decimals,
            },
            Step::Floor { column } => StepModel::Floor { column: column@ },
            Step::Ceiling { column } => StepModel::Ceiling { column: column@ },
            Step::DropDuplicates { columns } => StepModel::DropDuplicates {
                columns: views(columns@),
            },
            Step::GroupByAggregate { keys, aggregations } => StepModel::GroupByAggregate {
                keys: views(keys@),
                aggregations: agg_views(aggregations@),
            },
            Step::FormulaColumn { new_column, expression } => StepModel::FormulaColumn {
                new_column: new_column@,
                expression: expression@,
            },
        }
    }
}

/// Each name as a quoted identifier.
pub open spec fn idents(names: Seq<Seq<char>>) -> Seq<Seq<char>> {
    names.map_values(|n: Seq<char>| ident_spec(n))
}

/// `"c" IS NOT NULL` for each column.
pub open spec fn not_null_conds(names: Seq<Seq<char>>) -> Seq<Seq<char>> {
    names.map_values(|n: Seq<char>| ident_spec(n) + " IS NOT NULL"@)
}

/// One aggregate expression of a `GROUP BY` query.
pub open spec fn agg_expr_spec(a: (Seq<char>, AggFn, Seq<char>)) -> Seq<char> {
    match a.1 {
        AggFn::CountDistinct => "COUNT(DISTINCT "@ + ident_spec(a.0) + ") AS "@ + ident_spec(a.2),
        _ => agg_sql_spec(a.1) + "("@ + ident_spec(a.0) + ") AS "@ + ident_spec(a.2),
    }
}

pub open spec fn agg_exprs(a: Seq<(Seq<char>, AggFn, Seq<char>)>) -> Seq<Seq<char>> {
    a.map_values(|x: (Seq<char>, AggFn, Seq<char>)| agg_expr_spec(x))
}

/// One aggregate as the step's description shows it.
pub open spec fn agg_desc_spec(a: (Seq<char>, AggFn, Seq<char>)) -> Seq<char> {
    agg_label_spec(a.1) + "("@ + a.0 + ") AS "@ + a.2
}

pub open spec fn agg_descs(a: Seq<(Seq<char>, AggFn, Seq<char>)>) -> Seq<Seq<char>> {
    a.map_values(|x: (Seq<char>, AggFn, Seq<char>)| agg_desc_spec(x))
}

pub open spec fn dir_spec(descending: bool) -> Seq<char> {
    if descending {
        "DESC"@
    } else {
        "ASC"@
    }
}

pub open spec fn nulls_spec(nulls_first: bool) -> Seq<char> {
    if nulls_first {
        "NULLS FIRST"@
    } else {
        "NULLS LAST"@
    }
}

/// `SELECT * REPLACE (<expr> AS "c") FROM (<prev>)`.
pub open spec fn replace_spec(expr: Seq<char>, column: Seq<char>, prev: Seq<char>) -> Seq<char> {
    "SELECT * REPLACE ("@ + expr + " AS "@ + ident_spec(column) + ") FROM ("@ + prev + ")"@
}

/// `f(CAST("c" AS <ty>))`.
pub open spec fn cast_call_spec(f: Seq<char>, column: Seq<char>, ty: Seq<char>) -> Seq<char> {
    f + "(CAST("@ + ident_spec(column) + " AS "@ + ty + "))"@
}

/// The query of a step applied to the result of the query `prev`.
pub open spec fn wrap_spec(step: StepModel, prev: Seq<char>) -> Seq<char> {
    match step {
        StepModel::Sort { column, descending, nulls_first } => "SELECT * FROM ("@ + prev
            + ") ORDER BY "@ + ident_spec(column) + " "@ + dir_spec(descending) + " "@
            + nulls_spec(nulls_first),
        StepModel::Filter { predicate } => "SELECT * FROM ("@ + prev + ") WHERE "@ + predicate,
        StepModel::DropColumns { columns } => "SELECT * EXCEPT ("@ + join(idents(columns), ", "@)
            + ") FROM ("@ + prev + ")"@,
        StepModel::Rename { from, to } => "SELECT * EXCEPT ("@ + ident_spec(from) + "), "@
            + ident_spec(from) + " AS "@ + ident_spec(to) + " FROM ("@ + prev + ")"@,
        StepModel::Cast { column, target_type } => replace_spec(
            "CAST("@ + ident_spec(column) + " AS "@ + target_type + ")"@,
            column,
            prev,
        ),
        StepModel::FillNa { column, value } => replace_spec(
            "COALESCE("@ + ident_spec(column) + ", "@ + value + ")"@,
            column,
            prev,
        ),
        StepModel::NullIf { column, value } => replace_spec(
            "NULLIF("@ + ident_spec(column) + ", "@ + value + ")"@,
            column,
            prev,
        ),
        StepModel::DropNa { columns } => if columns.len() == 0 {
            "SELECT * FROM ("@ + prev + ") WHERE TRUE"@
        } else {
            "SELECT * FROM ("@ + prev + ") WHERE "@ + join(not_null_conds(columns), " AND "@)
        },
        StepModel::FindReplace { column, pattern, replacement, regex } => replace_spec(
            (if regex {
                "regexp_replace"@
            } else {
                "replace"@
            }) + "(CAST("@ + ident_spec(column) + " AS VARCHAR), "@ + sql_string_spec(pattern)
                + ", "@ + sql_string_spec(replacement) + ")"@,
            column,
            prev,
        ),
        StepModel::Lowercase { column } => replace_spec(
            cast_call_spec("lower"@, column, "VARCHAR"@),
            column,
            prev,
        ),
        StepModel::Uppercase { column } => replace_spec(
            cast_call_spec("upper"@, column, "VARCHAR"@),
            column,
            prev,
        ),
        StepModel::Strip { column } => replace_spec(
            cast_call_spec("btrim"@, column, "VARCHAR"@),
            column,
            prev,
        ),
        StepModel::TextLength { column, new_column } => "SELECT *, "@ + cast_call_spec(
            "char_length"@,
            column,
            "VARCHAR"@,
        ) + " AS "@ + ident_spec(new_column) + " FROM ("@ + prev + ")"@,
        StepModel::Round { column, decimals } => replace_spec(
            "round(CAST("@ + ident_spec(column) + " AS DOUBLE), "@ + dec_int(decimals as int)
                + ")"@,
            column,
            prev,
        ),
        StepModel::Floor { column } => replace_spec(
            cast_call_spec("floor"@, column, "DOUBLE"@),
            column,
            prev,
        ),
        StepModel::Ceiling { column } => replace_spec(
            cast_call_spec("ceil"@, column, "DOUBLE"@),
            column,
            prev,
        ),
        StepModel::DropDuplicates { columns } => if columns.len() == 0 {
            "SELECT DISTINCT * FROM ("@ + prev + ")"@
        } else {
            "SELECT * EXCEPT (__rn) FROM ( SELECT *, ROW_NUMBER() OVER (PARTITION BY "@ + join(
                idents(columns),
                ", "@,
            ) + " ORDER BY "@ + join(idents(columns), ", "@) + ") AS __rn FROM ("@ + prev
                + ") ) WHERE __rn = 1"@
        },
        StepModel::GroupByAggregate { keys, aggregations } => if keys.len() == 0 {
            "SELECT "@ + join(agg_exprs(aggregations), ", "@) + " FROM ("@ + prev + ")"@
        } else {
            "SELECT "@ + join(idents(keys), ", "@) + ", "@ + join(agg_exprs(aggregations), ", "@)
                + " FROM ("@ + prev + ") GROUP BY "@ + join(idents(keys), ", "@)
        },
        StepModel::FormulaColumn { new_column, expression } => "SELECT *, ("@ + expression
            + ") AS "@ + ident_spec(new_column) + " FROM ("@ + prev + ")"@,
    }
}

/// The one-line description of a step shown in the pipeline list.
pub open spec fn description_spec(step: StepModel) -> Seq<char> {
    match step {
        StepModel::Sort { column, descending, nulls_first } => "Sort by "@ + column + " "@
            + dir_spec(descending) + " "@ + nulls_spec(nulls_first),
        StepModel::Filter { predicate } => "Filter rows where "@ + predicate,
        StepModel::DropColumns { columns } => "Drop columns: "@ + join(columns, ", "@),
        StepModel::Rename { from, to } => "Rename "@ + from + " \u{2192} "@ + to,
        StepModel::Cast { column, target_type } => "Cast "@ + column + " \u{2192} "@
            + target_type,
        StepModel::FillNa { column, value } => "Fill nulls in "@ + column + " with "@ + value,
        StepModel::NullIf { column, value } => "Nullify "@ + column + " when equal to "@ + value,
        StepModel::DropNa { columns } => if columns.len() == 0 {
            "Drop rows with any null"@
        } else {
            "Drop rows with null in: "@ + join(columns, ", "@)
        },
        StepModel::FindReplace { column, pattern, replacement, regex } => "Replace in "@ + column
            + ": "@ + pattern + " \u{2192} "@ + replacement + if regex {
            " (regex)"@
        } else {
            ""@
        },
        StepModel::Lowercase { column } => "Lowercase "@ + column,
        StepModel::Uppercase { column } => "Uppercase "@ + column,
        StepModel::Strip { column } => "Strip whitespace "@ + column,
        StepModel::TextLength { column, new_column } => new_column + " = length("@ + column
            + ")"@,
        StepModel::Round { column, decimals } => "Round "@ + column + " to "@ + dec_int(
            decimals as int,
        ) + " decimals"@,
        StepModel::Floor { column } => "Floor "@ + column,
        StepModel::Ceiling { column } => "Ceiling "@ + column,
        StepModel::DropDuplicates { columns } => if columns.len() == 0 {
            "Drop duplicate rows (all columns)"@
        } else {
            "Drop duplicates by: "@ + join(columns, ", "@)
        },
        StepModel::GroupByAggregate { keys, aggregations } => "Group by ["@ + join(keys, ", "@)
            + "] aggregate "@ + join(agg_descs(aggregations), ", "@),
        StepModel::FormulaColumn { new_column, expression } => new_column + " = "@ + expression,
    }
}

// ---------------------------------------------------------------------------
// Lists inside a step's query or description
// ---------------------------------------------------------------------------

/// Appends the names, each a quoted identifier, separated by `sep`.
fn push_ident_list(out: &mut String, names: &Vec<String>, sep: &str)
    ensures
        final(out)@ == old(out)@ + join(idents(views(names@)), sep@),
{
    let ghost start = out@;
    let ghost parts = idents(views(names@));
    let mut i: usize = 0;
    while i < names.len()
        invariant
            i <= names.len(),
            parts == idents(views(names@)),
            parts.len() == names.len(),
            out@ == start + join(parts.take(i as int), sep@),
        decreases names.len() - i,
    {
        proof {
            lemma_join_take(parts, sep@, i as int);
        }
        if i > 0 {
            push_str(out, sep);
        }
        push_ident(out, names[i].as_str());
        i += 1;
    }
    assert(parts.take(names.len() as int) == parts);
}

/// Appends the names separated by `sep`.
fn push_name_list(out: &mut String, names: &Vec<String>, sep: &str)
    ensures
        final(out)@ == old(out)@ + join(views(names@), sep@),
{
    let ghost start = out@;
    let ghost parts = views(names@);
    let mut i: usize = 0;
    while i < names.len()
        invariant
            i <= names.len(),
            parts == views(names@),
            parts.len() == names.len(),
            out@ == start + join(parts.take(i as int), sep@),
        decreases names.len() - i,
    {
        proof {
            lemma_join_take(parts, sep@, i as int);
        }
        if i > 0 {
            push_str(out, sep);
        }
        push_str(out, names[i].as_str());
        i += 1;
    }
    assert(parts.take(names.len() as int) == parts);
}

/// Appends `"c" IS NOT NULL` for each column, joined by ` AND `.
fn push_not_null_list(out: &mut String, names: &Vec<String>)
    ensures
        final(out)@ == old(out)@ + join(not_null_conds(views(names@)), " AND "@),
{
    let ghost start = out@;
    let ghost parts = not_null_conds(views(names@));
    let mut i: usize = 0;
    while i < names.len()
        invariant
            i <= names.len(),
            parts == not_null_conds(views(names@)),
            parts.len() == names.len(),
            out@ == start + join(parts.take(i as int), " AND "@),
        decreases names.len() - i,
    {
        proof {
            lemma_join_take(parts, " AND "@, i as int);
        }
        if i > 0 {
            push_str(out, " AND ");
        }
        push_ident(out, names[i].as_str());
        push_str(out, " IS NOT NULL");
        i += 1;
    }
    assert(parts.take(names.len() as int) == parts);
}

/// Appends one aggregate expression of a `GROUP BY` query.
fn push_agg_expr(out: &mut String, col: &str, f: AggFn, alias: &str)
    ensures
        final(out)@ == old(out)@ + agg_expr_spec((col@, f, alias@)),
{
    let ghost start = out@;
    match f {
        AggFn::CountDistinct => {
            push_str(out, "COUNT(DISTINCT ");
        },
        _ => {
            push_str(out, f.sql());
            push_str(out, "(");
        },
    }
    push_ident(out, col);
    push_str(out, ") AS ");
    push_ident(out, alias);
}

/// Appends the aggregate expressions of a `GROUP BY` query, joined by `, `.
fn push_agg_exprs(out: &mut String, aggs: &Vec<(String, AggFn, String)>)
    ensures
        final(out)@ == old(out)@ + join(agg_exprs(agg_views(aggs@)), ", "@),
{
    let ghost start = out@;
    let ghost parts = agg_exprs(agg_views(aggs@));
    let mut i: usize = 0;
    while i < aggs.len()
        invariant
            i <= aggs.len(),
            parts == agg_exprs(agg_views(aggs@)),
            parts.len() == aggs.len(),
            out@ == start + join(parts.take(i as int), ", "@),
        decreases aggs.len() - i,
    {
        proof {
            lemma_join_take(parts, ", "@, i as int);
        }
        if i > 0 {
            push_str(out, ", ");
        }
        let (col, f, alias) = &aggs[i];
        push_agg_expr(out, col.as_str(), *f, alias.as_str());
        i += 1;
    }
    assert(parts.take(aggs.len() as int) == parts);
}

/// Appends the aggregates as the description shows them, joined by `, `.
fn push_agg_descs(out: &mut String, aggs: &Vec<(String, AggFn, String)>)
    ensures
        final(out)@ == old(out)@ + join(agg_descs(agg_views(aggs@)), ", "@),
{
    let ghost start = out@;
    let ghost parts = agg_descs(agg_views(aggs@));
    let mut i: usize = 0;
    while i < aggs.len()
        invariant
            i <= aggs.len(),
            parts == agg_descs(agg_views(aggs@)),
            parts.len() == aggs.len(),
            out@ == start + join(parts.take(i as int), ", "@),
        decreases aggs.len() - i,
    {
        proof {
            lemma_join_take(parts, ", "@, i as int);
        }
        if i > 0 {
            push_str(out, ", ");
        }
        let (col, f, alias) = &aggs[i];
        push_str(out, f.label());
        push_str(out, "(");
        push_str(out, col.as_str());
        push_str(out, ") AS ");
        push_str(out, alias.as_str());
        i += 1;
    }
    assert(parts.take(aggs.len() as int) == parts);
}

// ---------------------------------------------------------------------------
// A step's query and description
// ---------------------------------------------------------------------------

fn dir_str(descending: bool) -> (r: &'static str)
    ensures
        r@ == dir_spec(descending),
{
    if descending {
        "DESC"
    } else {
        "ASC"
    }
}

fn nulls_str(nulls_first: bool) -> (r: &'static str)
    ensures
        r@ == nulls_spec(nulls_first),
{
    if nulls_first {
        "NULLS FIRST"
    } else {
        "NULLS LAST"
    }
}

/// Appends `SELECT * REPLACE (<expr> AS "c") FROM (<prev>)`.
fn push_replace(out: &mut String, expr: &str, column: &str, prev: &str)
    ensures
        final(out)@ == old(out)@ + replace_spec(expr@, column@, prev@),
{
    let ghost start = out@;
    let mut s = String::new();
    push_str(&mut s, "SELECT * REPLACE (");
    push_str(&mut s, expr);
    push_str(&mut s, " AS ");
    push_ident(&mut s, column);
    push_str(&mut s, ") FROM (");
    push_str(&mut s, prev);
    push_str(&mut s, ")");
    push_str(out, s.as_str());
}

/// `f(CAST("c" AS <ty>))`.
fn cast_call(f: &str, column: &str, ty: &str) -> (r: String)
    ensures
        r@ == cast_call_spec(f@, column@, ty@),
{
    let mut s = String::new();
    push_str(&mut s, f);
    push_str(&mut s, "(CAST(");
    push_ident(&mut s, column);
    push_str(&mut s, " AS ");
    push_str(&mut s, ty);
    push_str(&mut s, "))");
    s
}

/// `SELECT * REPLACE (f(CAST("c" AS <ty>)) AS "c") FROM (<prev>)`.
fn replace_with_cast_call(f: &str, column: &str, ty: &str, prev: &str) -> (r: String)
    ensures
        r@ == replace_spec(cast_call_spec(f@, column@, ty@), column@, prev@),
{
    let e = cast_call(f, column, ty);
    let mut s = String::new();
    push_replace(&mut s, e.as_str(), column, prev);
    s
}

impl Step {
    /// The query of this step applied to the result of the query `prev`.
    pub fn wrap(&self, prev: &str) -> (r: String)
        ensures
            r@ == wrap_spec(self@, prev@),
    {
        let mut s = String::new();
        match self {
            Step::Sort { column, descending, nulls_first } => {
                push_str(&mut s, "SELECT * FROM (");
                push_str(&mut s, prev);
                push_str(&mut s, ") ORDER BY ");
                push_ident(&mut s, column.as_str());
                push_str(&mut s, " ");
                push_str(&mut s, dir_str(*descending));
                push_str(&mut s, " ");
                push_str(&mut s, nulls_str(*nulls_first));
            },
            Step::Filter { predicate } => {
                push_str(&mut s, "SELECT * FROM (");
                push_str(&mut s, prev);
                push_str(&mut s, ") WHERE ");
                push_str(&mut s, predicate.as_str());
            },
            Step::DropColumns { columns } => {
                push_str(&mut s, "SELECT * EXCEPT (");
                push_ident_list(&mut s, columns, ", ");
                push_str(&mut s, ") FROM (");
                push_str(&mut s, prev);
                push_str(&mut s, ")");
            },
            Step::Rename { from, to } => {
                push_str(&mut s, "SELECT * EXCEPT (");
                push_ident(&mut s, from.as_str());
                push_str(&mut s, "), ");
                push_ident(&mut s, from.as_str());
                push_str(&mut s, " AS ");
                push_ident(&mut s, to.as_str());
                push_str(&mut s, " FROM (");
                push_str(&mut s, prev);
                push_str(&mut s, ")");
            },
            Step::Cast { column, target_type } => {
                let mut e = String::new();
                push_str(&mut e, "CAST(");
                push_ident(&mut e, column.as_str());
                push_str(&mut e, " AS ");
                push_str(&mut e, target_type.as_str());
                push_str(&mut e, ")");
                push_replace(&mut s, e.as_str(), column.as_str(), prev);
            },
            Step::FillNa { column, value } => {
                let mut e = String::new();
                push_str(&mut e, "COALESCE(");
                push_ident(&mut e, column.as_str());
                push_str(&mut e, ", ");
                push_str(&mut e, value.as_str());
                push_str(&mut e, ")");
                push_replace(&mut s, e.as_str(), column.as_str(), prev);
            },
            Step::NullIf { column, value } => {
                let mut e = String::new();
                push_str(&mut e, "NULLIF(");
                push_ident(&mut e, column.as_str());
                push_str(&mut e, ", ");
                push_str(&mut e, value.as_str());
                push_str(&mut e, ")");
                push_replace(&mut s, e.as_str(), column.as_str(), prev);
            },
            Step::DropNa { columns } => {
                push_str(&mut s, "SELECT * FROM (");
                push_str(&mut s, prev);
                if columns.len() == 0 {
                    push_str(&mut s, ") WHERE TRUE");
                } else {
                    push_str(&mut s, ") WHERE ");
                    push_not_null_list(&mut s, columns);
                }
            },
            Step::FindReplace { column, pattern, replacement, regex } => {
                let mut e = String::new();
                if *regex {
                    push_str(&mut e, "regexp_replace");
                } else {
                    push_str(&mut e, "replace");
                }
                push_str(&mut e, "(CAST(");
                push_ident(&mut e, column.as_str());
                push_str(&mut e, " AS VARCHAR), ");
                push_sql_string(&mut e, pattern.as_str());
                push_str(&mut e, ", ");
                push_sql_string(&mut e, replacement.as_str());
                push_str(&mut e, ")");
                push_replace(&mut s, e.as_str(), column.as_str(), prev);
            },
            Step::Lowercase { column } => {
                s = replace_with_cast_call("lower", column.as_str(), "VARCHAR", prev);
            },
            Step::Uppercase { column } => {
                s = replace_with_cast_call("upper", column.as_str(), "VARCHAR", prev);
            },
            Step::Strip { column } => {
                s = replace_with_cast_call("btrim", column.as_str(), "VARCHAR", prev);
            },
            Step::TextLength { column, new_column } => {
                let c = cast_call("char_length", column.as_str(), "VARCHAR");
                push_str(&mut s, "SELECT *, ");
                push_str(&mut s, c.as_str());
                push_str(&mut s, " AS ");
                push_ident(&mut s, new_column.as_str());
                push_str(&mut s, " FROM (");
                push_str(&mut s, prev);
                push_str(&mut s, ")");
            },
            Step::Round { column, decimals } => {
                let mut e = String::new();
                push_str(&mut e, "round(CAST(");
                push_ident(&mut e, column.as_str());
                push_str(&mut e, " AS DOUBLE), ");
                push_i64(&mut e, *decimals as i64);
                push_str(&mut e, ")");
                push_replace(&mut s, e.as_str(), column.as_str(), prev);
            },
            Step::Floor { column } => {
                s = replace_with_cast_call("floor", column.as_str(), "DOUBLE", prev);
            },
            Step::Ceiling { column } => {
                s = replace_with_cast_call("ceil", column.as_str(), "DOUBLE", prev);
            },
            Step::DropDuplicates { columns } => {
                if columns.len() == 0 {
                    push_str(&mut s, "SELECT DISTINCT * FROM (");
                    push_str(&mut s, prev);
                    push_str(&mut s, ")");
                } else {
                    push_str(
                        &mut s,
                        "SELECT * EXCEPT (__rn) FROM ( SELECT *, ROW_NUMBER() OVER (PARTITION BY ",
                    );
                    push_ident_list(&mut s, columns, ", ");
                    push_str(&mut s, " ORDER BY ");
                    push_ident_list(&mut s, columns, ", ");
                    push_str(&mut s, ") AS __rn FROM (");
                    push_str(&mut s, prev);
                    push_str(&mut s, ") ) WHERE __rn = 1");
                }
            },
            Step::GroupByAggregate { keys, aggregations } => {
                push_str(&mut s, "SELECT ");
                if keys.len() == 0 {
                    push_agg_exprs(&mut s, aggregations);
                    push_str(&mut s, " FROM (");
                    push_str(&mut s, prev);
                    push_str(&mut s, ")");
                } else {
                    push_ident_list(&mut s, keys, ", ");
                    push_str(&mut s, ", ");
                    push_agg_exprs(&mut s, aggregations);
                    push_str(&mut s, " FROM (");
                    push_str(&mut s, prev);
                    push_str(&mut s, ") GROUP BY ");
                    push_ident_list(&mut s, keys, ", ");
                }
            },
            Step::FormulaColumn { new_column, expression } => {
                push_str(&mut s, "SELECT *, (");
                push_str(&mut s, expression.as_str());
                push_str(&mut s, ") AS ");
                push_ident(&mut s, new_column.as_str());
                push_str(&mut s, " FROM (");
                push_str(&mut s, prev);
                push_str(&mut s, ")");
            },
        }
        s
    }

    /// The one-line description shown in the pipeline list.
    pub fn description(&self) -> (r: String)
        ensures
            r@ == description_spec(self@),
    {
        let mut s = String::new();
        match self {
            Step::Sort { column, descending, nulls_first } => {
                push_str(&mut s, "Sort by ");
                push_str(&mut s, column.as_str());
                push_str(&mut s, " ");
                push_str(&mut s, dir_str(*descending));
                push_str(&mut s, " ");
                push_str(&mut s, nulls_str(*nulls_first));
            },
            Step::Filter { predicate } => {
                push_str(&mut s, "Filter rows where ");
                push_str(&mut s, predicate.as_str());
            },
            Step::DropColumns { columns } => {
                push_str(&mut s, "Drop columns: ");
                push_name_list(&mut s, columns, ", ");
            },
            Step::Rename { from, to } => {
                push_str(&mut s, "Rename ");
                push_str(&mut s, from.as_str());
                push_str(&mut s, " \u{2192} ");
                push_str(&mut s, to.as_str());
            },
            Step::Cast { column, target_type } => {
                push_str(&mut s, "Cast ");
                push_str(&mut s, column.as_str());
                push_str(&mut s, " \u{2192} ");
                push_str(&mut s, target_type.as_str());
            },
            Step::FillNa { column, value } => {
                push_str(&mut s, "Fill nulls in ");
                push_str(&mut s, column.as_str());
                push_str(&mut s, " with ");
                push_str(&mut s, value.as_str());
            },
            Step::NullIf { column, value } => {
                push_str(&mut s, "Nullify ");
                push_str(&mut s, column.as_str());
                push_str(&mut s, " when equal to ");
                push_str(&mut s, value.as_str());
            },
            Step::DropNa { columns } => {
                if columns.len() == 0 {
                    push_str(&mut s, "Drop rows with any null");
                } else {
                    push_str(&mut s, "Drop rows with null in: ");
                    push_name_list(&mut s, columns, ", ");
                }
            },
            Step::FindReplace { column, pattern, replacement, regex } => {
                push_str(&mut s, "Replace in ");
                push_str(&mut s, column.as_str());
                push_str(&mut s, ": ");
                push_str(&mut s, pattern.as_str());
                push_str(&mut s, " \u{2192} ");
                push_str(&mut s, replacement.as_str());
                if *regex {
                    push_str(&mut s, " (regex)");
                } else {
                    push_str(&mut s, "");
                }
            },
            Step::Lowercase { column } => {
                push_str(&mut s, "Lowercase ");
                push_str(&mut s, column.as_str());
            },
            Step::Uppercase { column } => {
                push_str(&mut s, "Uppercase ");
                push_str(&mut s, column.as_str());
            },
            Step::Strip { column } => {
                push_str(&mut s, "Strip whitespace ");
                push_str(&mut s, column.as_str());
            },
            Step::TextLength { column, new_column } => {
                push_str(&mut s, new_column.as_str());
                push_str(&mut s, " = length(");
                push_str(&mut s, column.as_str());
                push_str(&mut s, ")");
            },
            Step::Round { column, decimals } => {
                push_str(&mut s, "Round ");
                push_str(&mut s, column.as_str());
                push_str(&mut s, " to ");
                push_i64(&mut s, *decimals as i64);
                push_str(&mut s, " decimals");
            },
            Step::Floor { column } => {
                push_str(&mut s, "Floor ");
                push_str(&mut s, column.as_str());
            },
            Step::Ceiling { column } => {
                push_str(&mut s, "Ceiling ");
                push_str(&mut s, column.as_str());
            },
            Step::DropDuplicates { columns } => {
                if columns.len() == 0 {
                    push_str(&mut s, "Drop duplicate rows (all columns)");
                } else {
                    push_str(&mut s, "Drop duplicates by: ");
                    push_name_list(&mut s, columns, ", ");
                }
            },
            Step::GroupByAggregate { keys, aggregations } => {
                push_str(&mut s, "Group by [");
                push_name_list(&mut s, keys, ", ");
                push_str(&mut s, "] aggregate ");
                push_agg_descs(&mut s, aggregations);
            },
            Step::FormulaColumn { new_column, expression } => {
                push_str(&mut s, new_column.as_str());
                push_str(&mut s, " = ");
                push_str(&mut s, expression.as_str());
            },
        }
        s
    }
}

// ---------------------------------------------------------------------------
// Pipelines
// ---------------------------------------------------------------------------

#[derive(Debug, Clone)]
pub struct Pipeline {
    pub steps: Vec<Step>,
}

impl View for Pipeline {
    type V = Seq<StepModel>;

    open spec fn view(&self) -> Seq<StepModel> {
        self.steps@.map_values(|s: Step| s@)
    }
}

impl Default for Pipeline {
    fn default() -> (p: Pipeline)
        ensures
            p.steps@.len() == 0,
    {
        Pipeline { steps: Vec::new() }
    }
}

/// The query of the first `n` steps, each wrapping the query of the steps
/// before it, starting from the table itself.
pub open spec fn chain_sql(steps: Seq<StepModel>, n: nat) -> Seq<char>
    decreases n,
{
    if n == 0 {
        base_sql()
    } else {
        wrap_spec(steps[n - 1], chain_sql(steps, (n - 1) as nat))
    }
}

/// `s` with the elements at `i` and `i + 1` exchanged.
pub open spec fn swap_adjacent<A>(s: Seq<A>, i: int) -> Seq<A> {
    s.update(i, s[i + 1]).update(i + 1, s[i])
}

/// The query that names the `i`-th common table expression's input.
pub open spec fn cte_input_spec(i: nat) -> Seq<char> {
    if i == 0 {
        base_sql()
    } else {
        "SELECT * FROM s"@ + dec(i)
    }
}

/// The `i`-th common table expression of the readable query.
pub open spec fn cte_spec(steps: Seq<StepModel>, i: nat) -> Seq<char> {
    "  s"@ + dec(i + 1) + " AS (\n    "@ + wrap_spec(steps[i as int], cte_input_spec(i))
        + "\n  )"@
}

pub open spec fn ctes_spec(steps: Seq<StepModel>) -> Seq<Seq<char>> {
    Seq::new(steps.len(), |i: int| cte_spec(steps, i as nat))
}

/// The readable form of the pipeline's query: one common table expression per
/// step, each selecting from the one before.
pub open spec fn pretty_sql_spec(steps: Seq<StepModel>) -> Seq<char> {
    if steps.len() == 0 {
        base_sql()
    } else {
        "WITH\n"@ + join(ctes_spec(steps), ",\n"@) + "\nSELECT * FROM s"@ + dec(steps.len())
    }
}

impl Pipeline {
    pub fn is_empty(&self) -> (r: bool)
        ensures
            r == (self.steps@.len() == 0),
    {
        self.steps.len() == 0
    }

    /// Appends a step at the end.
    pub fn push(&mut self, step: Step)
        ensures
            final(self).steps@ == old(self).steps@.push(step),
    {
        self.steps.push(step);
    }

    /// Removes the step at `idx`; an index past the end changes nothing.
    pub fn remove(&mut self, idx: usize)
        ensures
            final(self).steps@ == if idx < old(self).steps@.len() {
                old(self).steps@.remove(idx as int)
            } else {
                old(self).steps@
            },
    {
        if idx < self.steps.len() {
            self.steps.remove(idx);
        }
    }

    /// Moves the step at `idx` one place earlier; the first step, or an index
    /// past the end, changes nothing.
    pub fn move_up(&mut self, idx: usize)
        ensures
            final(self).steps@ == if 0 < idx < old(self).steps@.len() {
                swap_adjacent(old(self).steps@, idx - 1)
            } else {
                old(self).steps@
            },
    {
        if idx > 0 && idx < self.steps.len() {
            let ghost before = self.steps@;
            let s = self.steps.remove(idx);
            self.steps.insert(idx - 1, s);
            assert(self.steps@ =~= swap_adjacent(before, idx - 1));
        }
    }

    /// Moves the step at `idx` one place later; the last step, or an index
    /// past the end, changes nothing.
    pub fn move_down(&mut self, idx: usize)
        ensures
            final(self).steps@ == if idx + 1 < old(self).steps@.len() {
                swap_adjacent(old(self).steps@, idx as int)
            } else {
                old(self).steps@
            },
    {
        if idx < self.steps.len() && idx + 1 < self.steps.len() {
            let ghost before = self.steps@;
            let s = self.steps.remove(idx + 1);
            self.steps.insert(idx, s);
            assert(self.steps@ =~= swap_adjacent(before, idx as int));
        }
    }

    /// The query of the first `n` steps (all of them when `n` is larger).
    fn chain(&self, n: usize) -> (r: String)
        requires
            n <= self@.len(),
        ensures
            r@ == chain_sql(self@, n as nat),
    {
        let mut current = base_query();
        let mut i: usize = 0;
        while i < n
            invariant
                i <= n <= self@.len(),
                self@.len() == self.steps@.len(),
                current@ == chain_sql(self@, i as nat),
            decreases n - i,
        {
            current = self.steps[i].wrap(current.as_str());
            i += 1;
        }
        current
    }

    /// Build the full SQL representing the pipeline output.
    pub fn to_sql(&self) -> (r: String)
        ensures
            r@ == chain_sql(self@, self@.len()),
    {
        self.chain(self.steps.len())
    }

    /// SQL covering only the first `n` steps (n=0 means the base table).
    pub fn prefix_sql(&self, n: usize) -> (r: String)
        ensures
            r@ == chain_sql(self@, if n < self@.len() { n as nat } else { self@.len() }),
    {
        if n < self.steps.len() {
            self.chain(n)
        } else {
            self.chain(self.steps.len())
        }
    }

    /// Build a human-readable CTE chain. Each step becomes its own CTE that selects
    /// from the previous one, so the reader can map step number to SQL fragment.
    pub fn to_pretty_sql(&self) -> (r: String)
        ensures
            r@ == pretty_sql_spec(self@),
    {
        if self.steps.len() == 0 {
            return base_query();
        }
        let ghost parts = ctes_spec(self@);
        let mut s = String::new();
        push_str(&mut s, "WITH\n");
        let mut i: usize = 0;
        while i < self.steps.len()
            invariant
                i <= self.steps@.len(),
                self@.len() == self.steps@.len(),
                parts == ctes_spec(self@),
                s@ == "WITH\n"@ + join(parts.take(i as int), ",\n"@),
            decreases self.steps.len() - i,
        {
            proof {
                lemma_join_take(parts, ",\n"@, i as int);
            }
            let mut input = String::new();
            if i == 0 {
                input = base_query();
            } else {
                push_str(&mut input, "SELECT * FROM s");
                push_u64(&mut input, i as u64);
            }
            let cur = self.steps[i].wrap(input.as_str());
            let mut cte = String::new();
            push_str(&mut cte, "  s");
            push_u64(&mut cte, (i as u64) + 1);
            push_str(&mut cte, " AS (\n    ");
            push_str(&mut cte, cur.as_str());
            push_str(&mut cte, "\n  )");
            assert(cte@ == parts[i as int]);
            if i > 0 {
                push_str(&mut s, ",\n");
            }
            let ghost before = s@;
            push_str(&mut s, cte.as_str());
            assert(s@ == "WITH\n"@ + join(parts.take(i + 1), ",\n"@));
            i += 1;
        }
        assert(parts.take(self.steps.len() as int) == parts);
        push_str(&mut s, "\nSELECT * FROM s");
        push_u64(&mut s, self.steps.len() as u64);
        s
    }
}

// ---------------------------------------------------------------------------
// Laws
// ---------------------------------------------------------------------------

/// Reads a quoted body back: each `qq` pair stands for one `q`.
pub open spec fn undoubled(t: Seq<char>, q: char) -> Seq<char>
    decreases t.len(),
{
    if t.len() == 0 {
        Seq::empty()
    } else if t.last() == q && t.len() >= 2 {
        undoubled(t.drop_last().drop_last(), q).push(q)
    } else {
        undoubled(t.drop_last(), q).push(t.last())
    }
}

/// Every run of `q` in `t` has even length: nothing in `t` closes the quote.
pub open spec fn balanced(t: Seq<char>, q: char) -> bool
    decreases t.len(),
{
    if t.len() == 0 {
        true
    } else if t.last() == q {
        t.len() >= 2 && t[t.len() - 2] == q && balanced(t.drop_last().drop_last(), q)
    } else {
        balanced(t.drop_last(), q)
    }
}

pub proof fn lemma_doubled_round_trip(s: Seq<char>, q: char)
    ensures
        undoubled(doubled(s, q), q) == s,
        balanced(doubled(s, q), q),
    decreases s.len(),
{
    if s.len() > 0 {
        let d = doubled(s.drop_last(), q);
        lemma_doubled_round_trip(s.drop_last(), q);
        if s.last() == q {
            let t = d + seq![q, q];
            assert(t.drop_last().drop_last() =~= d);
            assert(s.drop_last().push(q) =~= s);
        } else {
            assert(d.push(s.last()).drop_last() =~= d);
            assert(s.drop_last().push(s.last()) =~= s);
        }
    }
}

/// A name written as an identifier is double-quoted, nothing inside the
/// quotes ends the identifier early, and reading it back gives the name.
pub proof fn law_ident_round_trip(name: Seq<char>)
    ensures
        ({
            let t = ident_spec(name);
            let inner = t.subrange(1, t.len() - 1);
            &&& t.len() >= 2
            &&& t[0] == '"'
            &&& t.last() == '"'
            &&& balanced(inner, '"')
            &&& undoubled(inner, '"') == name
        }),
{
    let t = ident_spec(name);
    assert(t.subrange(1, t.len() - 1) =~= doubled(name, '"'));
    lemma_doubled_round_trip(name, '"');
}

/// Different names give different identifiers.
pub proof fn law_ident_injective(a: Seq<char>, b: Seq<char>)
    requires
        ident_spec(a) == ident_spec(b),
    ensures
        a == b,
{
    law_ident_round_trip(a);
    law_ident_round_trip(b);
}

/// A text written as a string literal is single-quoted, nothing inside the
/// quotes ends the literal early, and reading it back gives the text.
pub proof fn law_sql_string_round_trip(text: Seq<char>)
    ensures
        ({
            let t = sql_string_spec(text);
            let inner = t.subrange(1, t.len() - 1);
            &&& t.len() >= 2
            &&& t[0] == '\''
            &&& t.last() == '\''
            &&& balanced(inner, '\'')
            &&& undoubled(inner, '\'') == text
        }),
{
    let t = sql_string_spec(text);
    assert(t.subrange(1, t.len() - 1) =~= doubled(text, '\''));
    lemma_doubled_round_trip(text, '\'');
}

/// The query of the first `n` steps depends on those steps only.
pub proof fn lemma_chain_prefix(a: Seq<StepModel>, b: Seq<StepModel>, n: nat)
    requires
        n <= a.len(),
        n <= b.len(),
        forall|i: int| 0 <= i < n ==> a[i] == b[i],
    ensures
        chain_sql(a, n) == chain_sql(b, n),
    decreases n,
{
    if n > 0 {
        lemma_chain_prefix(a, b, (n - 1) as nat);
    }
}

/// With no steps, or with the prefix of length zero, the query is the table
/// itself.
pub proof fn law_empty_prefix_is_table(p: Pipeline)
    ensures
        chain_sql(p@, 0) == base_sql(),
{
}

/// The query of `n + 1` steps is step `n` applied to the query of the first
/// `n` steps.
pub proof fn law_prefix_extends(p: Pipeline, n: nat)
    requires
        n < p@.len(),
    ensures
        chain_sql(p@, n + 1) == wrap_spec(p@[n as int], chain_sql(p@, n)),
{
}

/// Pushing a step wraps the previous pipeline's query in it.
pub proof fn law_push_wraps(before: Pipeline, after: Pipeline, step: Step)
    requires
        after.steps@ == before.steps@.push(step),
    ensures
        chain_sql(after@, after@.len()) == wrap_spec(step@, chain_sql(before@, before@.len())),
{
    assert(after@ =~= before@.push(step@));
    lemma_chain_prefix(after@, before@, before@.len());
}

/// Removing step `i` leaves the query of the steps before it unchanged.
pub proof fn law_remove_keeps_earlier(before: Pipeline, after: Pipeline, i: nat, k: nat)
    requires
        i < before.steps@.len(),
        after.steps@ == before.steps@.remove(i as int),
        k <= i,
    ensures
        chain_sql(after@, k) == chain_sql(before@, k),
{
    lemma_chain_prefix(after@, before@, k);
}

/// Exchanging steps `i` and `i + 1` leaves the query of the steps before them
/// unchanged.
pub proof fn law_swap_keeps_earlier(before: Pipeline, after: Pipeline, i: nat, k: nat)
    requires
        i + 1 < before.steps@.len(),
        after.steps@ == swap_adjacent(before.steps@, i as int),
        k <= i,
    ensures
        chain_sql(after@, k) == chain_sql(before@, k),
{
    lemma_chain_prefix(after@, before@, k);
}

/// Moving a step up and then back down restores the pipeline.
pub proof fn law_move_up_then_down(s: Seq<Step>, i: int)
    requires
        0 <= i,
        i + 1 < s.len(),
    ensures
        swap_adjacent(swap_adjacent(s, i), i) == s,
{
    assert(swap_adjacent(swap_adjacent(s, i), i) =~= s);
}

/// A sort step orders the previous query by its column: the query starts by
/// selecting from the previous one, and ends with the direction (`ASC` or
/// `DESC`) followed by `NULLS FIRST` exactly when nulls come first and by
/// `NULLS LAST` otherwise.
pub proof fn law_sort_step_order(
    column: Seq<char>,
    descending: bool,
    nulls_first: bool,
    prev: Seq<char>,
)
    ensures
        ({
            let q = wrap_spec(StepModel::Sort { column, descending, nulls_first }, prev);
            let nulls: Seq<char> = if nulls_first {
                "NULLS FIRST"@
            } else {
                "NULLS LAST"@
            };
            let dir: Seq<char> = if descending {
                " DESC "@
            } else {
                " ASC "@
            };
            &&& q.len() >= nulls.len() + dir.len()
            &&& q.skip(q.len() - nulls.len()) == nulls
            &&& q.subrange(q.len() - nulls.len() - dir.len(), q.len() - nulls.len()) == dir
            &&& q.take(prev.len() + 15int) == "SELECT * FROM ("@ + prev
        }),
{
    reveal_strlit("NULLS FIRST");
    reveal_strlit("NULLS LAST");
    reveal_strlit(" DESC ");
    reveal_strlit(" ASC ");
    reveal_strlit("DESC");
    reveal_strlit("ASC");
    reveal_strlit(" ");
    reveal_strlit("SELECT * FROM (");
    let q = wrap_spec(StepModel::Sort { column, descending, nulls_first }, prev);
    let head = "SELECT * FROM ("@ + prev + ") ORDER BY "@ + ident_spec(column);
    let nulls: Seq<char> = nulls_spec(nulls_first);
    let dir: Seq<char> = " "@ + dir_spec(descending) + " "@;
    assert(q =~= head + dir + nulls);
    assert(q.skip(q.len() - nulls.len()) =~= nulls);
    assert(q.subrange(q.len() - nulls.len() - dir.len(), q.len() - nulls.len()) =~= dir);
    assert(q.take(prev.len() + 15int) =~= "SELECT * FROM ("@ + prev);
    if descending {
        assert(dir =~= " DESC "@);
    } else {
        assert(dir =~= " ASC "@);
    }
}

} // verus!
