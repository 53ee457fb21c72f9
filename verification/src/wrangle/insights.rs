//! Per-column statistics of the loaded table: what kind of column it is, the
//! queries that gather its statistics, and how their results are read.
use vstd::prelude::*;
use crate::text::{dec, push_str, push_u64};
use crate::types::TypeDesc;
use crate::wrangle::pipeline::{ident_spec, push_ident};
use crate::wrangle::session::TABLE_NAME;

verus! {

#[derive(Debug, Clone, Copy, PartialEq, Eq)]
pub enum ColumnKind {
    Numeric,
    Boolean,
    Temporal,
    String,
    Other,
}

/// Number of histogram buckets of a numeric column.
pub const BUCKETS: usize = 10;

/// Number of most frequent values shown for a column.
pub const TOP_K: usize = 3;

pub open spec fn classify_spec(dt: TypeDesc) -> ColumnKind {
    match dt {
        TypeDesc::Int8 | TypeDesc::Int16 | TypeDesc::Int32 | TypeDesc::Int64 | TypeDesc::UInt8
        | TypeDesc::UInt16 | TypeDesc::UInt32 | TypeDesc::UInt64 | TypeDesc::Float16
        | TypeDesc::Float32 | TypeDesc::Float64 | TypeDesc::Decimal128(_, _)
        | TypeDesc::Decimal256(_, _) => ColumnKind::Numeric,
        TypeDesc::Boolean => ColumnKind::Boolean,
        TypeDesc::Date32 | TypeDesc::Date64 | TypeDesc::Time32(_) | TypeDesc::Time64(_)
        | TypeDesc::Timestamp(_, _) => ColumnKind::Temporal,
        TypeDesc::Utf8 | TypeDesc::LargeUtf8 | TypeDesc::Utf8View => ColumnKind::String,
        _ => ColumnKind::Other,
    }
}

/// The kind of statistics a column of type `dt` gets.
pub fn classify(dt: &TypeDesc) -> (k: ColumnKind)
    ensures
        k == classify_spec(*dt),
{
    match dt {
        TypeDesc::Int8 | TypeDesc::Int16 | TypeDesc::Int32 | TypeDesc::Int64 | TypeDesc::UInt8
        | TypeDesc::UInt16 | TypeDesc::UInt32 | TypeDesc::UInt64 | TypeDesc::Float16
        | TypeDesc::Float32 | TypeDesc::Float64 | TypeDesc::Decimal128(_, _)
        | TypeDesc::Decimal256(_, _) => ColumnKind::Numeric,
        TypeDesc::Boolean => ColumnKind::Boolean,
        TypeDesc::Date32 | TypeDesc::Date64 | TypeDesc::Time32(_) | TypeDesc::Time64(_)
        | TypeDesc::Timestamp(_, _) => ColumnKind::Temporal,
        TypeDesc::Utf8 | TypeDesc::LargeUtf8 | TypeDesc::Utf8View => ColumnKind::String,
        _ => ColumnKind::Other,
    }
}

/// Numeric columns get a histogram.
pub fn wants_histogram(kind: ColumnKind) -> (b: bool)
    ensures
        b == (kind == ColumnKind::Numeric),
{
    match kind {
        ColumnKind::Numeric => true,
        _ => false,
    }
}

/// Boolean, temporal and text columns get their most frequent values.
pub fn wants_top_values(kind: ColumnKind) -> (b: bool)
    ensures
        b == !(kind == ColumnKind::Numeric || kind == ColumnKind::Other),
{
    match kind {
        ColumnKind::Numeric | ColumnKind::Other => false,
        _ => true,
    }
}

/// The aggregates shared by the insight and summary queries.
pub open spec fn stats_select_spec(name: Seq<char>) -> Seq<char> {
    let id = ident_spec(name);
    "SELECT COUNT(*) AS total, (COUNT(*) - COUNT("@ + id
        + ")) AS nulls, approx_distinct(CAST("@ + id + " AS VARCHAR)) AS distinct_count, CAST(MIN("@
        + id + ") AS VARCHAR) AS min_v, CAST(MAX("@ + id + ") AS VARCHAR) AS max_v"@
}

/// The query for a column's row count, null count, approximate distinct
/// count, minimum and maximum.
pub open spec fn stats_sql_spec(name: Seq<char>) -> Seq<char> {
    stats_select_spec(name) + " FROM "@ + TABLE_NAME@
}

/// The query for the `limit` most frequent non-null values of a column.
pub open spec fn top_values_sql_spec(name: Seq<char>, limit: nat) -> Seq<char> {
    let id = ident_spec(name);
    "SELECT CAST("@ + id + " AS VARCHAR) AS v, COUNT(*) AS cnt FROM "@ + TABLE_NAME@ + " WHERE "@
        + id + " IS NOT NULL GROUP BY "@ + id + " ORDER BY cnt DESC LIMIT "@ + dec(limit)
}

/// Appends the shared aggregates for column `name`.
pub fn push_stats_select(out: &mut String, name: &str)
    ensures
        final(out)@ == old(out)@ + stats_select_spec(name@),
{
    let ghost start = out@;
    let id = crate::wrangle::pipeline::ident(name);
    let id = id.as_str();
    let mut s = String::new();
    push_str(&mut s, "SELECT COUNT(*) AS total, (COUNT(*) - COUNT(");
    push_str(&mut s, id);
    push_str(&mut s, ")) AS nulls, approx_distinct(CAST(");
    push_str(&mut s, id);
    push_str(&mut s, " AS VARCHAR)) AS distinct_count, CAST(MIN(");
    push_str(&mut s, id);
    push_str(&mut s, ") AS VARCHAR) AS min_v, CAST(MAX(");
    push_str(&mut s, id);
    push_str(&mut s, ") AS VARCHAR) AS max_v");
    push_str(out, s.as_str());
}

/// The statistics query of column `name`.
pub fn stats_sql(name: &str) -> (r: String)
    ensures
        r@ == stats_sql_spec(name@),
{
    let mut s = String::new();
    push_stats_select(&mut s, name);
    push_str(&mut s, " FROM ");
    push_str(&mut s, TABLE_NAME);
    s
}

/// The most-frequent-values query of column `name`.
pub fn top_values_sql(name: &str, limit: usize) -> (r: String)
    ensures
        r@ == top_values_sql_spec(name@, limit as nat),
{
    let id = crate::wrangle::pipeline::ident(name);
    let id = id.as_str();
    let mut s = String::new();
    push_str(&mut s, "SELECT CAST(");
    push_str(&mut s, id);
    push_str(&mut s, " AS VARCHAR) AS v, COUNT(*) AS cnt FROM ");
    push_str(&mut s, TABLE_NAME);
    push_str(&mut s, " WHERE ");
    push_str(&mut s, id);
    push_str(&mut s, " IS NOT NULL GROUP BY ");
    push_str(&mut s, id);
    push_str(&mut s, " ORDER BY cnt DESC LIMIT ");
    push_u64(&mut s, limit as u64);
    s
}

/// A count read from a signed aggregate: negatives count as zero.
pub fn count_of(v: i64) -> (r: u64)
    ensures
        r == if v < 0 {
            0
        } else {
            v as int
        },
{
    if v < 0 {
        0
    } else {
        v as u64
    }
}

/// Number of non-null values out of `total` of which `nulls` are null,
/// zero when the counts disagree.
pub fn non_null_count(total: u64, nulls: u64) -> (r: u64)
    ensures
        r == if total >= nulls {
            total - nulls
        } else {
            0
        },
{
    total.saturating_sub(nulls)
}

/// Adds one row of a histogram query's result, a bucket index and its
/// count, to the bucket counts; a bucket outside `0..BUCKETS` is ignored and
/// a negative count adds nothing.
pub fn add_to_bucket(bins: &mut Vec<u64>, bucket: i64, count: i64)
    requires
        old(bins)@.len() == BUCKETS,
        0 <= bucket < BUCKETS ==> old(bins)@[bucket as int] + (if count < 0 {
            0
        } else {
            count as int
        }) <= u64::MAX,
    ensures
        final(bins)@ == if 0 <= bucket < BUCKETS {
            old(bins)@.update(
                bucket as int,
                (old(bins)@[bucket as int] + (if count < 0 {
                    0
                } else {
                    count as int
                })) as u64,
            )
        } else {
            old(bins)@
        },
{
    if 0 <= bucket && bucket < BUCKETS as i64 {
        let b = bucket as usize;
        let add = count_of(count);
        let v = bins[b] + add;
        bins.set(b, v);
    }
}

/// What one row of a histogram query's result adds to bucket `k`: its count
/// (negatives as zero) when the row's bucket is `k`, nothing otherwise.
pub open spec fn row_adds(row: (Option<i64>, i64), k: int) -> int {
    if row.0 == Some(k as i64) && 0 <= k < BUCKETS {
        if row.1 < 0 {
            0
        } else {
            row.1 as int
        }
    } else {
        0
    }
}

/// The count of bucket `k` after the first `n` rows of a histogram query's
/// result.
pub open spec fn bucket_sum(rows: Seq<(Option<i64>, i64)>, k: int, n: nat) -> int
    decreases n,
{
    if n == 0 || n > rows.len() {
        0
    } else {
        bucket_sum(rows, k, (n - 1) as nat) + row_adds(rows[n - 1], k)
    }
}

proof fn lemma_bucket_sum_grows(rows: Seq<(Option<i64>, i64)>, k: int, i: nat, j: nat)
    requires
        i <= j <= rows.len(),
    ensures
        0 <= bucket_sum(rows, k, i) <= bucket_sum(rows, k, j),
    decreases j,
{
    if j > i {
        lemma_bucket_sum_grows(rows, k, i, (j - 1) as nat);
    } else if i > 0 {
        lemma_bucket_sum_grows(rows, k, (i - 1) as nat, (i - 1) as nat);
    }
}

/// The bucket counts of a numeric column's histogram from the rows of the
/// histogram query: each row is a bucket index (null for null values, which
/// are skipped) and the number of values in it; rows whose index is outside
/// `0..BUCKETS` are ignored.
pub fn bucket_counts(rows: &Vec<(Option<i64>, i64)>) -> (bins: Vec<u64>)
    requires
        forall|k: int| 0 <= k < BUCKETS ==> bucket_sum(rows@, k, rows@.len()) <= u64::MAX,
    ensures
        bins@.len() == BUCKETS,
        forall|k: int| 0 <= k < BUCKETS ==> bins@[k] == bucket_sum(rows@, k, rows@.len()),
{
    let mut bins: Vec<u64> = Vec::new();
    let mut b: usize = 0;
    while b < BUCKETS
        invariant
            b <= BUCKETS,
            bins@.len() == b,
            forall|k: int| 0 <= k < b ==> bins@[k] == 0,
        decreases BUCKETS - b,
    {
        bins.push(0);
        b += 1;
    }
    let mut i: usize = 0;
    while i < rows.len()
        invariant
            i <= rows.len(),
            bins@.len() == BUCKETS,
            forall|k: int| 0 <= k < BUCKETS ==> bins@[k] == bucket_sum(rows@, k, i as nat),
            forall|k: int| 0 <= k < BUCKETS ==> bucket_sum(rows@, k, rows@.len()) <= u64::MAX,
        decreases rows.len() - i,
    {
        let (bucket, count) = rows[i];
        if let Some(bk) = bucket {
            proof {
                if 0 <= bk < BUCKETS {
                    lemma_bucket_sum_grows(rows@, bk as int, (i + 1) as nat, rows@.len());
                }
            }
            add_to_bucket(&mut bins, bk, count);
        }
        assert forall|k: int| 0 <= k < BUCKETS implies bins@[k] == bucket_sum(
            rows@,
            k,
            (i + 1) as nat,
        ) by {
            assert(rows@[i as int] == (bucket, count));
        }
        i += 1;
    }
    bins
}

/// How a most-frequent value is shown: the empty-set sign for null.
pub fn top_value_label(value: Option<String>) -> (r: String)
    ensures
        r@ == match value {
            Some(v) => v@,
            None => "\u{2205}"@,
        },
{
    match value {
        Some(v) => v,
        None => crate::text::owned("\u{2205}"),
    }
}

} // verus!
