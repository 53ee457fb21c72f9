//! The query behind the detailed summary of one column.
use vstd::prelude::*;
use crate::text::{dec, push_str, push_u64};
use crate::wrangle::insights::{push_stats_select, stats_select_spec};
use crate::wrangle::pipeline::ident_spec;
use crate::wrangle::session::TABLE_NAME;

verus! {

/// Number of most frequent values in a column summary.
pub const TOP_K: usize = 10;

/// Mean, standard deviation and quartiles, for numeric columns.
pub open spec fn numeric_aggregates_spec(name: Seq<char>) -> Seq<char> {
    let id = ident_spec(name);
    ", AVG(CAST("@ + id + " AS DOUBLE)) AS mean_v, STDDEV(CAST("@ + id
        + " AS DOUBLE)) AS std_v, approx_percentile_cont(CAST("@ + id
        + " AS DOUBLE), 0.25) AS q25_v, approx_percentile_cont(CAST("@ + id
        + " AS DOUBLE), 0.5) AS q50_v, approx_percentile_cont(CAST("@ + id
        + " AS DOUBLE), 0.75) AS q75_v"@
}

/// The summary query of column `name`; a numeric column also gets its mean,
/// standard deviation and quartiles.
pub open spec fn summary_sql_spec(name: Seq<char>, numeric: bool) -> Seq<char> {
    stats_select_spec(name) + (if numeric {
        numeric_aggregates_spec(name)
    } else {
        Seq::empty()
    }) + " FROM "@ + TABLE_NAME@
}

pub fn summary_sql(name: &str, numeric: bool) -> (r: String)
    ensures
        r@ == summary_sql_spec(name@, numeric),
{
    let mut s = String::new();
    push_stats_select(&mut s, name);
    let ghost after_select = s@;
    if numeric {
        let id = crate::wrangle::pipeline::ident(name);
        let id = id.as_str();
        let mut t = String::new();
        push_str(&mut t, ", AVG(CAST(");
        push_str(&mut t, id);
        push_str(&mut t, " AS DOUBLE)) AS mean_v, STDDEV(CAST(");
        push_str(&mut t, id);
        push_str(&mut t, " AS DOUBLE)) AS std_v, approx_percentile_cont(CAST(");
        push_str(&mut t, id);
        push_str(&mut t, " AS DOUBLE), 0.25) AS q25_v, approx_percentile_cont(CAST(");
        push_str(&mut t, id);
        push_str(&mut t, " AS DOUBLE), 0.5) AS q50_v, approx_percentile_cont(CAST(");
        push_str(&mut t, id);
        push_str(&mut t, " AS DOUBLE), 0.75) AS q75_v");
        push_str(&mut s, t.as_str());
    } else {
        assert(after_select + Seq::<char>::empty() == after_select);
    }
    push_str(&mut s, " FROM ");
    push_str(&mut s, TABLE_NAME);
    s
}

/// The column at `index` of a table of `n` columns, or the error that a
/// summary of a column past the end gives.
pub fn column_in_range(index: usize, n: usize) -> (r: Result<usize, String>)
    ensures
        match r {
            Ok(i) => index < n && i == index,
            Err(e) => index >= n && e@ == "column index "@ + dec(index as nat) + " out of range"@,
        },
{
    if index < n {
        Ok(index)
    } else {
        let mut e = String::new();
        push_str(&mut e, "column index ");
        push_u64(&mut e, index as u64);
        push_str(&mut e, " out of range");
        Err(e)
    }
}

} // verus!
