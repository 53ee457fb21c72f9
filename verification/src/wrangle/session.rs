//! The SQL that a wrangling session sends to its query engine around a
//! pipeline's query: one page of rows, or the number of rows.
use vstd::prelude::*;
use crate::text::{dec, push_str, push_u64};

verus! {

/// Name under which the opened Parquet file is registered.
pub const TABLE_NAME: &'static str = "t";

/// `SELECT * FROM t`: the table as loaded.
pub open spec fn base_sql() -> Seq<char> {
    "SELECT * FROM "@ + TABLE_NAME@
}

/// `SELECT * FROM t`.
pub fn base_query() -> (r: String)
    ensures
        r@ == base_sql(),
{
    let mut s = String::new();
    push_str(&mut s, "SELECT * FROM ");
    push_str(&mut s, TABLE_NAME);
    s
}

pub open spec fn page_sql_spec(base: Seq<char>, offset: nat, limit: nat) -> Seq<char> {
    "SELECT * FROM ("@ + base + ") LIMIT "@ + dec(limit) + " OFFSET "@ + dec(offset)
}

/// The query for `limit` rows of `base_sql`'s result, starting at row `offset`.
pub fn page_sql(base_sql: &str, offset: usize, limit: usize) -> (r: String)
    ensures
        r@ == page_sql_spec(base_sql@, offset as nat, limit as nat),
{
    let mut s = String::new();
    push_str(&mut s, "SELECT * FROM (");
    push_str(&mut s, base_sql);
    push_str(&mut s, ") LIMIT ");
    push_u64(&mut s, limit as u64);
    push_str(&mut s, " OFFSET ");
    push_u64(&mut s, offset as u64);
    s
}

pub open spec fn count_sql_spec(base: Seq<char>) -> Seq<char> {
    "SELECT COUNT(*) FROM ("@ + base + ")"@
}

/// The query for the number of rows of `base_sql`'s result.
pub fn count_sql(base_sql: &str) -> (r: String)
    ensures
        r@ == count_sql_spec(base_sql@),
{
    let mut s = String::new();
    push_str(&mut s, "SELECT COUNT(*) FROM (");
    push_str(&mut s, base_sql);
    push_str(&mut s, ")");
    s
}

} // verus!
