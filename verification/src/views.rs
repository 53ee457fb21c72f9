//! The text that the views show beside the data: the pager, the summary
//! line, the statistics cells and the labels of the row-group table.
use vstd::prelude::*;
use crate::format::{format_count, format_count_spec};
use crate::state::Tab;
use crate::text::{chars_of, dec, dec_int, owned, push_i64, push_str, push_u64, same_text};

verus! {

/// Cell values longer than this many characters get a tooltip.
pub const OVERFLOW_CHAR_THRESHOLD: usize = 20;

/// `Page k of n` for the pager; `Page 0 of 0` while there are no pages.
pub open spec fn page_label_spec(page: nat, total_pages: nat) -> Seq<char> {
    if total_pages == 0 {
        "Page 0 of 0"@
    } else {
        "Page "@ + dec(page + 1) + " of "@ + dec(total_pages)
    }
}

pub fn page_label(page: usize, total_pages: usize) -> (r: String)
    requires
        page < usize::MAX,
    ensures
        r@ == page_label_spec(page as nat, total_pages as nat),
{
    if total_pages == 0 {
        return owned("Page 0 of 0");
    }
    let mut s = owned("Page ");
    push_u64(&mut s, (page + 1) as u64);
    push_str(&mut s, " of ");
    push_u64(&mut s, total_pages as u64);
    s
}

/// Whether the pager's `Prev` button is enabled.
pub fn can_go_prev(page: usize, loading: bool) -> (b: bool)
    ensures
        b == (page > 0 && !loading),
{
    page > 0 && !loading
}

/// Whether the pager's `Next` button is enabled.
pub fn can_go_next(page: usize, total_pages: usize, loading: bool) -> (b: bool)
    ensures
        b == (page + 1 < total_pages && !loading),
{
    page < total_pages && total_pages - page > 1 && !loading
}

pub open spec fn data_summary_spec(total_rows: int, columns: nat, page_size: nat) -> Seq<char> {
    dec_int(total_rows) + " rows \u{b7} "@ + dec(columns) + " columns \u{b7} page size "@ + dec(
        page_size,
    ) + " \u{b7} click any cell to copy"@
}

/// The line above the data grid: rows and columns of the file, and the page
/// size.
pub fn data_summary(total_rows: i64, columns: usize, page_size: usize) -> (r: String)
    ensures
        r@ == data_summary_spec(total_rows as int, columns as nat, page_size as nat),
{
    let mut s = String::new();
    push_i64(&mut s, total_rows);
    push_str(&mut s, " rows \u{b7} ");
    push_u64(&mut s, columns as u64);
    push_str(&mut s, " columns \u{b7} page size ");
    push_u64(&mut s, page_size as u64);
    push_str(&mut s, " \u{b7} click any cell to copy");
    s
}

pub open spec fn stats_status_spec(error: Option<Seq<char>>, loading: bool) -> Option<Seq<char>> {
    match error {
        Some(e) => Some("Distinct counts unavailable: "@ + e),
        None => if loading {
            Some("Computing distinct counts in the background\u{2026}"@)
        } else {
            None
        },
    }
}

/// The note on the column statistics: their error, or that they are still
/// being computed; nothing once they are there.
pub fn stats_status(error: Option<&str>, loading: bool) -> (r: Option<String>)
    ensures
        match r {
            Some(t) => stats_status_spec(
                match error {
                    Some(e) => Some(e@),
                    None => None,
                },
                loading,
            ) == Some(t@),
            None => stats_status_spec(
                match error {
                    Some(e) => Some(e@),
                    None => None,
                },
                loading,
            ) is None,
        },
{
    match error {
        Some(e) => {
            let mut s = owned("Distinct counts unavailable: ");
            push_str(&mut s, e);
            Some(s)
        },
        None => if loading {
            Some(owned("Computing distinct counts in the background\u{2026}"))
        } else {
            None
        },
    }
}

pub open spec fn empty_body_spec(has_batch: bool, loading: bool) -> Seq<char> {
    if has_batch {
        "(no rows on this page)"@
    } else if loading {
        "Loading\u{2026}"@
    } else {
        "No data loaded yet."@
    }
}

/// What the data view shows in place of the grid: a page without rows, a
/// page on its way, or no page yet.
pub fn empty_body(has_batch: bool, loading: bool) -> (r: &'static str)
    ensures
        r@ == empty_body_spec(has_batch, loading),
{
    if has_batch {
        "(no rows on this page)"
    } else if loading {
        "Loading\u{2026}"
    } else {
        "No data loaded yet."
    }
}

/// The number shown beside row `r` of page `page`: rows count from one.
pub fn row_number(page: usize, page_size: usize, r: usize) -> (n: usize)
    requires
        page * page_size + r + 1 <= usize::MAX,
    ensures
        n == page * page_size + r + 1,
{
    page * page_size + r + 1
}

/// Whether a cell's value is long enough to get a tooltip.
pub fn needs_tooltip(value: &str) -> (b: bool)
    ensures
        b == (value@.len() > OVERFLOW_CHAR_THRESHOLD),
{
    chars_of(value).len() > OVERFLOW_CHAR_THRESHOLD
}

/// The three lines of a column's statistics cell.
pub open spec fn stats_lines_spec(distinct: Option<u64>, nulls: Option<i64>, total: i64) -> (
    Seq<char>,
    Seq<char>,
    Seq<char>,
) {
    (
        "distinct "@ + match distinct {
            Some(d) => format_count_spec((d as i64) as int),
            None => "\u{2026}"@,
        },
        "nulls    "@ + match nulls {
            Some(n) => format_count_spec(n as int),
            None => "?"@,
        },
        "total    "@ + format_count_spec(total as int),
    )
}

pub fn stats_lines(distinct: Option<u64>, nulls: Option<i64>, total: i64) -> (r: (
    String,
    String,
    String,
))
    ensures
        (r.0@, r.1@, r.2@) == stats_lines_spec(distinct, nulls, total),
{
    let mut a = owned("distinct ");
    match distinct {
        Some(d) => {
            let t = format_count(d as i64);
            push_str(&mut a, t.as_str());
        },
        None => push_str(&mut a, "\u{2026}"),
    }
    let mut b = owned("nulls    ");
    match nulls {
        Some(n) => {
            let t = format_count(n);
            push_str(&mut b, t.as_str());
        },
        None => push_str(&mut b, "?"),
    }
    let mut c = owned("total    ");
    let t = format_count(total);
    push_str(&mut c, t.as_str());
    (a, b, c)
}

/// A byte count that the file reports as a signed number; negative counts
/// read as zero.
pub fn byte_count(n: i64) -> (r: u64)
    ensures
        r == (if n < 0 {
            0
        } else {
            n
        }),
{
    if n < 0 {
        0
    } else {
        n as u64
    }
}

/// The arrow of a row group's toggle: down when the group is open.
pub fn toggle_label(selected: Option<usize>, i: usize) -> (r: &'static str)
    ensures
        r@ == (if selected == Some(i) {
            "\u{25be}"@
        } else {
            "\u{25b8}"@
        }),
{
    match selected {
        Some(j) => if j == i {
            "\u{25be}"
        } else {
            "\u{25b8}"
        },
        None => "\u{25b8}",
    }
}

/// `Group i`.
pub fn group_label(i: usize) -> (r: String)
    ensures
        r@ == "Group "@ + dec(i as nat),
{
    let mut s = owned("Group ");
    push_u64(&mut s, i as u64);
    s
}

pub open spec fn stats_text_spec(min: Seq<char>, max: Seq<char>, nulls: Option<u64>) -> Seq<char> {
    "min="@ + min + " \u{b7} max="@ + max + " \u{b7} nulls="@ + match nulls {
        Some(n) => dec(n as nat),
        None => "?"@,
    }
}

/// The statistics of a column chunk in one line; `min` and `max` as the
/// chunk's statistics show them.
pub fn stats_text(min: &str, max: &str, nulls: Option<u64>) -> (r: String)
    ensures
        r@ == stats_text_spec(min@, max@, nulls),
{
    let mut s = owned("min=");
    push_str(&mut s, min);
    push_str(&mut s, " \u{b7} max=");
    push_str(&mut s, max);
    push_str(&mut s, " \u{b7} nulls=");
    match nulls {
        Some(n) => push_u64(&mut s, n),
        None => push_str(&mut s, "?"),
    }
    s
}

/// The label of the header's open button.
pub fn open_button_label(loading: bool) -> (r: &'static str)
    ensures
        r@ == (if loading {
            "Loading\u{2026}"@
        } else {
            "Open Parquet\u{2026}"@
        }),
{
    if loading {
        "Loading\u{2026}"
    } else {
        "Open Parquet\u{2026}"
    }
}

/// Whether a tab can be chosen: the overview always, the others once a file
/// is open.
pub fn tab_enabled(has_file: bool, tab: Tab) -> (b: bool)
    ensures
        b == (has_file || tab == Tab::Overview),
{
    has_file || tab == Tab::Overview
}

/// Whether a column's type gets a tooltip with its full description: when
/// that description says more than the compact label and is not a dash.
pub fn needs_type_tooltip(compact: &str, full: &str) -> (b: bool)
    ensures
        b == (compact@ != full@ && full@.len() > 0 && full@ != "\u{2014}"@),
{
    !same_text(compact, full) && chars_of(full).len() > 0 && !same_text(full, "\u{2014}")
}

} // verus!
