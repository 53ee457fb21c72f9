use parquet_ui::state::Tab;
use parquet_ui::views::{
    byte_count, can_go_next, can_go_prev, data_summary, empty_body, group_label, needs_tooltip,
    needs_type_tooltip,
    open_button_label, page_label, row_number, stats_lines, stats_status, stats_text,
    tab_enabled, toggle_label,
};

#[test]
fn pager_labels_and_buttons() {
    assert_eq!(page_label(0, 0), "Page 0 of 0");
    assert_eq!(page_label(0, 3), "Page 1 of 3");
    assert_eq!(page_label(2, 3), "Page 3 of 3");
    assert!(!can_go_prev(0, false));
    assert!(can_go_prev(1, false));
    assert!(!can_go_prev(1, true));
    assert!(can_go_next(0, 2, false));
    assert!(!can_go_next(1, 2, false));
    assert!(!can_go_next(0, 2, true));
    assert!(!can_go_next(5, 2, false));
    assert!(!can_go_next(0, 0, false));
}

#[test]
fn data_summary_line() {
    assert_eq!(
        data_summary(1234, 5, 100),
        "1234 rows \u{b7} 5 columns \u{b7} page size 100 \u{b7} click any cell to copy"
    );
    assert_eq!(
        data_summary(-1, 0, 1),
        "-1 rows \u{b7} 0 columns \u{b7} page size 1 \u{b7} click any cell to copy"
    );
}

#[test]
fn statistics_notes() {
    assert_eq!(stats_status(Some("x"), true).as_deref(), Some("Distinct counts unavailable: x"));
    assert_eq!(
        stats_status(None, true).as_deref(),
        Some("Computing distinct counts in the background\u{2026}")
    );
    assert_eq!(stats_status(None, false), None);
    assert_eq!(empty_body(true, true), "(no rows on this page)");
    assert_eq!(empty_body(false, true), "Loading\u{2026}");
    assert_eq!(empty_body(false, false), "No data loaded yet.");
}

#[test]
fn statistics_cells() {
    let (a, b, c) = stats_lines(Some(12345), Some(-3), 1000000);
    assert_eq!(a, "distinct 12,345");
    assert_eq!(b, "nulls    -3");
    assert_eq!(c, "total    1,000,000");
    let (a, b, _) = stats_lines(None, None, 0);
    assert_eq!(a, "distinct \u{2026}");
    assert_eq!(b, "nulls    ?");
    let (a, _, _) = stats_lines(Some(u64::MAX), None, 0);
    assert_eq!(a, "distinct -1");
    assert_eq!(stats_text("1", "9", Some(4)), "min=1 \u{b7} max=9 \u{b7} nulls=4");
    assert_eq!(stats_text("\u{2014}", "\u{2014}", None), "min=\u{2014} \u{b7} max=\u{2014} \u{b7} nulls=?");
}

#[test]
fn grid_cells() {
    assert_eq!(row_number(0, 100, 0), 1);
    assert_eq!(row_number(2, 100, 4), 205);
    assert!(!needs_tooltip(&"x".repeat(20)));
    assert!(needs_tooltip(&"x".repeat(21)));
    assert!(!needs_tooltip(&"é".repeat(20)));
}

#[test]
fn row_group_labels() {
    assert_eq!(byte_count(-5), 0);
    assert_eq!(byte_count(77), 77);
    assert_eq!(toggle_label(Some(2), 2), "\u{25be}");
    assert_eq!(toggle_label(Some(1), 2), "\u{25b8}");
    assert_eq!(toggle_label(None, 0), "\u{25b8}");
    assert_eq!(group_label(12), "Group 12");
}

#[test]
fn header_and_tabs() {
    assert_eq!(open_button_label(false), "Open Parquet\u{2026}");
    assert_eq!(open_button_label(true), "Loading\u{2026}");
    assert!(tab_enabled(false, Tab::Overview));
    assert!(!tab_enabled(false, Tab::Data));
    assert!(tab_enabled(true, Tab::RowGroups));
}

#[test]
fn type_tooltips_only_when_they_add_something() {
    assert!(!needs_type_tooltip("Int32", "Int32"));
    assert!(needs_type_tooltip("Struct{a: Int8}", "Struct {\n  a: Int8\n}"));
    assert!(!needs_type_tooltip("x", ""));
    assert!(!needs_type_tooltip("x", "\u{2014}"));
}
