use parquet_ui::editor::{Editor, EditorField, EditorKind};
use parquet_ui::state::{Action, App, Message, Tab, DEFAULT_PAGE_SIZE, MAX_PAGE_SIZE};

// File summary, session, page of rows, column insight, column summary, path.
type Viewer = App<String, u32, Vec<u32>, u32, u32>;
type Msg = Message<String, u32, Vec<u32>, u32, u32, String>;

fn step(app: &mut Viewer, m: Msg) -> Vec<Action<String>> {
    assert!(app.well_formed());
    let acts = app.update(m);
    assert!(app.well_formed());
    acts
}

fn loaded(rows: i64) -> Viewer {
    let mut app = Viewer::new();
    step(&mut app, Message::FilePicked(Some("data.parquet".to_string())));
    step(&mut app, Message::FileLoaded(Ok("summary".to_string())));
    step(&mut app, Message::WrangleSessionLoaded(Ok(7)));
    step(&mut app, Message::WrangleRowCountLoaded(Ok(rows)));
    app
}

fn page_request(a: &Action<String>) -> Option<(String, usize, usize)> {
    match a {
        Action::LoadPage { sql, offset, limit } => Some((sql.clone(), *offset, *limit)),
        _ => None,
    }
}

#[test]
fn fresh_viewer() {
    let app = Viewer::new();
    assert!(app.file.is_none());
    assert_eq!(app.tab, Tab::Overview);
    assert_eq!(app.wrangle.page_size, DEFAULT_PAGE_SIZE);
    assert_eq!(app.wrangle.page_size_input, "100");
    assert!(app.wrangle.sql_collapsed);
    assert!(!app.wrangle.sidebar_collapsed);
    assert!(matches!(app.wrangle.editor, Editor::Closed));
    assert_eq!(app.wrangle_total_pages(), 0);
    assert_eq!(app.title("x.parquet"), "Parquet UI");
    assert!(app.well_formed());
}

#[test]
fn tab_labels() {
    assert_eq!(Tab::Overview.label(), "Overview");
    assert_eq!(Tab::RowGroups.label(), "Row Groups");
    assert_eq!(Tab::Data.label(), "Data");
    assert_eq!(Tab::default(), Tab::Overview);
}

#[test]
fn opening_a_file() {
    let mut app = Viewer::new();
    let acts = step(&mut app, Message::OpenFilePressed);
    assert!(matches!(acts.as_slice(), [Action::PickFile]));
    assert!(step(&mut app, Message::FilePicked(None)).is_empty());
    let acts = step(&mut app, Message::FilePicked(Some("a.parquet".to_string())));
    assert!(matches!(acts.as_slice(), [Action::LoadMetadata(p)] if p == "a.parquet"));
    assert!(app.loading);
    let acts = step(&mut app, Message::FileLoaded(Err("bad file".to_string())));
    assert!(acts.is_empty());
    assert!(!app.loading);
    assert_eq!(app.error.as_deref(), Some("bad file"));
    step(&mut app, Message::FilePicked(Some("a.parquet".to_string())));
    assert!(app.error.is_none());
    let acts = step(&mut app, Message::FileLoaded(Ok("meta".to_string())));
    assert!(matches!(acts.as_slice(), [Action::OpenSession]));
    assert!(app.wrangle.session_loading);
    assert_eq!(app.title("a.parquet"), "Parquet UI \u{2014} a.parquet");
}

#[test]
fn session_start_asks_for_counts_and_insights() {
    let mut app = Viewer::new();
    step(&mut app, Message::FileLoaded(Ok("meta".to_string())));
    let acts = step(&mut app, Message::WrangleSessionLoaded(Ok(1)));
    assert!(matches!(acts.as_slice(), [Action::CountRows, Action::ComputeInsights]));
    assert!(app.wrangle.insights_loading);
    let acts = step(&mut app, Message::TabSelected(Tab::Data));
    assert_eq!(acts.len(), 1);
    assert_eq!(page_request(&acts[0]), Some(("SELECT * FROM t".to_string(), 0, 100)));
    assert!(app.wrangle.batch_loading);
    assert!(step(&mut app, Message::TabSelected(Tab::Data)).is_empty());
    step(&mut app, Message::WranglePageLoaded(Ok(vec![1, 2])));
    assert!(!app.wrangle.batch_loading);
    assert_eq!(app.wrangle.batch, Some(vec![1, 2]));
    step(&mut app, Message::WrangleInsightsLoaded(Ok(vec![5, 6])));
    assert_eq!(app.wrangle.insights, vec![5, 6]);
    assert!(!app.wrangle.insights_loading);
}

#[test]
fn session_on_data_tab_loads_a_page() {
    let mut app = Viewer::new();
    step(&mut app, Message::FileLoaded(Ok("meta".to_string())));
    step(&mut app, Message::TabSelected(Tab::Data));
    let acts = step(&mut app, Message::WrangleSessionLoaded(Ok(1)));
    assert_eq!(acts.len(), 3);
    assert_eq!(page_request(&acts[2]), Some(("SELECT * FROM t".to_string(), 0, 100)));
}

#[test]
fn failures_are_recorded() {
    let mut app = loaded(10);
    step(&mut app, Message::WrangleSessionLoaded(Err("no session".to_string())));
    assert_eq!(app.wrangle.session_error.as_deref(), Some("no session"));
    step(&mut app, Message::WrangleInsightsLoaded(Err("no insights".to_string())));
    assert_eq!(app.wrangle.insights_error.as_deref(), Some("no insights"));
    step(&mut app, Message::WrangleRowCountLoaded(Err("no count".to_string())));
    assert_eq!(app.wrangle.session_error.as_deref(), Some("no count"));
    step(&mut app, Message::WranglePageLoaded(Err("no page".to_string())));
    assert_eq!(app.wrangle.session_error.as_deref(), Some("no page"));
    step(&mut app, Message::WrangleDiffBeforeLoaded(Err("no diff".to_string())));
    assert_eq!(app.wrangle.session_error.as_deref(), Some("no diff"));
}

#[test]
fn paging_through_rows() {
    let mut app = loaded(250);
    assert_eq!(app.wrangle_total_pages(), 3);
    assert!(step(&mut app, Message::WranglePrevPage).is_empty());
    let acts = step(&mut app, Message::WrangleNextPage);
    assert_eq!(page_request(&acts[0]), Some(("SELECT * FROM t".to_string(), 100, 100)));
    assert_eq!(acts.len(), 1);
    step(&mut app, Message::WrangleNextPage);
    assert_eq!(app.wrangle.page, 2);
    assert!(step(&mut app, Message::WrangleNextPage).is_empty());
    assert_eq!(app.wrangle.page, 2);
    let acts = step(&mut app, Message::WranglePrevPage);
    assert_eq!(page_request(&acts[0]), Some(("SELECT * FROM t".to_string(), 100, 100)));
    assert_eq!(app.wrangle.page, 1);
}

#[test]
fn next_then_prev_returns_to_the_page() {
    let mut app = loaded(1000);
    let start = app.wrangle.page;
    step(&mut app, Message::WrangleNextPage);
    step(&mut app, Message::WranglePrevPage);
    assert_eq!(app.wrangle.page, start);
}

#[test]
fn total_pages_round_up() {
    for (rows, pages) in [(0i64, 0usize), (-3, 0), (1, 1), (100, 1), (101, 2), (250, 3)] {
        let app = loaded(rows);
        assert_eq!(app.wrangle_total_pages(), pages, "rows {rows}");
    }
}

#[test]
fn page_size_commit() {
    let mut app = loaded(1000);
    step(&mut app, Message::WrangleNextPage);
    step(&mut app, Message::WranglePageSizeInput(" 25 ".to_string()));
    let acts = step(&mut app, Message::WranglePageSizeCommit);
    assert_eq!(app.wrangle.page_size, 25);
    assert_eq!(app.wrangle.page, 0);
    assert_eq!(app.wrangle.page_size_input, "25");
    assert_eq!(page_request(&acts[0]), Some(("SELECT * FROM t".to_string(), 0, 25)));
    step(&mut app, Message::WranglePageSizeInput("abc".to_string()));
    assert!(step(&mut app, Message::WranglePageSizeCommit).is_empty());
    assert_eq!(app.wrangle.page_size_input, "25");
    step(&mut app, Message::WranglePageSizeInput("0".to_string()));
    step(&mut app, Message::WranglePageSizeCommit);
    assert_eq!(app.wrangle.page_size, 1);
    assert_eq!(app.wrangle.page_size_input, "1");
    step(&mut app, Message::WranglePageSizeInput("99999999".to_string()));
    step(&mut app, Message::WranglePageSizeCommit);
    assert_eq!(app.wrangle.page_size, MAX_PAGE_SIZE);
    assert_eq!(app.wrangle.page_size_input, "100000");
    step(&mut app, Message::WranglePageSizeInput("100000".to_string()));
    assert!(step(&mut app, Message::WranglePageSizeCommit).is_empty());
}

#[test]
fn toggles_undo_themselves() {
    let mut app = loaded(10);
    step(&mut app, Message::RowGroupToggled(3));
    assert_eq!(app.selected_row_group, Some(3));
    step(&mut app, Message::RowGroupToggled(3));
    assert_eq!(app.selected_row_group, None);
    step(&mut app, Message::RowGroupToggled(1));
    step(&mut app, Message::RowGroupToggled(2));
    assert_eq!(app.selected_row_group, Some(2));
    let sql = app.wrangle.sql_collapsed;
    step(&mut app, Message::WrangleSqlToggle);
    step(&mut app, Message::WrangleSqlToggle);
    assert_eq!(app.wrangle.sql_collapsed, sql);
    step(&mut app, Message::WrangleSidebarToggle);
    assert!(app.wrangle.sidebar_collapsed);
    step(&mut app, Message::WrangleSidebarToggle);
    assert!(!app.wrangle.sidebar_collapsed);
}

#[test]
fn column_summary_flow() {
    let mut app = loaded(10);
    let acts = step(&mut app, Message::WrangleColumnSelected(2));
    assert!(matches!(acts.as_slice(), [Action::ComputeSummary { column: 2 }]));
    assert!(app.wrangle.summary_loading);
    assert!(step(&mut app, Message::WrangleSummaryLoaded(1, Ok(99))).is_empty());
    assert!(app.wrangle.summary.is_none());
    assert!(app.wrangle.summary_loading);
    step(&mut app, Message::WrangleSummaryLoaded(2, Ok(5)));
    assert_eq!(app.wrangle.summary, Some(5));
    assert!(!app.wrangle.summary_loading);
    step(&mut app, Message::WrangleColumnSelected(2));
    assert!(app.wrangle.selected_column.is_none());
    assert!(app.wrangle.summary.is_none());
    step(&mut app, Message::WrangleColumnSelected(4));
    step(&mut app, Message::WrangleSummaryLoaded(4, Err("boom".to_string())));
    assert_eq!(app.wrangle.summary_error.as_deref(), Some("boom"));
}

#[test]
fn column_selection_needs_a_session() {
    let mut app = Viewer::new();
    assert!(step(&mut app, Message::WrangleColumnSelected(0)).is_empty());
    assert!(app.wrangle.selected_column.is_none());
}

fn count_request(a: &Action<String>) -> Option<String> {
    match a {
        Action::CountSql { sql } => Some(sql.clone()),
        _ => None,
    }
}

#[test]
fn editing_the_pipeline() {
    let mut app = loaded(500);
    step(&mut app, Message::WrangleNextPage);
    step(&mut app, Message::WrangleEditorOpen(EditorKind::Filter));
    step(&mut app, Message::WrangleEditorText(EditorField::Predicate, "a > 1".to_string()));
    let acts = step(&mut app, Message::WrangleEditorCommit);
    let sql = "SELECT * FROM (SELECT * FROM t) WHERE a > 1".to_string();
    assert_eq!(acts.len(), 2);
    assert_eq!(page_request(&acts[0]), Some((sql.clone(), 0, 100)));
    assert_eq!(count_request(&acts[1]), Some(sql.clone()));
    assert_eq!(app.wrangle.page, 0);
    assert!(matches!(app.wrangle.editor, Editor::Closed));
    assert_eq!(app.wrangle.pipeline.steps.len(), 1);

    step(&mut app, Message::WrangleEditorOpen(EditorKind::Lowercase));
    let acts = step(&mut app, Message::WrangleEditorCommit);
    assert!(acts.is_empty());
    assert!(matches!(app.wrangle.editor, Editor::Closed));
    assert_eq!(app.wrangle.pipeline.steps.len(), 1);

    step(&mut app, Message::WrangleEditorOpen(EditorKind::Sort));
    step(&mut app, Message::WrangleEditorText(EditorField::Column, "b".to_string()));
    step(&mut app, Message::WrangleEditorBool(EditorField::Descending, true));
    step(&mut app, Message::WrangleEditorCommit);
    assert_eq!(app.wrangle.pipeline.steps.len(), 2);
    step(&mut app, Message::WrangleStepMoveUp(1));
    assert_eq!(app.wrangle.pipeline.steps[0].description(), "Sort by b DESC NULLS LAST");
    step(&mut app, Message::WrangleStepMoveDown(0));
    assert_eq!(app.wrangle.pipeline.steps[0].description(), "Filter rows where a > 1");
    let acts = step(&mut app, Message::WrangleStepDelete(0));
    assert_eq!(app.wrangle.pipeline.steps.len(), 1);
    assert_eq!(count_request(&acts[1]), Some("SELECT * FROM (SELECT * FROM t) ORDER BY \"b\" DESC NULLS LAST".to_string()));
    let acts = step(&mut app, Message::WranglePipelineClear);
    assert!(app.wrangle.pipeline.steps.is_empty());
    assert_eq!(count_request(&acts[1]), Some("SELECT * FROM t".to_string()));
    step(&mut app, Message::WrangleEditorOpen(EditorKind::GroupByAggregate));
    step(&mut app, Message::WrangleEditorAggFn(parquet_ui::wrangle::pipeline::AggFn::Max));
    assert!(matches!(app.wrangle.editor, Editor::GroupByAggregate { agg_fn: parquet_ui::wrangle::pipeline::AggFn::Max, .. }));
    step(&mut app, Message::WrangleEditorCancel);
    assert!(matches!(app.wrangle.editor, Editor::Closed));
}

fn with_steps(n: usize) -> Viewer {
    let mut app = loaded(500);
    for i in 0..n {
        step(&mut app, Message::WrangleEditorOpen(EditorKind::Filter));
        step(&mut app, Message::WrangleEditorText(EditorField::Predicate, format!("c{i}")));
        step(&mut app, Message::WrangleEditorCommit);
    }
    app
}

#[test]
fn selecting_a_step_shows_its_output_and_the_one_before() {
    let mut app = with_steps(2);
    let acts = step(&mut app, Message::WrangleStepSelect(Some(0)));
    let first = "SELECT * FROM (SELECT * FROM t) WHERE c0".to_string();
    assert_eq!(acts.len(), 3);
    assert_eq!(page_request(&acts[0]), Some((first.clone(), 0, 100)));
    assert_eq!(count_request(&acts[1]), Some(first.clone()));
    assert!(matches!(&acts[2], Action::LoadDiffBefore { sql, offset: 0, limit: 100 } if sql == "SELECT * FROM t"));
    assert!(app.wrangle.diff_loading);
    step(&mut app, Message::WrangleDiffBeforeLoaded(Ok(vec![9])));
    assert_eq!(app.wrangle.diff_before, Some(vec![9]));
    let acts = step(&mut app, Message::WrangleNextPage);
    assert!(matches!(&acts[1], Action::LoadDiffBefore { offset: 100, .. }));
    let acts = step(&mut app, Message::WrangleStepSelect(Some(0)));
    assert_eq!(acts.len(), 2);
    assert!(app.wrangle.selected_step.is_none());
    assert!(app.wrangle.diff_before.is_none());
    assert_eq!(app.wrangle.page, 0);
    let acts = step(&mut app, Message::WrangleStepSelect(Some(7)));
    let all = "SELECT * FROM (SELECT * FROM (SELECT * FROM t) WHERE c0) WHERE c1".to_string();
    assert_eq!(count_request(&acts[1]), Some(all.clone()));
    assert!(matches!(&acts[2], Action::LoadDiffBefore { sql, .. } if *sql == all));
}

#[test]
fn exporting() {
    let mut app = Viewer::new();
    assert!(step(&mut app, Message::WrangleExportPressed).is_empty());
    let mut app = with_steps(1);
    let acts = step(&mut app, Message::WrangleExportPressed);
    assert!(matches!(acts.as_slice(), [Action::PickExportPath]));
    assert!(step(&mut app, Message::WrangleExportPathPicked(None)).is_empty());
    let acts = step(
        &mut app,
        Message::WrangleExportPathPicked(Some(("out.csv".to_string(), "/tmp/out.csv".to_string()))),
    );
    assert!(matches!(&acts[0], Action::Export { sql, path } if sql == "SELECT * FROM (SELECT * FROM t) WHERE c0" && path == "out.csv"));
    assert!(app.wrangle.export_in_progress);
    assert_eq!(app.wrangle.export_status.as_deref(), Some("Writing /tmp/out.csv\u{2026}"));
    step(&mut app, Message::WrangleExportCompleted(Ok("/tmp/out.csv".to_string())));
    assert!(!app.wrangle.export_in_progress);
    assert_eq!(app.wrangle.export_status.as_deref(), Some("Exported to /tmp/out.csv"));
    step(&mut app, Message::WrangleExportCompleted(Err("disk full".to_string())));
    assert_eq!(app.wrangle.export_status.as_deref(), Some("Export failed: disk full"));
}

#[test]
fn copying_a_cell() {
    let mut app = Viewer::new();
    let acts = step(&mut app, Message::CopyCell("short".to_string()));
    assert!(matches!(acts.as_slice(), [Action::CopyToClipboard(v), Action::ClearCopyNoticeLater] if v == "short"));
    assert_eq!(app.copy_notice.as_deref(), Some("Copied: short"));
    let long: String = "é".repeat(61);
    step(&mut app, Message::CopyCell(long.clone()));
    assert_eq!(app.copy_notice, Some(format!("Copied: {}\u{2026}", "é".repeat(57))));
    let sixty: String = "x".repeat(60);
    step(&mut app, Message::CopyCell(sixty.clone()));
    assert_eq!(app.copy_notice, Some(format!("Copied: {sixty}")));
    step(&mut app, Message::ClearCopyNotice);
    assert!(app.copy_notice.is_none());
}

#[test]
fn a_new_file_starts_clean() {
    let mut app = with_steps(2);
    step(&mut app, Message::WrangleColumnSelected(1));
    step(&mut app, Message::WrangleStepSelect(Some(1)));
    step(&mut app, Message::RowGroupToggled(0));
    let acts = step(&mut app, Message::FileLoaded(Ok("other".to_string())));
    assert!(matches!(acts.as_slice(), [Action::OpenSession]));
    assert_eq!(app.file.as_deref(), Some("other"));
    assert!(app.wrangle.session.is_none());
    assert!(app.wrangle.pipeline.steps.is_empty());
    assert!(app.wrangle.selected_column.is_none());
    assert!(app.wrangle.selected_step.is_none());
    assert!(app.selected_row_group.is_none());
    assert!(app.wrangle.total_rows.is_none());
    assert_eq!(app.wrangle.page, 0);
}
