//! The viewer's state and how each message changes it.
//!
//! The state machine is pure: `App::update` takes a message, changes the
//! state and returns the work to do next (open a dialog, load a page, run a
//! query). The caller performs that work and hands its outcome back as
//! another message. The values that only the caller can produce and read (the
//! file's metadata, the query session, record batches, column statistics)
//! are carried through as opaque type parameters.
use vstd::prelude::*;
use crate::editor::{
    default_spec, into_step_spec, set_agg_fn_spec, set_bool_spec, set_text_spec, step_option_view,
    Editor, EditorField, EditorKind, EditorModel,
};
use crate::text::{chars_of, dec, owned, parse_int, parse_usize_trimmed, push_char, push_range, push_str, push_u64, trim};
use crate::wrangle::pipeline::{chain_sql, swap_adjacent, AggFn, Pipeline, Step, StepModel};

verus! {

/// Rows per page of a fresh state.
pub const DEFAULT_PAGE_SIZE: usize = 100;

/// The largest page size that a committed input is clamped to.
pub const MAX_PAGE_SIZE: usize = 100000;

/// Characters of a copied value that the notice shows in full.
pub const COPY_PREVIEW_LIMIT: usize = 60;

/// Characters kept when a copied value is shortened for the notice.
pub const COPY_PREVIEW_KEEP: usize = 57;

/// The top-level tabs.
#[derive(Debug, Clone, Copy, PartialEq, Eq, Structural)]
pub enum Tab {
    Overview,
    RowGroups,
    Data,
}

impl Default for Tab {
    fn default() -> (t: Tab)
        ensures
            t == Tab::Overview,
    {
        Tab::Overview
    }
}

pub open spec fn tab_label_spec(t: Tab) -> Seq<char> {
    match t {
        Tab::Overview => "Overview"@,
        Tab::RowGroups => "Row Groups"@,
        Tab::Data => "Data"@,
    }
}

impl Tab {
    /// The caption of the tab's button.
    pub fn label(self) -> (r: &'static str)
        ensures
            r@ == tab_label_spec(self),
    {
        match self {
            Tab::Overview => "Overview",
            Tab::RowGroups => "Row Groups",
            Tab::Data => "Data",
        }
    }
}

/// State of the data-wrangling view.
///
/// `S` is an open query session, `B` a page of rows, `I` the insight computed
/// for one column, `C` the summary of one selected column.
#[derive(Debug)]
pub struct WrangleState<S, B, I, C> {
    pub session: Option<S>,
    pub session_loading: bool,
    pub session_error: Option<String>,
    pub page: usize,
    pub page_size: usize,
    pub page_size_input: String,
    pub batch: Option<B>,
    pub batch_loading: bool,
    pub total_rows: Option<i64>,
    pub insights: Vec<I>,
    pub insights_loading: bool,
    pub insights_error: Option<String>,
    pub selected_column: Option<usize>,
    pub summary: Option<C>,
    pub summary_loading: bool,
    pub summary_error: Option<String>,
    pub pipeline: Pipeline,
    pub editor: Editor,
    /// The step whose output is shown, with the output before it for
    /// comparison; `None` shows the whole pipeline's output.
    pub selected_step: Option<usize>,
    pub diff_before: Option<B>,
    pub diff_loading: bool,
    pub export_in_progress: bool,
    pub export_status: Option<String>,
    pub sql_collapsed: bool,
    pub sidebar_collapsed: bool,
}

/// The whole state of the viewer; `F` is the summary of an open file.
#[derive(Debug)]
pub struct App<F, S, B, I, C> {
    pub file: Option<F>,
    pub tab: Tab,
    pub error: Option<String>,
    pub loading: bool,
    pub selected_row_group: Option<usize>,
    pub wrangle: WrangleState<S, B, I, C>,
    pub copy_notice: Option<String>,
}

#[verifier::ext_equal]
pub struct WrangleModel<S, B, I, C> {
    pub session: Option<S>,
    pub session_loading: bool,
    pub session_error: Option<Seq<char>>,
    pub page: usize,
    pub page_size: usize,
    pub page_size_input: Seq<char>,
    pub batch: Option<B>,
    pub batch_loading: bool,
    pub total_rows: Option<i64>,
    pub insights: Seq<I>,
    pub insights_loading: bool,
    pub insights_error: Option<Seq<char>>,
    pub selected_column: Option<usize>,
    pub summary: Option<C>,
    pub summary_loading: bool,
    pub summary_error: Option<Seq<char>>,
    pub pipeline: Seq<StepModel>,
    pub editor: EditorModel,
    pub selected_step: Option<usize>,
    pub diff_before: Option<B>,
    pub diff_loading: bool,
    pub export_in_progress: bool,
    pub export_status: Option<Seq<char>>,
    pub sql_collapsed: bool,
    pub sidebar_collapsed: bool,
}

#[verifier::ext_equal]
pub struct AppModel<F, S, B, I, C> {
    pub file: Option<F>,
    pub tab: Tab,
    pub error: Option<Seq<char>>,
    pub loading: bool,
    pub selected_row_group: Option<usize>,
    pub wrangle: WrangleModel<S, B, I, C>,
    pub copy_notice: Option<Seq<char>>,
}

pub open spec fn opt_text(o: Option<String>) -> Option<Seq<char>> {
    match o {
        Some(s) => Some(s@),
        None => None,
    }
}

impl<S, B, I, C> View for WrangleState<S, B, I, C> {
    type V = WrangleModel<S, B, I, C>;

    open spec fn view(&self) -> WrangleModel<S, B, I, C> {
        WrangleModel {
            session: self.session,
            session_loading: self.session_loading,
            session_error: opt_text(self.session_error),
            page: self.page,
            page_size: self.page_size,
            page_size_input: self.page_size_input@,
            batch: self.batch,
            batch_loading: self.batch_loading,
            total_rows: self.total_rows,
            insights: self.insights@,
            insights_loading: self.insights_loading,
            insights_error: opt_text(self.insights_error),
            selected_column: self.selected_column,
            summary: self.summary,
            summary_loading: self.summary_loading,
            summary_error: opt_text(self.summary_error),
            pipeline: self.pipeline@,
            editor: self.editor@,
            selected_step: self.selected_step,
            diff_before: self.diff_before,
            diff_loading: self.diff_loading,
            export_in_progress: self.export_in_progress,
            export_status: opt_text(self.export_status),
            sql_collapsed: self.sql_collapsed,
            sidebar_collapsed: self.sidebar_collapsed,
        }
    }
}

impl<F, S, B, I, C> View for App<F, S, B, I, C> {
    type V = AppModel<F, S, B, I, C>;

    open spec fn view(&self) -> AppModel<F, S, B, I, C> {
        AppModel {
            file: self.file,
            tab: self.tab,
            error: opt_text(self.error),
            loading: self.loading,
            selected_row_group: self.selected_row_group,
            wrangle: self.wrangle@,
            copy_notice: opt_text(self.copy_notice),
        }
    }
}

/// What can happen: a user's action, or the outcome of work that an earlier
/// update asked for. `P` is a file path.
#[derive(Debug)]
pub enum Message<F, S, B, I, C, P> {
    OpenFilePressed,
    FilePicked(Option<P>),
    FileLoaded(Result<F, String>),
    TabSelected(Tab),
    RowGroupToggled(usize),
    WrangleSessionLoaded(Result<S, String>),
    WrangleRowCountLoaded(Result<i64, String>),
    WranglePageLoaded(Result<B, String>),
    WrangleInsightsLoaded(Result<Vec<I>, String>),
    WrangleColumnSelected(usize),
    WrangleSummaryLoaded(usize, Result<C, String>),
    WrangleEditorOpen(EditorKind),
    WrangleEditorCancel,
    WrangleEditorText(EditorField, String),
    WrangleEditorBool(EditorField, bool),
    WrangleEditorAggFn(AggFn),
    WrangleEditorCommit,
    WrangleStepDelete(usize),
    WrangleStepMoveUp(usize),
    WrangleStepMoveDown(usize),
    WrangleStepSelect(Option<usize>),
    WrangleDiffBeforeLoaded(Result<B, String>),
    WranglePipelineClear,
    WrangleExportPressed,
    /// The destination picked for an export, with the text that shows it.
    WrangleExportPathPicked(Option<(P, String)>),
    /// The outcome of an export: the text that shows the destination, or the
    /// error.
    WrangleExportCompleted(Result<String, String>),
    WrangleSqlToggle,
    WrangleSidebarToggle,
    WrangleNextPage,
    WranglePrevPage,
    WranglePageSizeInput(String),
    WranglePageSizeCommit,
    CopyCell(String),
    ClearCopyNotice,
}

/// Work that an update asks the caller to do; each one ends in a message.
#[derive(Debug)]
pub enum Action<P> {
    /// Show the dialog to pick a Parquet file; ends in `FilePicked`.
    PickFile,
    /// Read a file's metadata; ends in `FileLoaded`.
    LoadMetadata(P),
    /// Open a query session on the file just loaded; ends in
    /// `WrangleSessionLoaded`.
    OpenSession,
    /// Count the rows of the table; ends in `WrangleRowCountLoaded`.
    CountRows,
    /// Compute the insight of every column; ends in `WrangleInsightsLoaded`.
    ComputeInsights,
    /// Fetch one page of a query's rows; ends in `WranglePageLoaded`.
    LoadPage { sql: String, offset: usize, limit: usize },
    /// Count the rows of a query; ends in `WrangleRowCountLoaded`.
    CountSql { sql: String },
    /// Summarise one column; ends in `WrangleSummaryLoaded`.
    ComputeSummary { column: usize },
    /// Fetch the page of the query before the selected step; ends in
    /// `WrangleDiffBeforeLoaded`.
    LoadDiffBefore { sql: String, offset: usize, limit: usize },
    /// Show the dialog to pick an export destination; ends in
    /// `WrangleExportPathPicked`.
    PickExportPath,
    /// Write a query's rows to a file; ends in `WrangleExportCompleted`.
    Export { sql: String, path: P },
    /// Put a value on the clipboard.
    CopyToClipboard(String),
    /// Wait a moment, then send `ClearCopyNotice`.
    ClearCopyNoticeLater,
}

pub enum ActionModel<P> {
    PickFile,
    LoadMetadata(P),
    OpenSession,
    CountRows,
    ComputeInsights,
    LoadPage { sql: Seq<char>, offset: usize, limit: usize },
    CountSql { sql: Seq<char> },
    ComputeSummary { column: usize },
    LoadDiffBefore { sql: Seq<char>, offset: usize, limit: usize },
    PickExportPath,
    Export { sql: Seq<char>, path: P },
    CopyToClipboard(Seq<char>),
    ClearCopyNoticeLater,
}

impl<P> View for Action<P> {
    type V = ActionModel<P>;

    open spec fn view(&self) -> ActionModel<P> {
        match self {
            Action::PickFile => ActionModel::PickFile,
            Action::LoadMetadata(p) => ActionModel::LoadMetadata(*p),
            Action::OpenSession => ActionModel::OpenSession,
            Action::CountRows => ActionModel::CountRows,
            Action::ComputeInsights => ActionModel::ComputeInsights,
            Action::LoadPage { sql, offset, limit } => ActionModel::LoadPage {
                sql: sql@,
                offset: *offset,
                limit: *limit,
            },
            Action::CountSql { sql } => ActionModel::CountSql { sql: sql@ },
            Action::ComputeSummary { column } => ActionModel::ComputeSummary { column: *column },
            Action::LoadDiffBefore { sql, offset, limit } => ActionModel::LoadDiffBefore {
                sql: sql@,
                offset: *offset,
                limit: *limit,
            },
            Action::PickExportPath => ActionModel::PickExportPath,
            Action::Export { sql, path } => ActionModel::Export { sql: sql@, path: *path },
            Action::CopyToClipboard(v) => ActionModel::CopyToClipboard(v@),
            Action::ClearCopyNoticeLater => ActionModel::ClearCopyNoticeLater,
        }
    }
}

pub open spec fn actions_view<P>(a: Seq<Action<P>>) -> Seq<ActionModel<P>> {
    a.map_values(|x: Action<P>| x@)
}

// ---------------------------------------------------------------------------
// The transition, as a specification
// ---------------------------------------------------------------------------

/// What every state that `new` and `update` produce satisfies: a page size
/// between one and `MAX_PAGE_SIZE`, and a page whose first row has an offset
/// that fits a `usize`.
pub open spec fn wf<F, S, B, I, C>(s: AppModel<F, S, B, I, C>) -> bool {
    &&& 1 <= s.wrangle.page_size <= MAX_PAGE_SIZE
    &&& s.wrangle.page * s.wrangle.page_size < usize::MAX
}

/// The state of a fresh viewer.
pub open spec fn initial_spec<F, S, B, I, C>() -> AppModel<F, S, B, I, C> {
    AppModel {
        file: None,
        tab: Tab::Overview,
        error: None,
        loading: false,
        selected_row_group: None,
        wrangle: WrangleModel {
            session: None,
            session_loading: false,
            session_error: None,
            page: 0,
            page_size: DEFAULT_PAGE_SIZE,
            page_size_input: dec(DEFAULT_PAGE_SIZE as nat),
            batch: None,
            batch_loading: false,
            total_rows: None,
            insights: Seq::empty(),
            insights_loading: false,
            insights_error: None,
            selected_column: None,
            summary: None,
            summary_loading: false,
            summary_error: None,
            pipeline: Seq::empty(),
            editor: EditorModel::Closed,
            selected_step: None,
            diff_before: None,
            diff_loading: false,
            export_in_progress: false,
            export_status: None,
            sql_collapsed: true,
            sidebar_collapsed: false,
        },
        copy_notice: None,
    }
}

/// `t` divided by `p`, rounded up.
pub open spec fn div_ceil_spec(t: nat, p: nat) -> nat
    recommends
        p > 0,
{
    ((t + p - 1) / (p as int)) as nat
}

/// How many pages the counted rows fill; none while the count is unknown.
pub open spec fn total_pages_spec(total_rows: Option<i64>, page_size: usize) -> nat {
    match total_rows {
        None => 0,
        Some(n) => {
            let t = (if n < 0 {
                0
            } else {
                n
            }) as usize;
            if t == 0 {
                0
            } else {
                div_ceil_spec(
                    t as nat,
                    if page_size < 1 {
                        1
                    } else {
                        page_size as nat
                    },
                )
            }
        },
    }
}

/// The query whose rows the data view shows: the pipeline up to and including
/// the selected step, or all of it.
pub open spec fn current_sql_spec<S, B, I, C>(w: WrangleModel<S, B, I, C>) -> Seq<char> {
    let n = w.pipeline.len();
    match w.selected_step {
        Some(i) => chain_sql(w.pipeline, if i + 1 < n { (i + 1) as nat } else { n }),
        None => chain_sql(w.pipeline, n),
    }
}

/// Asks for the current page of the current query, when a session is open.
pub open spec fn page_load_spec<S, B, I, C, P>(w: WrangleModel<S, B, I, C>) -> (
    WrangleModel<S, B, I, C>,
    Seq<ActionModel<P>>,
) {
    if w.session is None {
        (w, Seq::empty())
    } else {
        (
            WrangleModel { batch_loading: true, ..w },
            seq![
                ActionModel::LoadPage {
                    sql: current_sql_spec(w),
                    offset: (w.page * w.page_size) as usize,
                    limit: w.page_size,
                },
            ],
        )
    }
}

/// Asks for the row count of the current query, when a session is open.
pub open spec fn recount_spec<S, B, I, C, P>(w: WrangleModel<S, B, I, C>) -> Seq<ActionModel<P>> {
    if w.session is None {
        Seq::empty()
    } else {
        seq![ActionModel::CountSql { sql: current_sql_spec(w) }]
    }
}

/// Asks for the current page of the query before the selected step, when a
/// session is open and a step is selected.
pub open spec fn diff_before_spec<S, B, I, C, P>(w: WrangleModel<S, B, I, C>) -> (
    WrangleModel<S, B, I, C>,
    Seq<ActionModel<P>>,
) {
    if w.session is None {
        (w, Seq::empty())
    } else {
        match w.selected_step {
            None => (WrangleModel { diff_before: None, ..w }, Seq::empty()),
            Some(k) => (
                WrangleModel { diff_loading: true, ..w },
                seq![
                    ActionModel::LoadDiffBefore {
                        sql: chain_sql(
                            w.pipeline,
                            if k < w.pipeline.len() {
                                k as nat
                            } else {
                                w.pipeline.len()
                            },
                        ),
                        offset: (w.page * w.page_size) as usize,
                        limit: w.page_size,
                    },
                ],
            ),
        }
    }
}

/// After the pipeline changed: back to the first page of the whole
/// pipeline's output, and ask for that page and the new row count.
pub open spec fn refresh_spec<S, B, I, C, P>(w: WrangleModel<S, B, I, C>) -> (
    WrangleModel<S, B, I, C>,
    Seq<ActionModel<P>>,
) {
    let w1 = WrangleModel {
        page: 0,
        selected_step: None,
        diff_before: None,
        diff_loading: false,
        ..w
    };
    let (w2, a) = page_load_spec::<S, B, I, C, P>(w1);
    (w2, a + recount_spec::<S, B, I, C, P>(w2))
}

/// The wrangle state of a file that has just been opened: everything derived
/// from the previous file is dropped and a session is on its way.
pub open spec fn fresh_wrangle_spec<S, B, I, C>(w: WrangleModel<S, B, I, C>) -> WrangleModel<
    S,
    B,
    I,
    C,
> {
    WrangleModel {
        session: None,
        session_error: None,
        session_loading: true,
        page: 0,
        batch: None,
        total_rows: None,
        insights: Seq::empty(),
        insights_loading: false,
        insights_error: None,
        selected_column: None,
        summary: None,
        summary_loading: false,
        summary_error: None,
        pipeline: Seq::empty(),
        editor: EditorModel::Closed,
        selected_step: None,
        diff_before: None,
        diff_loading: false,
        ..w
    }
}

/// A committed page size: at least one and at most `MAX_PAGE_SIZE`.
pub open spec fn clamp_page_size(n: int) -> usize {
    if n < 1 {
        1
    } else if n > MAX_PAGE_SIZE {
        MAX_PAGE_SIZE
    } else {
        n as usize
    }
}

/// A copied value as the notice shows it: in full up to `COPY_PREVIEW_LIMIT`
/// characters, otherwise its first `COPY_PREVIEW_KEEP` and an ellipsis.
pub open spec fn copy_preview_spec(v: Seq<char>) -> Seq<char> {
    if v.len() > COPY_PREVIEW_LIMIT {
        v.take(COPY_PREVIEW_KEEP as int).push('\u{2026}')
    } else {
        v
    }
}

pub open spec fn with_wrangle<F, S, B, I, C, P>(
    s: AppModel<F, S, B, I, C>,
    r: (WrangleModel<S, B, I, C>, Seq<ActionModel<P>>),
) -> (AppModel<F, S, B, I, C>, Seq<ActionModel<P>>) {
    (AppModel { wrangle: r.0, ..s }, r.1)
}

/// The state after a message, and the work it asks for.
#[verifier::opaque]
pub open spec fn update_spec<F, S, B, I, C, P>(
    s: AppModel<F, S, B, I, C>,
    m: Message<F, S, B, I, C, P>,
) -> (AppModel<F, S, B, I, C>, Seq<ActionModel<P>>) {
    let w = s.wrangle;
    let none = Seq::<ActionModel<P>>::empty();
    match m {
        Message::OpenFilePressed => (s, seq![ActionModel::PickFile]),
        Message::FilePicked(None) => (s, none),
        Message::FilePicked(Some(p)) => (
            AppModel { loading: true, error: None, ..s },
            seq![ActionModel::LoadMetadata(p)],
        ),
        Message::FileLoaded(Ok(f)) => (
            AppModel {
                loading: false,
                file: Some(f),
                selected_row_group: None,
                wrangle: fresh_wrangle_spec(w),
                ..s
            },
            seq![ActionModel::OpenSession],
        ),
        Message::FileLoaded(Err(e)) => (AppModel { loading: false, error: Some(e@), ..s }, none),
        Message::TabSelected(t) => {
            let s1 = AppModel { tab: t, ..s };
            if t == Tab::Data && w.batch is None && w.session is Some && !w.batch_loading {
                with_wrangle(s1, page_load_spec::<S, B, I, C, P>(w))
            } else {
                (s1, none)
            }
        },
        Message::RowGroupToggled(i) => (
            AppModel {
                selected_row_group: if s.selected_row_group == Some(i) {
                    None
                } else {
                    Some(i)
                },
                ..s
            },
            none,
        ),
        Message::WrangleSessionLoaded(Ok(session)) => {
            let w1 = WrangleModel {
                session_loading: false,
                session: Some(session),
                insights_loading: true,
                insights_error: None,
                ..w
            };
            let first = seq![ActionModel::CountRows, ActionModel::ComputeInsights];
            if s.tab == Tab::Data {
                let (w2, a) = page_load_spec::<S, B, I, C, P>(w1);
                (AppModel { wrangle: w2, ..s }, first + a)
            } else {
                (AppModel { wrangle: w1, ..s }, first)
            }
        },
        Message::WrangleSessionLoaded(Err(e)) => (
            AppModel {
                wrangle: WrangleModel { session_loading: false, session_error: Some(e@), ..w },
                ..s
            },
            none,
        ),
        Message::WrangleRowCountLoaded(Ok(n)) => (
            AppModel { wrangle: WrangleModel { total_rows: Some(n), ..w }, ..s },
            none,
        ),
        Message::WrangleRowCountLoaded(Err(e)) => (
            AppModel { wrangle: WrangleModel { session_error: Some(e@), ..w }, ..s },
            none,
        ),
        Message::WranglePageLoaded(Ok(b)) => (
            AppModel { wrangle: WrangleModel { batch_loading: false, batch: Some(b), ..w }, ..s },
            none,
        ),
        Message::WranglePageLoaded(Err(e)) => (
            AppModel {
                wrangle: WrangleModel { batch_loading: false, session_error: Some(e@), ..w },
                ..s
            },
            none,
        ),
        Message::WrangleInsightsLoaded(Ok(v)) => (
            AppModel {
                wrangle: WrangleModel { insights_loading: false, insights: v@, ..w },
                ..s
            },
            none,
        ),
        Message::WrangleInsightsLoaded(Err(e)) => (
            AppModel {
                wrangle: WrangleModel { insights_loading: false, insights_error: Some(e@), ..w },
                ..s
            },
            none,
        ),
        Message::WrangleColumnSelected(idx) => {
            if w.selected_column == Some(idx) {
                (
                    AppModel {
                        wrangle: WrangleModel {
                            selected_column: None,
                            summary: None,
                            summary_loading: false,
                            summary_error: None,
                            ..w
                        },
                        ..s
                    },
                    none,
                )
            } else if w.session is None {
                (s, none)
            } else {
                (
                    AppModel {
                        wrangle: WrangleModel {
                            selected_column: Some(idx),
                            summary: None,
                            summary_loading: true,
                            summary_error: None,
                            ..w
                        },
                        ..s
                    },
                    seq![ActionModel::ComputeSummary { column: idx }],
                )
            }
        },
        Message::WrangleSummaryLoaded(idx, r) => {
            if w.selected_column != Some(idx) {
                (s, none)
            } else {
                let w1 = match r {
                    Ok(c) => WrangleModel {
                        summary_loading: false,
                        summary: Some(c),
                        summary_error: None,
                        ..w
                    },
                    Err(e) => WrangleModel {
                        summary_loading: false,
                        summary_error: Some(e@),
                        ..w
                    },
                };
                (AppModel { wrangle: w1, ..s }, none)
            }
        },
        Message::WrangleEditorOpen(kind) => (
            AppModel { wrangle: WrangleModel { editor: default_spec(kind), ..w }, ..s },
            none,
        ),
        Message::WrangleEditorCancel => (
            AppModel { wrangle: WrangleModel { editor: EditorModel::Closed, ..w }, ..s },
            none,
        ),
        Message::WrangleEditorText(field, v) => (
            AppModel {
                wrangle: WrangleModel { editor: set_text_spec(w.editor, field, v@), ..w },
                ..s
            },
            none,
        ),
        Message::WrangleEditorBool(field, b) => (
            AppModel {
                wrangle: WrangleModel { editor: set_bool_spec(w.editor, field, b), ..w },
                ..s
            },
            none,
        ),
        Message::WrangleEditorAggFn(f) => (
            AppModel {
                wrangle: WrangleModel { editor: set_agg_fn_spec(w.editor, f), ..w },
                ..s
            },
            none,
        ),
        Message::WrangleEditorCommit => {
            let closed = WrangleModel { editor: EditorModel::Closed, ..w };
            match into_step_spec(w.editor) {
                Some(step) => with_wrangle(
                    s,
                    refresh_spec::<S, B, I, C, P>(
                        WrangleModel { pipeline: w.pipeline.push(step), ..closed },
                    ),
                ),
                None => (AppModel { wrangle: closed, ..s }, none),
            }
        },
        Message::WrangleStepDelete(idx) => with_wrangle(
            s,
            refresh_spec::<S, B, I, C, P>(
                WrangleModel {
                    pipeline: if idx < w.pipeline.len() {
                        w.pipeline.remove(idx as int)
                    } else {
                        w.pipeline
                    },
                    ..w
                },
            ),
        ),
        Message::WrangleStepMoveUp(idx) => with_wrangle(
            s,
            refresh_spec::<S, B, I, C, P>(
                WrangleModel {
                    pipeline: if 0 < idx < w.pipeline.len() {
                        swap_adjacent(w.pipeline, idx - 1)
                    } else {
                        w.pipeline
                    },
                    ..w
                },
            ),
        ),
        Message::WrangleStepMoveDown(idx) => with_wrangle(
            s,
            refresh_spec::<S, B, I, C, P>(
                WrangleModel {
                    pipeline: if idx + 1 < w.pipeline.len() {
                        swap_adjacent(w.pipeline, idx as int)
                    } else {
                        w.pipeline
                    },
                    ..w
                },
            ),
        ),
        Message::WranglePipelineClear => with_wrangle(
            s,
            refresh_spec::<S, B, I, C, P>(WrangleModel { pipeline: Seq::empty(), ..w }),
        ),
        Message::WrangleStepSelect(sel) => {
            if w.selected_step == sel {
                let w1 = WrangleModel {
                    selected_step: None,
                    diff_before: None,
                    diff_loading: false,
                    page: 0,
                    ..w
                };
                let (w2, a) = page_load_spec::<S, B, I, C, P>(w1);
                (AppModel { wrangle: w2, ..s }, a + recount_spec::<S, B, I, C, P>(w2))
            } else {
                let w1 = WrangleModel { selected_step: sel, page: 0, ..w };
                let (w2, a) = page_load_spec::<S, B, I, C, P>(w1);
                let b = recount_spec::<S, B, I, C, P>(w2);
                let (w3, c) = diff_before_spec::<S, B, I, C, P>(w2);
                (AppModel { wrangle: w3, ..s }, a + b + c)
            }
        },
        Message::WrangleDiffBeforeLoaded(Ok(b)) => (
            AppModel {
                wrangle: WrangleModel { diff_loading: false, diff_before: Some(b), ..w },
                ..s
            },
            none,
        ),
        Message::WrangleDiffBeforeLoaded(Err(e)) => (
            AppModel {
                wrangle: WrangleModel { diff_loading: false, session_error: Some(e@), ..w },
                ..s
            },
            none,
        ),
        Message::WrangleExportPressed => if w.session is None {
            (s, none)
        } else {
            (s, seq![ActionModel::PickExportPath])
        },
        Message::WrangleExportPathPicked(None) => (s, none),
        Message::WrangleExportPathPicked(Some((p, shown))) => if w.session is None {
            (s, none)
        } else {
            (
                AppModel {
                    wrangle: WrangleModel {
                        export_in_progress: true,
                        export_status: Some("Writing "@ + shown@ + "\u{2026}"@),
                        ..w
                    },
                    ..s
                },
                seq![ActionModel::Export { sql: chain_sql(w.pipeline, w.pipeline.len()), path: p }],
            )
        },
        Message::WrangleExportCompleted(r) => (
            AppModel {
                wrangle: WrangleModel {
                    export_in_progress: false,
                    export_status: Some(
                        match r {
                            Ok(shown) => "Exported to "@ + shown@,
                            Err(e) => "Export failed: "@ + e@,
                        },
                    ),
                    ..w
                },
                ..s
            },
            none,
        ),
        Message::WrangleSqlToggle => (
            AppModel { wrangle: WrangleModel { sql_collapsed: !w.sql_collapsed, ..w }, ..s },
            none,
        ),
        Message::WrangleSidebarToggle => (
            AppModel {
                wrangle: WrangleModel { sidebar_collapsed: !w.sidebar_collapsed, ..w },
                ..s
            },
            none,
        ),
        Message::WrangleNextPage => {
            if w.page + 1 < total_pages_spec(w.total_rows, w.page_size) {
                let w1 = WrangleModel { page: (w.page + 1) as usize, ..w };
                let (w2, a) = page_load_spec::<S, B, I, C, P>(w1);
                let (w3, b) = diff_before_spec::<S, B, I, C, P>(w2);
                (AppModel { wrangle: w3, ..s }, a + b)
            } else {
                (s, none)
            }
        },
        Message::WranglePrevPage => {
            if w.page > 0 {
                let w1 = WrangleModel { page: (w.page - 1) as usize, ..w };
                let (w2, a) = page_load_spec::<S, B, I, C, P>(w1);
                let (w3, b) = diff_before_spec::<S, B, I, C, P>(w2);
                (AppModel { wrangle: w3, ..s }, a + b)
            } else {
                (s, none)
            }
        },
        Message::WranglePageSizeInput(v) => (
            AppModel { wrangle: WrangleModel { page_size_input: v@, ..w }, ..s },
            none,
        ),
        Message::WranglePageSizeCommit => {
            let reset = (
                AppModel {
                    wrangle: WrangleModel { page_size_input: dec(w.page_size as nat), ..w },
                    ..s
                },
                none,
            );
            match parse_int(trim(w.page_size_input), 0, usize::MAX as int) {
                Some(n) => {
                    let c = clamp_page_size(n);
                    if c != w.page_size {
                        with_wrangle(
                            s,
                            page_load_spec::<S, B, I, C, P>(
                                WrangleModel {
                                    page_size: c,
                                    page: 0,
                                    page_size_input: dec(c as nat),
                                    ..w
                                },
                            ),
                        )
                    } else {
                        reset
                    }
                },
                None => reset,
            }
        },
        Message::CopyCell(v) => (
            AppModel { copy_notice: Some("Copied: "@ + copy_preview_spec(v@)), ..s },
            seq![ActionModel::CopyToClipboard(v@), ActionModel::ClearCopyNoticeLater],
        ),
        Message::ClearCopyNotice => (AppModel { copy_notice: None, ..s }, none),
    }
}

// ---------------------------------------------------------------------------
// Arithmetic facts about pages
// ---------------------------------------------------------------------------

proof fn lemma_div_ceil(t: nat, p: nat)
    requires
        t > 0,
        p > 0,
    ensures
        div_ceil_spec(t, p) == (t - 1) / (p as int) + 1,
        div_ceil_spec(t, p) <= t,
{
    vstd::arithmetic::div_mod::lemma_div_plus_one(t - 1, p as int);
    assert((t - 1) / (p as int) <= t - 1) by {
        vstd::arithmetic::div_mod::lemma_div_is_ordered_by_denominator(t - 1, 1, p as int);
    }
}

/// A page before the last one starts and ends before the last row.
proof fn lemma_page_before_last(k: nat, t: nat, p: nat)
    requires
        t > 0,
        p > 0,
        k < div_ceil_spec(t, p),
    ensures
        k * p < t,
{
    lemma_div_ceil(t, p);
    let q = (t - 1) / (p as int);
    assert(k <= q);
    vstd::arithmetic::mul::lemma_mul_inequality(k as int, q, p as int);
    vstd::arithmetic::div_mod::lemma_fundamental_div_mod(t - 1, p as int);
    vstd::arithmetic::div_mod::lemma_mod_pos_bound(t - 1, p as int);
    vstd::arithmetic::mul::lemma_mul_is_commutative(q, p as int);
}

/// The page after `page` exists only when its first row's offset fits.
proof fn lemma_next_page_fits(total_rows: Option<i64>, page: nat, size: nat)
    requires
        1 <= size <= usize::MAX,
        page + 1 < total_pages_spec(total_rows, size as usize),
    ensures
        (page + 1) * size < usize::MAX,
{
    let n = total_rows->0;
    let t = (if n < 0 {
        0
    } else {
        n
    }) as usize;
    assert(t > 0);
    lemma_page_before_last(page + 1, t as nat, size);
}

proof fn lemma_page_le_offset(page: nat, size: nat)
    requires
        size >= 1,
    ensures
        page <= page * size,
{
    vstd::arithmetic::mul::lemma_mul_inequality(1, size as int, page as int);
    vstd::arithmetic::mul::lemma_mul_is_commutative(size as int, page as int);
}

proof fn lemma_prev_offset(page: nat, size: nat)
    requires
        page >= 1,
    ensures
        (page - 1) * size <= page * size,
{
    vstd::arithmetic::mul::lemma_mul_inequality((page - 1) as int, page as int, size as int);
}

/// The copy notice shows at most `COPY_PREVIEW_LIMIT` characters: a value
/// that fits is shown whole, a longer one by its first characters.
pub proof fn law_copy_preview_bounded(v: Seq<char>)
    ensures
        copy_preview_spec(v).len() <= COPY_PREVIEW_LIMIT,
        v.len() <= COPY_PREVIEW_LIMIT ==> copy_preview_spec(v) == v,
        forall|i: int|
            0 <= i < copy_preview_spec(v).len() && i < COPY_PREVIEW_KEEP ==> #[trigger] copy_preview_spec(v)[i] == v[i],
{
}

/// Every message keeps the state well formed: the page size stays between
/// one and `MAX_PAGE_SIZE`, and the offset of the page's first row fits.
pub proof fn law_update_keeps_wf<F, S, B, I, C, P>(
    s: AppModel<F, S, B, I, C>,
    m: Message<F, S, B, I, C, P>,
)
    requires
        wf(s),
    ensures
        wf(update_spec(s, m).0),
{
    reveal(update_spec);
    let w = s.wrangle;
    vstd::arithmetic::mul::lemma_mul_basics(w.page_size as int);
    match m {
        Message::WrangleNextPage => {
            lemma_page_le_offset(w.page as nat, w.page_size as nat);
            if w.page + 1 < total_pages_spec(w.total_rows, w.page_size) {
                lemma_next_page_fits(w.total_rows, w.page as nat, w.page_size as nat);
            }
        },
        Message::WranglePrevPage => {
            if w.page > 0 {
                lemma_prev_offset(w.page as nat, w.page_size as nat);
            }
        },
        Message::WranglePageSizeCommit => {
            if let Some(n) = parse_int(trim(w.page_size_input), 0, usize::MAX as int) {
                vstd::arithmetic::mul::lemma_mul_basics(clamp_page_size(n) as int);
            }
        },
        _ => {},
    }
}

// ---------------------------------------------------------------------------
// Laws of the state machine
// ---------------------------------------------------------------------------

/// Work that only an open query session can do.
pub open spec fn needs_session<P>(a: ActionModel<P>) -> bool {
    match a {
        ActionModel::CountRows | ActionModel::ComputeInsights | ActionModel::LoadPage { .. }
        | ActionModel::CountSql { .. } | ActionModel::ComputeSummary { .. }
        | ActionModel::LoadDiffBefore { .. } | ActionModel::PickExportPath
        | ActionModel::Export { .. } => true,
        _ => false,
    }
}

/// No message asks for a query, a summary or an export unless a session is
/// open once the message has been applied.
pub proof fn law_queries_need_a_session<F, S, B, I, C, P>(
    s: AppModel<F, S, B, I, C>,
    m: Message<F, S, B, I, C, P>,
    k: int,
)
    requires
        0 <= k < update_spec(s, m).1.len(),
        needs_session(update_spec(s, m).1[k]),
    ensures
        update_spec(s, m).0.wrangle.session is Some,
{
    reveal(update_spec);
}

/// Every page that is asked for is the page that the state then shows: its
/// offset is the page number times the page size, and its length the page
/// size.
#[verifier::rlimit(60)]
pub proof fn law_fetched_page_is_shown_page<F, S, B, I, C, P>(
    s: AppModel<F, S, B, I, C>,
    m: Message<F, S, B, I, C, P>,
    k: int,
)
    requires
        wf(s),
        0 <= k < update_spec(s, m).1.len(),
    ensures
        ({
            let t = update_spec(s, m).0.wrangle;
            match update_spec(s, m).1[k] {
                ActionModel::LoadPage { offset, limit, .. } => offset == t.page * t.page_size
                    && limit == t.page_size,
                ActionModel::LoadDiffBefore { offset, limit, .. } => offset == t.page
                    * t.page_size && limit == t.page_size,
                _ => true,
            }
        }),
{
    reveal(update_spec);
    law_update_keeps_wf(s, m);
    match m {
        Message::TabSelected(_) => {},
        Message::WrangleSessionLoaded(_) => {},
        Message::WrangleEditorCommit => {},
        Message::WrangleStepDelete(_) => {},
        Message::WrangleStepMoveUp(_) => {},
        Message::WrangleStepMoveDown(_) => {},
        Message::WranglePipelineClear => {},
        Message::WrangleStepSelect(_) => {},
        Message::WrangleNextPage => {},
        Message::WranglePrevPage => {},
        Message::WranglePageSizeCommit => {},
        _ => {},
    }
}

/// An export writes the whole pipeline's output, whichever step is selected
/// for viewing: with a session open, picking a destination asks for exactly
/// one export, of the query of all the steps, to that destination.
pub proof fn law_export_writes_whole_pipeline<F, S, B, I, C, P>(
    s: AppModel<F, S, B, I, C>,
    p: P,
    shown: String,
)
    requires
        s.wrangle.session is Some,
    ensures
        ({
            let (t, acts) = update_spec(
                s,
                Message::<F, S, B, I, C, P>::WrangleExportPathPicked(Some((p, shown))),
            );
            &&& acts == seq![
                ActionModel::<P>::Export {
                    sql: chain_sql(s.wrangle.pipeline, s.wrangle.pipeline.len()),
                    path: p,
                },
            ]
            &&& t.wrangle.export_in_progress
            &&& t.wrangle.pipeline == s.wrangle.pipeline
            &&& t.wrangle.selected_step == s.wrangle.selected_step
        }),
{
    reveal(update_spec);
}

/// Two states that differ only in the selected step export the same query.
pub proof fn law_export_ignores_selected_step<F, S, B, I, C, P>(
    s: AppModel<F, S, B, I, C>,
    sel: Option<usize>,
    p: P,
    shown: String,
)
    requires
        s.wrangle.session is Some,
    ensures
        update_spec(
            s,
            Message::<F, S, B, I, C, P>::WrangleExportPathPicked(Some((p, shown))),
        ).1 == update_spec(
            AppModel { wrangle: WrangleModel { selected_step: sel, ..s.wrangle }, ..s },
            Message::<F, S, B, I, C, P>::WrangleExportPathPicked(Some((p, shown))),
        ).1,
{
    reveal(update_spec);
}

/// Toggling a row group twice, from a state where no other group is open,
/// leaves the state as it was.
pub proof fn law_row_group_toggle_twice<F, S, B, I, C, P>(s: AppModel<F, S, B, I, C>, i: usize)
    requires
        s.selected_row_group is None || s.selected_row_group == Some(i),
    ensures
        update_spec(
            update_spec(s, Message::<F, S, B, I, C, P>::RowGroupToggled(i)).0,
            Message::<F, S, B, I, C, P>::RowGroupToggled(i),
        ).0 == s,
{
    reveal(update_spec);
}

/// Collapsing the SQL panel or the sidebar twice leaves the state as it was.
pub proof fn law_panel_toggles_twice<F, S, B, I, C, P>(s: AppModel<F, S, B, I, C>)
    ensures
        update_spec(
            update_spec(s, Message::<F, S, B, I, C, P>::WrangleSqlToggle).0,
            Message::<F, S, B, I, C, P>::WrangleSqlToggle,
        ).0 == s,
        update_spec(
            update_spec(s, Message::<F, S, B, I, C, P>::WrangleSidebarToggle).0,
            Message::<F, S, B, I, C, P>::WrangleSidebarToggle,
        ).0 == s,
{
    reveal(update_spec);
}

/// Selecting a column that is not selected, then selecting it again, leaves
/// no column selected and no summary.
pub proof fn law_column_select_twice<F, S, B, I, C, P>(s: AppModel<F, S, B, I, C>, idx: usize)
    requires
        s.wrangle.selected_column != Some(idx),
    ensures
        ({
            let once = update_spec(s, Message::<F, S, B, I, C, P>::WrangleColumnSelected(idx)).0;
            let twice = update_spec(
                once,
                Message::<F, S, B, I, C, P>::WrangleColumnSelected(idx),
            ).0;
            s.wrangle.session is Some ==> twice.wrangle.selected_column is None
                && twice.wrangle.summary is None && !twice.wrangle.summary_loading
        }),
{
    reveal(update_spec);
}

/// The summary of a column that is no longer selected is dropped: the state
/// does not change and nothing is asked for.
pub proof fn law_stale_summary_ignored<F, S, B, I, C, P>(
    s: AppModel<F, S, B, I, C>,
    idx: usize,
    r: Result<C, String>,
)
    requires
        s.wrangle.selected_column != Some(idx),
    ensures
        update_spec(s, Message::<F, S, B, I, C, P>::WrangleSummaryLoaded(idx, r)).0 == s,
        update_spec(s, Message::<F, S, B, I, C, P>::WrangleSummaryLoaded(idx, r)).1.len() == 0,
{
    reveal(update_spec);
}

/// Committing the form closes it; the pipeline gains the step that the form
/// describes, or stays as it was when the form is not filled in.
pub proof fn law_commit_closes_editor<F, S, B, I, C, P>(s: AppModel<F, S, B, I, C>)
    ensures
        ({
            let t = update_spec(s, Message::<F, S, B, I, C, P>::WrangleEditorCommit).0;
            &&& t.wrangle.editor == EditorModel::Closed
            &&& t.wrangle.pipeline == match into_step_spec(s.wrangle.editor) {
                Some(step) => s.wrangle.pipeline.push(step),
                None => s.wrangle.pipeline,
            }
        }),
{
    reveal(update_spec);
}

/// A message that changes the pipeline shows the first page of the whole new
/// pipeline's output, and, with a session open, asks for exactly that page
/// and the new row count.
pub proof fn law_pipeline_change_shows_first_page<F, S, B, I, C, P>(
    s: AppModel<F, S, B, I, C>,
    m: Message<F, S, B, I, C, P>,
)
    requires
        m is WrangleStepDelete || m is WrangleStepMoveUp || m is WrangleStepMoveDown
            || m is WranglePipelineClear || (m is WrangleEditorCommit && into_step_spec(
            s.wrangle.editor,
        ) is Some),
    ensures
        ({
            let (t, acts) = update_spec(s, m);
            let sql = chain_sql(t.wrangle.pipeline, t.wrangle.pipeline.len());
            &&& t.wrangle.page == 0
            &&& t.wrangle.selected_step is None
            &&& t.wrangle.diff_before is None
            &&& s.wrangle.session is Some ==> acts == seq![
                ActionModel::<P>::LoadPage { sql: sql, offset: 0, limit: t.wrangle.page_size },
                ActionModel::<P>::CountSql { sql: sql },
            ]
            &&& s.wrangle.session is None ==> acts.len() == 0
        }),
{
    reveal(update_spec);
    vstd::arithmetic::mul::lemma_mul_basics(s.wrangle.page_size as int);
}

/// Moving to the next page never goes past the last page.
pub proof fn law_next_page_in_range<F, S, B, I, C, P>(s: AppModel<F, S, B, I, C>)
    ensures
        ({
            let t = update_spec(s, Message::<F, S, B, I, C, P>::WrangleNextPage).0;
            t.wrangle.page == s.wrangle.page || t.wrangle.page < total_pages_spec(
                t.wrangle.total_rows,
                t.wrangle.page_size,
            )
        }),
{
    reveal(update_spec);
}

/// Going to the next page and back returns to the page where it started.
pub proof fn law_next_then_prev<F, S, B, I, C, P>(s: AppModel<F, S, B, I, C>)
    requires
        wf(s),
    ensures
        ({
            let once = update_spec(s, Message::<F, S, B, I, C, P>::WrangleNextPage).0;
            update_spec(once, Message::<F, S, B, I, C, P>::WranglePrevPage).0.wrangle.page
                == s.wrangle.page || once.wrangle.page == s.wrangle.page
        }),
{
    reveal(update_spec);
    lemma_page_le_offset(s.wrangle.page as nat, s.wrangle.page_size as nat);
}

/// After a page size is committed, the input shows the page size in force.
pub proof fn law_page_size_input_shows_size<F, S, B, I, C, P>(s: AppModel<F, S, B, I, C>)
    ensures
        ({
            let t = update_spec(s, Message::<F, S, B, I, C, P>::WranglePageSizeCommit).0;
            t.wrangle.page_size_input == dec(t.wrangle.page_size as nat)
        }),
{
    reveal(update_spec);
}

/// Opening a file drops everything that was derived from the previous one.
pub proof fn law_new_file_starts_clean<F, S, B, I, C, P>(s: AppModel<F, S, B, I, C>, f: F)
    ensures
        ({
            let (t, acts) = update_spec(s, Message::<F, S, B, I, C, P>::FileLoaded(Ok(f)));
            &&& t.file == Some(f)
            &&& t.wrangle.session is None
            &&& t.wrangle.pipeline.len() == 0
            &&& t.wrangle.editor == EditorModel::Closed
            &&& t.wrangle.page == 0
            &&& t.wrangle.batch is None
            &&& t.wrangle.total_rows is None
            &&& t.wrangle.insights.len() == 0
            &&& t.wrangle.selected_column is None
            &&& t.wrangle.selected_step is None
            &&& acts == seq![ActionModel::<P>::OpenSession]
        }),
{
    reveal(update_spec);
}

// ---------------------------------------------------------------------------
// The state machine
// ---------------------------------------------------------------------------

impl<F, S, B, I, C> App<F, S, B, I, C> {
    /// A viewer with no file open.
    pub fn new() -> (a: Self)
        ensures
            a@ == initial_spec::<F, S, B, I, C>(),
            wf(a@),
    {
        let mut input = String::new();
        push_u64(&mut input, DEFAULT_PAGE_SIZE as u64);
        App {
            file: None,
            tab: Tab::Overview,
            error: None,
            loading: false,
            selected_row_group: None,
            wrangle: WrangleState {
                session: None,
                session_loading: false,
                session_error: None,
                page: 0,
                page_size: DEFAULT_PAGE_SIZE,
                page_size_input: input,
                batch: None,
                batch_loading: false,
                total_rows: None,
                insights: Vec::new(),
                insights_loading: false,
                insights_error: None,
                selected_column: None,
                summary: None,
                summary_loading: false,
                summary_error: None,
                pipeline: Pipeline::default(),
                editor: Editor::Closed,
                selected_step: None,
                diff_before: None,
                diff_loading: false,
                export_in_progress: false,
                export_status: None,
                sql_collapsed: true,
                sidebar_collapsed: false,
            },
            copy_notice: None,
        }
    }

    /// The window title; `file_name` is the name of the open file.
    pub fn title(&self, file_name: &str) -> (r: String)
        ensures
            r@ == (if self.file is Some {
                "Parquet UI \u{2014} "@ + file_name@
            } else {
                "Parquet UI"@
            }),
    {
        match &self.file {
            Some(_) => {
                let mut t = owned("Parquet UI \u{2014} ");
                push_str(&mut t, file_name);
                t
            },
            None => owned("Parquet UI"),
        }
    }

    /// Whether the state satisfies `wf`, which `update` needs.
    pub fn well_formed(&self) -> (b: bool)
        ensures
            b == wf(self@),
    {
        self.wrangle.page_size >= 1 && self.wrangle.page_size <= MAX_PAGE_SIZE
            && self.wrangle.page.checked_mul(self.wrangle.page_size).is_some()
            && self.wrangle.page * self.wrangle.page_size < usize::MAX
    }

    /// How many pages the counted rows of the current query fill.
    pub fn wrangle_total_pages(&self) -> (r: usize)
        ensures
            r == total_pages_spec(self.wrangle.total_rows, self.wrangle.page_size),
    {
        match self.wrangle.total_rows {
            None => 0,
            Some(n) => {
                let total: usize = if n < 0 {
                    0
                } else {
                    n as usize
                };
                if total == 0 {
                    return 0;
                }
                let size: usize = if self.wrangle.page_size < 1 {
                    1
                } else {
                    self.wrangle.page_size
                };
                proof {
                    lemma_div_ceil(total as nat, size as nat);
                }
                (total - 1) / size + 1
            },
        }
    }

    fn current_pipeline_sql(&self) -> (r: String)
        ensures
            r@ == current_sql_spec(self@.wrangle),
    {
        match self.wrangle.selected_step {
            Some(i) => {
                if i < self.wrangle.pipeline.steps.len() {
                    self.wrangle.pipeline.prefix_sql(i + 1)
                } else {
                    self.wrangle.pipeline.to_sql()
                }
            },
            None => self.wrangle.pipeline.to_sql(),
        }
    }

    fn dispatch_wrangle_page_load<P>(&mut self, out: &mut Vec<Action<P>>)
        requires
            old(self).wrangle.page * old(self).wrangle.page_size < usize::MAX,
        ensures
            final(self)@ == (AppModel {
                wrangle: page_load_spec::<S, B, I, C, P>(old(self)@.wrangle).0,
                ..old(self)@
            }),
            actions_view(final(out)@) == actions_view(old(out)@) + page_load_spec::<
                S,
                B,
                I,
                C,
                P,
            >(old(self)@.wrangle).1,
    {
        if self.wrangle.session.is_none() {
            assert(actions_view(out@) =~= actions_view(out@) + Seq::<ActionModel<P>>::empty());
            return ;
        }
        let sql = self.current_pipeline_sql();
        self.wrangle.batch_loading = true;
        let offset = self.wrangle.page * self.wrangle.page_size;
        let limit = self.wrangle.page_size;
        let ghost before = out@;
        out.push(Action::LoadPage { sql, offset, limit });
        assert(actions_view(out@) =~= actions_view(before) + seq![
            ActionModel::LoadPage { sql: sql@, offset, limit },
        ]);
    }

    fn dispatch_wrangle_recount<P>(&self, out: &mut Vec<Action<P>>)
        ensures
            actions_view(final(out)@) == actions_view(old(out)@) + recount_spec::<S, B, I, C, P>(
                self@.wrangle,
            ),
    {
        if self.wrangle.session.is_none() {
            assert(actions_view(out@) =~= actions_view(out@) + Seq::<ActionModel<P>>::empty());
            return ;
        }
        let sql = self.current_pipeline_sql();
        let ghost before = out@;
        out.push(Action::CountSql { sql });
        assert(actions_view(out@) =~= actions_view(before) + seq![
            ActionModel::CountSql { sql: sql@ },
        ]);
    }

    fn dispatch_diff_before<P>(&mut self, out: &mut Vec<Action<P>>)
        requires
            old(self).wrangle.page * old(self).wrangle.page_size < usize::MAX,
        ensures
            final(self)@ == (AppModel {
                wrangle: diff_before_spec::<S, B, I, C, P>(old(self)@.wrangle).0,
                ..old(self)@
            }),
            actions_view(final(out)@) == actions_view(old(out)@) + diff_before_spec::<
                S,
                B,
                I,
                C,
                P,
            >(old(self)@.wrangle).1,
    {
        if self.wrangle.session.is_none() {
            assert(actions_view(out@) =~= actions_view(out@) + Seq::<ActionModel<P>>::empty());
            return ;
        }
        match self.wrangle.selected_step {
            None => {
                self.wrangle.diff_before = None;
                assert(actions_view(out@) =~= actions_view(out@) + Seq::<ActionModel<P>>::empty());
            },
            Some(k) => {
                self.wrangle.diff_loading = true;
                let offset = self.wrangle.page * self.wrangle.page_size;
                let limit = self.wrangle.page_size;
                let sql = self.wrangle.pipeline.prefix_sql(k);
                let ghost before = out@;
                out.push(Action::LoadDiffBefore { sql, offset, limit });
                assert(actions_view(out@) =~= actions_view(before) + seq![
                    ActionModel::LoadDiffBefore { sql: sql@, offset, limit },
                ]);
            },
        }
    }

    fn dispatch_pipeline_refresh<P>(&mut self, out: &mut Vec<Action<P>>)
        ensures
            final(self)@ == (AppModel {
                wrangle: refresh_spec::<S, B, I, C, P>(old(self)@.wrangle).0,
                ..old(self)@
            }),
            actions_view(final(out)@) == actions_view(old(out)@) + refresh_spec::<
                S,
                B,
                I,
                C,
                P,
            >(old(self)@.wrangle).1,
    {
        self.wrangle.page = 0;
        self.wrangle.selected_step = None;
        self.wrangle.diff_before = None;
        self.wrangle.diff_loading = false;
        let ghost start = out@;
        self.dispatch_wrangle_page_load(out);
        let ghost mid = out@;
        self.dispatch_wrangle_recount(out);
        assert(actions_view(out@) =~= actions_view(start) + refresh_spec::<S, B, I, C, P>(
            old(self)@.wrangle,
        ).1);
    }
}

// One handler per message; each does what `update_spec` says of it.
impl<F, S, B, I, C> App<F, S, B, I, C> {
    fn on_file_picked<P>(&mut self, picked: Option<P>) -> (r: Vec<Action<P>>)
        requires
            wf(old(self)@),
        ensures
            final(self)@ == update_spec::<F, S, B, I, C, P>(old(self)@, Message::FilePicked(picked)).0,
            actions_view(r@) == update_spec::<F, S, B, I, C, P>(old(self)@, Message::FilePicked(picked)).1,
    {
        reveal(update_spec);
        let ghost expect = update_spec::<F, S, B, I, C, P>(self@, Message::FilePicked(picked));
        let mut out: Vec<Action<P>> = Vec::new();
        match picked {
            None => {},
            Some(path) => {
                self.loading = true;
                self.error = None;
                out.push(Action::LoadMetadata(path));
            },
        }
        assert(actions_view(out@) =~= expect.1);
        out
    }


    fn on_file_loaded<P>(&mut self, loaded: Result<F, String>) -> (r: Vec<Action<P>>)
        requires
            wf(old(self)@),
        ensures
            final(self)@ == update_spec::<F, S, B, I, C, P>(old(self)@, Message::FileLoaded(loaded)).0,
            actions_view(r@) == update_spec::<F, S, B, I, C, P>(old(self)@, Message::FileLoaded(loaded)).1,
    {
        reveal(update_spec);
        let ghost expect = update_spec::<F, S, B, I, C, P>(self@, Message::FileLoaded(loaded));
        let mut out: Vec<Action<P>> = Vec::new();
        match loaded {
            Ok(f) => {
                self.loading = false;
                self.file = Some(f);
                self.selected_row_group = None;
                self.wrangle.session = None;
                self.wrangle.session_error = None;
                self.wrangle.session_loading = true;
                self.wrangle.page = 0;
                self.wrangle.batch = None;
                self.wrangle.total_rows = None;
                self.wrangle.insights = Vec::new();
                self.wrangle.insights_loading = false;
                self.wrangle.insights_error = None;
                self.wrangle.selected_column = None;
                self.wrangle.summary = None;
                self.wrangle.summary_loading = false;
                self.wrangle.summary_error = None;
                self.wrangle.pipeline = Pipeline::default();
                self.wrangle.editor = Editor::Closed;
                self.wrangle.selected_step = None;
                self.wrangle.diff_before = None;
                self.wrangle.diff_loading = false;
                assert(self.wrangle.pipeline@ =~= Seq::<StepModel>::empty());
                out.push(Action::OpenSession);
            },
            Err(e) => {
                self.loading = false;
                self.error = Some(e);
            },
        }
        assert(actions_view(out@) =~= expect.1);
        out
    }


    fn on_tab_selected<P>(&mut self, tab: Tab) -> (r: Vec<Action<P>>)
        requires
            wf(old(self)@),
        ensures
            final(self)@ == update_spec::<F, S, B, I, C, P>(old(self)@, Message::TabSelected(tab)).0,
            actions_view(r@) == update_spec::<F, S, B, I, C, P>(old(self)@, Message::TabSelected(tab)).1,
    {
        reveal(update_spec);
        let ghost expect = update_spec::<F, S, B, I, C, P>(self@, Message::TabSelected(tab));
        let mut out: Vec<Action<P>> = Vec::new();
        self.tab = tab;
        if tab == Tab::Data && self.wrangle.batch.is_none() && self.wrangle.session.is_some()
            && !self.wrangle.batch_loading {
            self.dispatch_wrangle_page_load(&mut out);
        }
        assert(actions_view(out@) =~= expect.1);
        out
    }


    fn on_row_group_toggled<P>(&mut self, i: usize) -> (r: Vec<Action<P>>)
        requires
            wf(old(self)@),
        ensures
            final(self)@ == update_spec::<F, S, B, I, C, P>(old(self)@, Message::RowGroupToggled(i)).0,
            actions_view(r@) == update_spec::<F, S, B, I, C, P>(old(self)@, Message::RowGroupToggled(i)).1,
    {
        reveal(update_spec);
        let ghost expect = update_spec::<F, S, B, I, C, P>(self@, Message::RowGroupToggled(i));
        let mut out: Vec<Action<P>> = Vec::new();
        let now = match self.selected_row_group {
            Some(j) => if j == i {
                None
            } else {
                Some(i)
            },
            None => Some(i),
        };
        self.selected_row_group = now;
        assert(actions_view(out@) =~= expect.1);
        out
    }


    fn on_session_loaded<P>(&mut self, loaded: Result<S, String>) -> (r: Vec<Action<P>>)
        requires
            wf(old(self)@),
        ensures
            final(self)@ == update_spec::<F, S, B, I, C, P>(old(self)@, Message::WrangleSessionLoaded(loaded)).0,
            actions_view(r@) == update_spec::<F, S, B, I, C, P>(old(self)@, Message::WrangleSessionLoaded(loaded)).1,
    {
        reveal(update_spec);
        let ghost expect = update_spec::<F, S, B, I, C, P>(self@, Message::WrangleSessionLoaded(loaded));
        let mut out: Vec<Action<P>> = Vec::new();
        match loaded {
            Ok(session) => {
                self.wrangle.session_loading = false;
                self.wrangle.session = Some(session);
                self.wrangle.insights_loading = true;
                self.wrangle.insights_error = None;
                out.push(Action::CountRows);
                out.push(Action::ComputeInsights);
                assert(actions_view(out@) =~= seq![ActionModel::CountRows, ActionModel::ComputeInsights]);
                if self.tab == Tab::Data {
                    self.dispatch_wrangle_page_load(&mut out);
                }
            },
            Err(e) => {
                self.wrangle.session_loading = false;
                self.wrangle.session_error = Some(e);
            },
        }
        assert(actions_view(out@) =~= expect.1);
        out
    }


    fn on_row_count_loaded<P>(&mut self, loaded: Result<i64, String>) -> (r: Vec<Action<P>>)
        requires
            wf(old(self)@),
        ensures
            final(self)@ == update_spec::<F, S, B, I, C, P>(old(self)@, Message::WrangleRowCountLoaded(loaded)).0,
            actions_view(r@) == update_spec::<F, S, B, I, C, P>(old(self)@, Message::WrangleRowCountLoaded(loaded)).1,
    {
        reveal(update_spec);
        let ghost expect = update_spec::<F, S, B, I, C, P>(self@, Message::WrangleRowCountLoaded(loaded));
        let mut out: Vec<Action<P>> = Vec::new();
        match loaded {
            Ok(n) => {
                self.wrangle.total_rows = Some(n);
            },
            Err(e) => {
                self.wrangle.session_error = Some(e);
            },
        }
        assert(actions_view(out@) =~= expect.1);
        out
    }


    fn on_page_loaded<P>(&mut self, loaded: Result<B, String>) -> (r: Vec<Action<P>>)
        requires
            wf(old(self)@),
        ensures
            final(self)@ == update_spec::<F, S, B, I, C, P>(old(self)@, Message::WranglePageLoaded(loaded)).0,
            actions_view(r@) == update_spec::<F, S, B, I, C, P>(old(self)@, Message::WranglePageLoaded(loaded)).1,
    {
        reveal(update_spec);
        let ghost expect = update_spec::<F, S, B, I, C, P>(self@, Message::WranglePageLoaded(loaded));
        let mut out: Vec<Action<P>> = Vec::new();
        self.wrangle.batch_loading = false;
        match loaded {
            Ok(b) => {
                self.wrangle.batch = Some(b);
            },
            Err(e) => {
                self.wrangle.session_error = Some(e);
            },
        }
        assert(actions_view(out@) =~= expect.1);
        out
    }


    fn on_insights_loaded<P>(&mut self, loaded: Result<Vec<I>, String>) -> (r: Vec<Action<P>>)
        requires
            wf(old(self)@),
        ensures
            final(self)@ == update_spec::<F, S, B, I, C, P>(old(self)@, Message::WrangleInsightsLoaded(loaded)).0,
            actions_view(r@) == update_spec::<F, S, B, I, C, P>(old(self)@, Message::WrangleInsightsLoaded(loaded)).1,
    {
        reveal(update_spec);
        let ghost expect = update_spec::<F, S, B, I, C, P>(self@, Message::WrangleInsightsLoaded(loaded));
        let mut out: Vec<Action<P>> = Vec::new();
        self.wrangle.insights_loading = false;
        match loaded {
            Ok(v) => {
                self.wrangle.insights = v;
            },
            Err(e) => {
                self.wrangle.insights_error = Some(e);
            },
        }
        assert(actions_view(out@) =~= expect.1);
        out
    }


    fn on_column_selected<P>(&mut self, idx: usize) -> (r: Vec<Action<P>>)
        requires
            wf(old(self)@),
        ensures
            final(self)@ == update_spec::<F, S, B, I, C, P>(old(self)@, Message::WrangleColumnSelected(idx)).0,
            actions_view(r@) == update_spec::<F, S, B, I, C, P>(old(self)@, Message::WrangleColumnSelected(idx)).1,
    {
        reveal(update_spec);
        let ghost expect = update_spec::<F, S, B, I, C, P>(self@, Message::WrangleColumnSelected(idx));
        let mut out: Vec<Action<P>> = Vec::new();
        let same = match self.wrangle.selected_column {
            Some(j) => j == idx,
            None => false,
        };
        if same {
            self.wrangle.selected_column = None;
            self.wrangle.summary = None;
            self.wrangle.summary_loading = false;
            self.wrangle.summary_error = None;
        } else if self.wrangle.session.is_some() {
            self.wrangle.selected_column = Some(idx);
            self.wrangle.summary = None;
            self.wrangle.summary_loading = true;
            self.wrangle.summary_error = None;
            out.push(Action::ComputeSummary { column: idx });
        }
        assert(actions_view(out@) =~= expect.1);
        out
    }


    fn on_summary_loaded<P>(&mut self, idx: usize, loaded: Result<C, String>) -> (r: Vec<Action<P>>)
        requires
            wf(old(self)@),
        ensures
            final(self)@ == update_spec::<F, S, B, I, C, P>(old(self)@, Message::WrangleSummaryLoaded(idx, loaded)).0,
            actions_view(r@) == update_spec::<F, S, B, I, C, P>(old(self)@, Message::WrangleSummaryLoaded(idx, loaded)).1,
    {
        reveal(update_spec);
        let ghost expect = update_spec::<F, S, B, I, C, P>(self@, Message::WrangleSummaryLoaded(idx, loaded));
        let mut out: Vec<Action<P>> = Vec::new();
        let same = match self.wrangle.selected_column {
            Some(j) => j == idx,
            None => false,
        };
        if same {
            self.wrangle.summary_loading = false;
            match loaded {
                Ok(c) => {
                    self.wrangle.summary = Some(c);
                    self.wrangle.summary_error = None;
                },
                Err(e) => {
                    self.wrangle.summary_error = Some(e);
                },
            }
        }
        assert(actions_view(out@) =~= expect.1);
        out
    }


    fn on_editor_open<P>(&mut self, kind: EditorKind) -> (r: Vec<Action<P>>)
        requires
            wf(old(self)@),
        ensures
            final(self)@ == update_spec::<F, S, B, I, C, P>(old(self)@, Message::WrangleEditorOpen(kind)).0,
            actions_view(r@) == update_spec::<F, S, B, I, C, P>(old(self)@, Message::WrangleEditorOpen(kind)).1,
    {
        reveal(update_spec);
        let ghost expect = update_spec::<F, S, B, I, C, P>(self@, Message::WrangleEditorOpen(kind));
        let mut out: Vec<Action<P>> = Vec::new();
        self.wrangle.editor = Editor::default_for(kind);
        assert(actions_view(out@) =~= expect.1);
        out
    }


    fn on_editor_text<P>(&mut self, field: EditorField, value: String) -> (r: Vec<Action<P>>)
        requires
            wf(old(self)@),
        ensures
            final(self)@ == update_spec::<F, S, B, I, C, P>(old(self)@, Message::WrangleEditorText(field, value)).0,
            actions_view(r@) == update_spec::<F, S, B, I, C, P>(old(self)@, Message::WrangleEditorText(field, value)).1,
    {
        reveal(update_spec);
        let ghost expect = update_spec::<F, S, B, I, C, P>(self@, Message::WrangleEditorText(field, value));
        let mut out: Vec<Action<P>> = Vec::new();
        self.wrangle.editor.set_text(field, value);
        assert(actions_view(out@) =~= expect.1);
        out
    }


    fn on_editor_bool<P>(&mut self, field: EditorField, value: bool) -> (r: Vec<Action<P>>)
        requires
            wf(old(self)@),
        ensures
            final(self)@ == update_spec::<F, S, B, I, C, P>(old(self)@, Message::WrangleEditorBool(field, value)).0,
            actions_view(r@) == update_spec::<F, S, B, I, C, P>(old(self)@, Message::WrangleEditorBool(field, value)).1,
    {
        reveal(update_spec);
        let ghost expect = update_spec::<F, S, B, I, C, P>(self@, Message::WrangleEditorBool(field, value));
        let mut out: Vec<Action<P>> = Vec::new();
        self.wrangle.editor.set_bool(field, value);
        assert(actions_view(out@) =~= expect.1);
        out
    }


    fn on_editor_agg_fn<P>(&mut self, f: AggFn) -> (r: Vec<Action<P>>)
        requires
            wf(old(self)@),
        ensures
            final(self)@ == update_spec::<F, S, B, I, C, P>(old(self)@, Message::WrangleEditorAggFn(f)).0,
            actions_view(r@) == update_spec::<F, S, B, I, C, P>(old(self)@, Message::WrangleEditorAggFn(f)).1,
    {
        reveal(update_spec);
        let ghost expect = update_spec::<F, S, B, I, C, P>(self@, Message::WrangleEditorAggFn(f));
        let mut out: Vec<Action<P>> = Vec::new();
        self.wrangle.editor.set_agg_fn(f);
        assert(actions_view(out@) =~= expect.1);
        out
    }


    fn on_editor_commit<P>(&mut self) -> (r: Vec<Action<P>>)
        requires
            wf(old(self)@),
        ensures
            final(self)@ == update_spec::<F, S, B, I, C, P>(old(self)@, Message::WrangleEditorCommit).0,
            actions_view(r@) == update_spec::<F, S, B, I, C, P>(old(self)@, Message::WrangleEditorCommit).1,
    {
        reveal(update_spec);
        let ghost expect = update_spec::<F, S, B, I, C, P>(self@, Message::WrangleEditorCommit);
        let mut out: Vec<Action<P>> = Vec::new();
        let mut editor = Editor::Closed;
        std::mem::swap(&mut editor, &mut self.wrangle.editor);
        match editor.into_step() {
            Some(step) => {
                let ghost sv = step@;
                self.wrangle.pipeline.push(step);
                assert(self.wrangle.pipeline@ =~= old(self)@.wrangle.pipeline.push(sv));
                self.dispatch_pipeline_refresh(&mut out);
            },
            None => {},
        }
        assert(actions_view(out@) =~= expect.1);
        out
    }


    fn on_step_delete<P>(&mut self, idx: usize) -> (r: Vec<Action<P>>)
        requires
            wf(old(self)@),
        ensures
            final(self)@ == update_spec::<F, S, B, I, C, P>(old(self)@, Message::WrangleStepDelete(idx)).0,
            actions_view(r@) == update_spec::<F, S, B, I, C, P>(old(self)@, Message::WrangleStepDelete(idx)).1,
    {
        reveal(update_spec);
        let ghost expect = update_spec::<F, S, B, I, C, P>(self@, Message::WrangleStepDelete(idx));
        let mut out: Vec<Action<P>> = Vec::new();
        let ghost v = self.wrangle.pipeline@;
        self.wrangle.pipeline.remove(idx);
        assert(self.wrangle.pipeline@ =~= if idx < v.len() {
            v.remove(idx as int)
        } else {
            v
        });
        self.dispatch_pipeline_refresh(&mut out);
        assert(actions_view(out@) =~= expect.1);
        out
    }


    fn on_step_move_up<P>(&mut self, idx: usize) -> (r: Vec<Action<P>>)
        requires
            wf(old(self)@),
        ensures
            final(self)@ == update_spec::<F, S, B, I, C, P>(old(self)@, Message::WrangleStepMoveUp(idx)).0,
            actions_view(r@) == update_spec::<F, S, B, I, C, P>(old(self)@, Message::WrangleStepMoveUp(idx)).1,
    {
        reveal(update_spec);
        let ghost expect = update_spec::<F, S, B, I, C, P>(self@, Message::WrangleStepMoveUp(idx));
        let mut out: Vec<Action<P>> = Vec::new();
        let ghost v = self.wrangle.pipeline@;
        self.wrangle.pipeline.move_up(idx);
        assert(self.wrangle.pipeline@ =~= if 0 < idx < v.len() {
            swap_adjacent(v, idx - 1)
        } else {
            v
        });
        self.dispatch_pipeline_refresh(&mut out);
        assert(actions_view(out@) =~= expect.1);
        out
    }


    fn on_step_move_down<P>(&mut self, idx: usize) -> (r: Vec<Action<P>>)
        requires
            wf(old(self)@),
        ensures
            final(self)@ == update_spec::<F, S, B, I, C, P>(old(self)@, Message::WrangleStepMoveDown(idx)).0,
            actions_view(r@) == update_spec::<F, S, B, I, C, P>(old(self)@, Message::WrangleStepMoveDown(idx)).1,
    {
        reveal(update_spec);
        let ghost expect = update_spec::<F, S, B, I, C, P>(self@, Message::WrangleStepMoveDown(idx));
        let mut out: Vec<Action<P>> = Vec::new();
        let ghost v = self.wrangle.pipeline@;
        self.wrangle.pipeline.move_down(idx);
        assert(self.wrangle.pipeline@ =~= if idx + 1 < v.len() {
            swap_adjacent(v, idx as int)
        } else {
            v
        });
        self.dispatch_pipeline_refresh(&mut out);
        assert(actions_view(out@) =~= expect.1);
        out
    }


    fn on_pipeline_clear<P>(&mut self) -> (r: Vec<Action<P>>)
        requires
            wf(old(self)@),
        ensures
            final(self)@ == update_spec::<F, S, B, I, C, P>(old(self)@, Message::WranglePipelineClear).0,
            actions_view(r@) == update_spec::<F, S, B, I, C, P>(old(self)@, Message::WranglePipelineClear).1,
    {
        reveal(update_spec);
        let ghost expect = update_spec::<F, S, B, I, C, P>(self@, Message::WranglePipelineClear);
        let mut out: Vec<Action<P>> = Vec::new();
        self.wrangle.pipeline = Pipeline::default();
        assert(self.wrangle.pipeline@ =~= Seq::<StepModel>::empty());
        self.dispatch_pipeline_refresh(&mut out);
        assert(actions_view(out@) =~= expect.1);
        out
    }


    fn on_step_select<P>(&mut self, sel: Option<usize>) -> (r: Vec<Action<P>>)
        requires
            wf(old(self)@),
        ensures
            final(self)@ == update_spec::<F, S, B, I, C, P>(old(self)@, Message::WrangleStepSelect(sel)).0,
            actions_view(r@) == update_spec::<F, S, B, I, C, P>(old(self)@, Message::WrangleStepSelect(sel)).1,
    {
        reveal(update_spec);
        let ghost expect = update_spec::<F, S, B, I, C, P>(self@, Message::WrangleStepSelect(sel));
        let mut out: Vec<Action<P>> = Vec::new();
        proof {
            vstd::arithmetic::mul::lemma_mul_basics(self.wrangle.page_size as int);
        }
        let same = match (self.wrangle.selected_step, sel) {
            (None, None) => true,
            (Some(a), Some(b)) => a == b,
            _ => false,
        };
        if same {
            self.wrangle.selected_step = None;
            self.wrangle.diff_before = None;
            self.wrangle.diff_loading = false;
            self.wrangle.page = 0;
            self.dispatch_wrangle_page_load(&mut out);
            self.dispatch_wrangle_recount(&mut out);
        } else {
            self.wrangle.selected_step = sel;
            self.wrangle.page = 0;
            self.dispatch_wrangle_page_load(&mut out);
            self.dispatch_wrangle_recount(&mut out);
            self.dispatch_diff_before(&mut out);
        }
        assert(actions_view(out@) =~= expect.1);
        out
    }


    fn on_diff_before_loaded<P>(&mut self, loaded: Result<B, String>) -> (r: Vec<Action<P>>)
        requires
            wf(old(self)@),
        ensures
            final(self)@ == update_spec::<F, S, B, I, C, P>(old(self)@, Message::WrangleDiffBeforeLoaded(loaded)).0,
            actions_view(r@) == update_spec::<F, S, B, I, C, P>(old(self)@, Message::WrangleDiffBeforeLoaded(loaded)).1,
    {
        reveal(update_spec);
        let ghost expect = update_spec::<F, S, B, I, C, P>(self@, Message::WrangleDiffBeforeLoaded(loaded));
        let mut out: Vec<Action<P>> = Vec::new();
        self.wrangle.diff_loading = false;
        match loaded {
            Ok(b) => {
                self.wrangle.diff_before = Some(b);
            },
            Err(e) => {
                self.wrangle.session_error = Some(e);
            },
        }
        assert(actions_view(out@) =~= expect.1);
        out
    }


    fn on_export_path_picked<P>(&mut self, picked: Option<(P, String)>) -> (r: Vec<Action<P>>)
        requires
            wf(old(self)@),
        ensures
            final(self)@ == update_spec::<F, S, B, I, C, P>(old(self)@, Message::WrangleExportPathPicked(picked)).0,
            actions_view(r@) == update_spec::<F, S, B, I, C, P>(old(self)@, Message::WrangleExportPathPicked(picked)).1,
    {
        reveal(update_spec);
        let ghost expect = update_spec::<F, S, B, I, C, P>(self@, Message::WrangleExportPathPicked(picked));
        let mut out: Vec<Action<P>> = Vec::new();
        match picked {
            None => {},
            Some((path, shown)) => {
                if self.wrangle.session.is_some() {
                    let sql = self.wrangle.pipeline.to_sql();
                    let mut status = owned("Writing ");
                    push_str(&mut status, shown.as_str());
                    push_str(&mut status, "\u{2026}");
                    self.wrangle.export_in_progress = true;
                    self.wrangle.export_status = Some(status);
                    out.push(Action::Export { sql, path });
                }
            },
        }
        assert(actions_view(out@) =~= expect.1);
        out
    }


    fn on_export_completed<P>(&mut self, done: Result<String, String>) -> (r: Vec<Action<P>>)
        requires
            wf(old(self)@),
        ensures
            final(self)@ == update_spec::<F, S, B, I, C, P>(old(self)@, Message::WrangleExportCompleted(done)).0,
            actions_view(r@) == update_spec::<F, S, B, I, C, P>(old(self)@, Message::WrangleExportCompleted(done)).1,
    {
        reveal(update_spec);
        let ghost expect = update_spec::<F, S, B, I, C, P>(self@, Message::WrangleExportCompleted(done));
        let mut out: Vec<Action<P>> = Vec::new();
        let status = match done {
            Ok(shown) => {
                let mut t = owned("Exported to ");
                push_str(&mut t, shown.as_str());
                t
            },
            Err(e) => {
                let mut t = owned("Export failed: ");
                push_str(&mut t, e.as_str());
                t
            },
        };
        self.wrangle.export_in_progress = false;
        self.wrangle.export_status = Some(status);
        assert(actions_view(out@) =~= expect.1);
        out
    }


    fn on_next_page<P>(&mut self) -> (r: Vec<Action<P>>)
        requires
            wf(old(self)@),
        ensures
            final(self)@ == update_spec::<F, S, B, I, C, P>(old(self)@, Message::WrangleNextPage).0,
            actions_view(r@) == update_spec::<F, S, B, I, C, P>(old(self)@, Message::WrangleNextPage).1,
    {
        reveal(update_spec);
        let ghost expect = update_spec::<F, S, B, I, C, P>(self@, Message::WrangleNextPage);
        let mut out: Vec<Action<P>> = Vec::new();
        let total = self.wrangle_total_pages();
        proof {
            lemma_page_le_offset(self.wrangle.page as nat, self.wrangle.page_size as nat);
        }
        if self.wrangle.page + 1 < total {
            proof {
                lemma_next_page_fits(
                    self.wrangle.total_rows,
                    self.wrangle.page as nat,
                    self.wrangle.page_size as nat,
                );
            }
            self.wrangle.page = self.wrangle.page + 1;
            self.dispatch_wrangle_page_load(&mut out);
            self.dispatch_diff_before(&mut out);
        }
        assert(actions_view(out@) =~= expect.1);
        out
    }


    fn on_prev_page<P>(&mut self) -> (r: Vec<Action<P>>)
        requires
            wf(old(self)@),
        ensures
            final(self)@ == update_spec::<F, S, B, I, C, P>(old(self)@, Message::WranglePrevPage).0,
            actions_view(r@) == update_spec::<F, S, B, I, C, P>(old(self)@, Message::WranglePrevPage).1,
    {
        reveal(update_spec);
        let ghost expect = update_spec::<F, S, B, I, C, P>(self@, Message::WranglePrevPage);
        let mut out: Vec<Action<P>> = Vec::new();
        if self.wrangle.page > 0 {
            proof {
                lemma_prev_offset(self.wrangle.page as nat, self.wrangle.page_size as nat);
            }
            self.wrangle.page = self.wrangle.page - 1;
            self.dispatch_wrangle_page_load(&mut out);
            self.dispatch_diff_before(&mut out);
        }
        assert(actions_view(out@) =~= expect.1);
        out
    }


    #[verifier::rlimit(30)]
    fn on_page_size_commit<P>(&mut self) -> (r: Vec<Action<P>>)
        requires
            wf(old(self)@),
        ensures
            final(self)@ == update_spec::<F, S, B, I, C, P>(old(self)@, Message::WranglePageSizeCommit).0,
            actions_view(r@) == update_spec::<F, S, B, I, C, P>(old(self)@, Message::WranglePageSizeCommit).1,
    {
        reveal(update_spec);
        let ghost expect = update_spec::<F, S, B, I, C, P>(self@, Message::WranglePageSizeCommit);
        let mut out: Vec<Action<P>> = Vec::new();
        let parsed = parse_usize_trimmed(self.wrangle.page_size_input.as_str());
        let mut changed = false;
        if let Some(n) = parsed {
            let c: usize = if n < 1 {
                1
            } else if n > MAX_PAGE_SIZE {
                MAX_PAGE_SIZE
            } else {
                n
            };
            if c != self.wrangle.page_size {
                proof {
                    vstd::arithmetic::mul::lemma_mul_basics(c as int);
                }
                let mut input = String::new();
                push_u64(&mut input, c as u64);
                self.wrangle.page_size = c;
                self.wrangle.page = 0;
                self.wrangle.page_size_input = input;
                self.dispatch_wrangle_page_load(&mut out);
                changed = true;
            }
        }
        if !changed {
            let mut input = String::new();
            push_u64(&mut input, self.wrangle.page_size as u64);
            self.wrangle.page_size_input = input;
        }
        assert(actions_view(out@) =~= expect.1);
        out
    }


    fn on_copy_cell<P>(&mut self, value: String) -> (r: Vec<Action<P>>)
        requires
            wf(old(self)@),
        ensures
            final(self)@ == update_spec::<F, S, B, I, C, P>(old(self)@, Message::CopyCell(value)).0,
            actions_view(r@) == update_spec::<F, S, B, I, C, P>(old(self)@, Message::CopyCell(value)).1,
    {
        reveal(update_spec);
        let ghost expect = update_spec::<F, S, B, I, C, P>(self@, Message::CopyCell(value));
        let mut out: Vec<Action<P>> = Vec::new();
        let chars = chars_of(value.as_str());
        let mut notice = owned("Copied: ");
        if chars.len() > COPY_PREVIEW_LIMIT {
            push_range(&mut notice, &chars, 0, COPY_PREVIEW_KEEP);
            push_char(&mut notice, '\u{2026}');
        } else {
            push_str(&mut notice, value.as_str());
        }
        self.copy_notice = Some(notice);
        out.push(Action::CopyToClipboard(value));
        out.push(Action::ClearCopyNoticeLater);
        assert(actions_view(out@) =~= expect.1);
        out
    }

    fn on_open_file_pressed<P>(&mut self) -> (r: Vec<Action<P>>)
        requires
            wf(old(self)@),
        ensures
            final(self)@ == update_spec::<F, S, B, I, C, P>(old(self)@, Message::OpenFilePressed).0,
            actions_view(r@) == update_spec::<F, S, B, I, C, P>(old(self)@, Message::OpenFilePressed).1,
    {
        reveal(update_spec);
        let ghost expect = update_spec::<F, S, B, I, C, P>(self@, Message::OpenFilePressed);
        let mut out: Vec<Action<P>> = Vec::new();
        out.push(Action::PickFile);
        assert(actions_view(out@) =~= expect.1);
        out
    }

    fn on_editor_cancel<P>(&mut self) -> (r: Vec<Action<P>>)
        requires
            wf(old(self)@),
        ensures
            final(self)@ == update_spec::<F, S, B, I, C, P>(old(self)@, Message::WrangleEditorCancel).0,
            actions_view(r@) == update_spec::<F, S, B, I, C, P>(old(self)@, Message::WrangleEditorCancel).1,
    {
        reveal(update_spec);
        let ghost expect = update_spec::<F, S, B, I, C, P>(self@, Message::WrangleEditorCancel);
        let mut out: Vec<Action<P>> = Vec::new();
        self.wrangle.editor = Editor::Closed;
        assert(actions_view(out@) =~= expect.1);
        out
    }

    fn on_export_pressed<P>(&mut self) -> (r: Vec<Action<P>>)
        requires
            wf(old(self)@),
        ensures
            final(self)@ == update_spec::<F, S, B, I, C, P>(old(self)@, Message::WrangleExportPressed).0,
            actions_view(r@) == update_spec::<F, S, B, I, C, P>(old(self)@, Message::WrangleExportPressed).1,
    {
        reveal(update_spec);
        let ghost expect = update_spec::<F, S, B, I, C, P>(self@, Message::WrangleExportPressed);
        let mut out: Vec<Action<P>> = Vec::new();
        if self.wrangle.session.is_some() {
            out.push(Action::PickExportPath);
        }
        assert(actions_view(out@) =~= expect.1);
        out
    }

    fn on_sql_toggle<P>(&mut self) -> (r: Vec<Action<P>>)
        requires
            wf(old(self)@),
        ensures
            final(self)@ == update_spec::<F, S, B, I, C, P>(old(self)@, Message::WrangleSqlToggle).0,
            actions_view(r@) == update_spec::<F, S, B, I, C, P>(old(self)@, Message::WrangleSqlToggle).1,
    {
        reveal(update_spec);
        let ghost expect = update_spec::<F, S, B, I, C, P>(self@, Message::WrangleSqlToggle);
        let mut out: Vec<Action<P>> = Vec::new();
        self.wrangle.sql_collapsed = !self.wrangle.sql_collapsed;
        assert(actions_view(out@) =~= expect.1);
        out
    }

    fn on_sidebar_toggle<P>(&mut self) -> (r: Vec<Action<P>>)
        requires
            wf(old(self)@),
        ensures
            final(self)@ == update_spec::<F, S, B, I, C, P>(old(self)@, Message::WrangleSidebarToggle).0,
            actions_view(r@) == update_spec::<F, S, B, I, C, P>(old(self)@, Message::WrangleSidebarToggle).1,
    {
        reveal(update_spec);
        let ghost expect = update_spec::<F, S, B, I, C, P>(self@, Message::WrangleSidebarToggle);
        let mut out: Vec<Action<P>> = Vec::new();
        self.wrangle.sidebar_collapsed = !self.wrangle.sidebar_collapsed;
        assert(actions_view(out@) =~= expect.1);
        out
    }

    fn on_page_size_input<P>(&mut self, value: String) -> (r: Vec<Action<P>>)
        requires
            wf(old(self)@),
        ensures
            final(self)@ == update_spec::<F, S, B, I, C, P>(old(self)@, Message::WranglePageSizeInput(value)).0,
            actions_view(r@) == update_spec::<F, S, B, I, C, P>(old(self)@, Message::WranglePageSizeInput(value)).1,
    {
        reveal(update_spec);
        let ghost expect = update_spec::<F, S, B, I, C, P>(self@, Message::WranglePageSizeInput(value));
        let mut out: Vec<Action<P>> = Vec::new();
        self.wrangle.page_size_input = value;
        assert(actions_view(out@) =~= expect.1);
        out
    }

    fn on_clear_copy_notice<P>(&mut self) -> (r: Vec<Action<P>>)
        requires
            wf(old(self)@),
        ensures
            final(self)@ == update_spec::<F, S, B, I, C, P>(old(self)@, Message::ClearCopyNotice).0,
            actions_view(r@) == update_spec::<F, S, B, I, C, P>(old(self)@, Message::ClearCopyNotice).1,
    {
        reveal(update_spec);
        let ghost expect = update_spec::<F, S, B, I, C, P>(self@, Message::ClearCopyNotice);
        let mut out: Vec<Action<P>> = Vec::new();
        self.copy_notice = None;
        assert(actions_view(out@) =~= expect.1);
        out
    }

    /// Applies a message: changes the state as `update_spec` says and returns
    /// the work that the message asks for, in order.
    pub fn update<P>(&mut self, message: Message<F, S, B, I, C, P>) -> (actions: Vec<Action<P>>)
        requires
            wf(old(self)@),
        ensures
            final(self)@ == update_spec(old(self)@, message).0,
            actions_view(actions@) == update_spec(old(self)@, message).1,
            wf(final(self)@),
    {
        proof {
            law_update_keeps_wf(self@, message);
        }
        match message {
            Message::OpenFilePressed => self.on_open_file_pressed(),
            Message::FilePicked(p) => self.on_file_picked(p),
            Message::FileLoaded(r) => self.on_file_loaded(r),
            Message::TabSelected(t) => self.on_tab_selected(t),
            Message::RowGroupToggled(i) => self.on_row_group_toggled(i),
            Message::WrangleSessionLoaded(r) => self.on_session_loaded(r),
            Message::WrangleRowCountLoaded(r) => self.on_row_count_loaded(r),
            Message::WranglePageLoaded(r) => self.on_page_loaded(r),
            Message::WrangleInsightsLoaded(r) => self.on_insights_loaded(r),
            Message::WrangleColumnSelected(i) => self.on_column_selected(i),
            Message::WrangleSummaryLoaded(i, r) => self.on_summary_loaded(i, r),
            Message::WrangleEditorOpen(k) => self.on_editor_open(k),
            Message::WrangleEditorCancel => self.on_editor_cancel(),
            Message::WrangleEditorText(f, v) => self.on_editor_text(f, v),
            Message::WrangleEditorBool(f, v) => self.on_editor_bool(f, v),
            Message::WrangleEditorAggFn(f) => self.on_editor_agg_fn(f),
            Message::WrangleEditorCommit => self.on_editor_commit(),
            Message::WrangleStepDelete(i) => self.on_step_delete(i),
            Message::WrangleStepMoveUp(i) => self.on_step_move_up(i),
            Message::WrangleStepMoveDown(i) => self.on_step_move_down(i),
            Message::WrangleStepSelect(sel) => self.on_step_select(sel),
            Message::WrangleDiffBeforeLoaded(r) => self.on_diff_before_loaded(r),
            Message::WranglePipelineClear => self.on_pipeline_clear(),
            Message::WrangleExportPressed => self.on_export_pressed(),
            Message::WrangleExportPathPicked(p) => self.on_export_path_picked(p),
            Message::WrangleExportCompleted(r) => self.on_export_completed(r),
            Message::WrangleSqlToggle => self.on_sql_toggle(),
            Message::WrangleSidebarToggle => self.on_sidebar_toggle(),
            Message::WrangleNextPage => self.on_next_page(),
            Message::WranglePrevPage => self.on_prev_page(),
            Message::WranglePageSizeInput(v) => self.on_page_size_input(v),
            Message::WranglePageSizeCommit => self.on_page_size_commit(),
            Message::CopyCell(v) => self.on_copy_cell(v),
            Message::ClearCopyNotice => self.on_clear_copy_notice(),
        }
    }
}

} // verus!
