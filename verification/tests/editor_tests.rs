use parquet_ui::editor::{valid_required, Editor, EditorField, EditorKind};
use parquet_ui::wrangle::pipeline::AggFn;

fn form(kind: EditorKind, texts: &[(EditorField, &str)]) -> Editor {
    let mut e = Editor::default_for(kind);
    for (f, v) in texts {
        e.set_text(*f, v.to_string());
    }
    e
}

fn described(e: Editor) -> Option<String> {
    e.into_step().map(|s| s.description())
}

#[test]
fn required_means_not_blank() {
    assert!(valid_required("x"));
    assert!(valid_required("  x "));
    assert!(!valid_required(""));
    assert!(!valid_required(" \t "));
}

#[test]
fn fresh_forms() {
    assert!(matches!(Editor::default_for(EditorKind::Round), Editor::Round { ref column, ref decimals } if column.is_empty() && decimals == "2"));
    assert!(matches!(
        Editor::default_for(EditorKind::GroupByAggregate),
        Editor::GroupByAggregate { agg_fn: AggFn::Count, .. }
    ));
    assert!(matches!(
        Editor::default_for(EditorKind::Sort),
        Editor::Sort { descending: false, nulls_first: false, .. }
    ));
    assert!(matches!(
        Editor::default_for(EditorKind::FindReplace),
        Editor::FindReplace { regex: false, .. }
    ));
    assert!(matches!(Editor::default(), Editor::Closed));
}

#[test]
fn fields_that_a_form_lacks_are_ignored() {
    let mut e = Editor::default_for(EditorKind::Filter);
    e.set_text(EditorField::Column, "ignored".to_string());
    e.set_bool(EditorField::Regex, true);
    e.set_agg_fn(AggFn::Sum);
    assert!(matches!(e, Editor::Filter { ref predicate } if predicate.is_empty()));
    let mut closed = Editor::Closed;
    closed.set_text(EditorField::Column, "x".to_string());
    assert!(matches!(closed, Editor::Closed));
}

#[test]
fn sort_form_makes_a_sort_step() {
    let mut e = form(EditorKind::Sort, &[(EditorField::Column, "price")]);
    e.set_bool(EditorField::Descending, true);
    e.set_bool(EditorField::NullsFirst, true);
    assert_eq!(described(e).as_deref(), Some("Sort by price DESC NULLS FIRST"));
    assert_eq!(described(form(EditorKind::Sort, &[(EditorField::Column, "  ")])), None);
}

#[test]
fn text_forms_need_their_required_fields() {
    assert_eq!(described(form(EditorKind::Filter, &[(EditorField::Predicate, "a > 1")])).as_deref(), Some("Filter rows where a > 1"));
    assert_eq!(described(form(EditorKind::Rename, &[(EditorField::From, "a")])), None);
    assert_eq!(
        described(form(EditorKind::Rename, &[(EditorField::From, "a"), (EditorField::To, "b")])).as_deref(),
        Some("Rename a \u{2192} b")
    );
    assert_eq!(
        described(form(EditorKind::Cast, &[(EditorField::Column, "a"), (EditorField::TargetType, "INT")])).as_deref(),
        Some("Cast a \u{2192} INT")
    );
    assert_eq!(described(form(EditorKind::FillNa, &[(EditorField::Column, "a")])), None);
    assert_eq!(
        described(form(EditorKind::FillNa, &[(EditorField::Column, "a"), (EditorField::Value, "0")])).as_deref(),
        Some("Fill nulls in a with 0")
    );
    assert_eq!(described(form(EditorKind::Lowercase, &[(EditorField::Column, "a")])).as_deref(), Some("Lowercase a"));
    assert_eq!(described(form(EditorKind::Uppercase, &[(EditorField::Column, "a")])).as_deref(), Some("Uppercase a"));
    assert_eq!(described(form(EditorKind::Strip, &[(EditorField::Column, "a")])).as_deref(), Some("Strip whitespace a"));
    assert_eq!(described(form(EditorKind::Floor, &[(EditorField::Column, "a")])).as_deref(), Some("Floor a"));
    assert_eq!(described(form(EditorKind::Ceiling, &[(EditorField::Column, "a")])).as_deref(), Some("Ceiling a"));
    assert_eq!(described(form(EditorKind::Lowercase, &[])), None);
    assert_eq!(
        described(form(EditorKind::TextLength, &[(EditorField::Column, "a"), (EditorField::NewColumn, "n")])).as_deref(),
        Some("n = length(a)")
    );
    assert_eq!(
        described(form(EditorKind::FormulaColumn, &[(EditorField::NewColumn, "c"), (EditorField::Expression, "a+b")])).as_deref(),
        Some("c = a+b")
    );
    assert_eq!(described(form(EditorKind::FormulaColumn, &[(EditorField::NewColumn, "c")])), None);
}

#[test]
fn find_replace_needs_column_and_pattern() {
    let mut e = form(
        EditorKind::FindReplace,
        &[(EditorField::Column, "a"), (EditorField::Pattern, "x"), (EditorField::Replacement, "")],
    );
    e.set_bool(EditorField::Regex, true);
    assert_eq!(described(e).as_deref(), Some("Replace in a: x \u{2192}  (regex)"));
    assert_eq!(described(form(EditorKind::FindReplace, &[(EditorField::Column, "a")])), None);
}

#[test]
fn column_lists_are_split_on_commas() {
    assert_eq!(
        described(form(EditorKind::Drop, &[(EditorField::Columns, "a, b")])).as_deref(),
        Some("Drop columns: a, b")
    );
    assert_eq!(described(form(EditorKind::Drop, &[(EditorField::Columns, " , ")])), None);
    assert_eq!(described(form(EditorKind::DropNa, &[])).as_deref(), Some("Drop rows with any null"));
    assert_eq!(
        described(form(EditorKind::DropNa, &[(EditorField::Columns, "x,y")])).as_deref(),
        Some("Drop rows with null in: x, y")
    );
    assert_eq!(
        described(form(EditorKind::DropDuplicates, &[])).as_deref(),
        Some("Drop duplicate rows (all columns)")
    );
}

#[test]
fn round_needs_an_integer_number_of_decimals() {
    assert_eq!(
        described(form(EditorKind::Round, &[(EditorField::Column, "a")])).as_deref(),
        Some("Round a to 2 decimals")
    );
    assert_eq!(
        described(form(EditorKind::Round, &[(EditorField::Column, "a"), (EditorField::Decimals, " -3 ")])).as_deref(),
        Some("Round a to -3 decimals")
    );
    assert_eq!(described(form(EditorKind::Round, &[(EditorField::Column, "a"), (EditorField::Decimals, "2.5")])), None);
    assert_eq!(described(form(EditorKind::Round, &[(EditorField::Decimals, "1")])), None);
}

#[test]
fn group_by_needs_column_and_alias() {
    let mut e = form(
        EditorKind::GroupByAggregate,
        &[(EditorField::Keys, "k, j"), (EditorField::AggCol, "v"), (EditorField::Alias, "total")],
    );
    e.set_agg_fn(AggFn::Sum);
    assert_eq!(described(e).as_deref(), Some("Group by [k, j] aggregate sum(v) AS total"));
    let no_keys = form(EditorKind::GroupByAggregate, &[(EditorField::AggCol, "v"), (EditorField::Alias, "n")]);
    assert_eq!(described(no_keys).as_deref(), Some("Group by [] aggregate count(v) AS n"));
    assert_eq!(described(form(EditorKind::GroupByAggregate, &[(EditorField::AggCol, "v")])), None);
}

#[test]
fn closed_form_makes_no_step() {
    assert!(Editor::Closed.into_step().is_none());
}
