//! The form in which the user describes one pipeline step before adding it.
use vstd::prelude::*;
use crate::text::{csv_items, filled, is_filled, owned, parse_i32_trimmed, parse_int, split_csv, trim};
use crate::wrangle::pipeline::{agg_views, AggFn, Step, StepModel};

verus! {

/// The open step form, with its fields as the user typed them.
#[derive(Debug, Clone)]
pub enum Editor {
    /// No form is open.
    Closed,
    Sort { column: String, descending: bool, nulls_first: bool },
    Filter { predicate: String },
    Drop { columns: String },
    Rename { from: String, to: String },
    Cast { column: String, target_type: String },
    FillNa { column: String, value: String },
    DropNa { columns: String },
    FindReplace { column: String, pattern: String, replacement: String, regex: bool },
    Lowercase { column: String },
    Uppercase { column: String },
    Strip { column: String },
    TextLength { column: String, new_column: String },
    Round { column: String, decimals: String },
    Floor { column: String },
    Ceiling { column: String },
    DropDuplicates { columns: String },
    GroupByAggregate { keys: String, agg_col: String, agg_fn: AggFn, alias: String },
    FormulaColumn { new_column: String, expression: String },
}

#[derive(Debug, Clone, Copy)]
pub enum EditorKind {
    Sort,
    Filter,
    Drop,
    Rename,
    Cast,
    FillNa,
    DropNa,
    FindReplace,
    Lowercase,
    Uppercase,
    Strip,
    TextLength,
    Round,
    Floor,
    Ceiling,
    DropDuplicates,
    GroupByAggregate,
    FormulaColumn,
}

#[derive(Debug, Clone, Copy)]
pub enum EditorField {
    Column,
    Descending,
    NullsFirst,
    Predicate,
    Columns,
    From,
    To,
    TargetType,
    Value,
    Pattern,
    Replacement,
    Regex,
    Decimals,
    NewColumn,
    Keys,
    AggCol,
    Alias,
    Expression,
}

/// A form with its text fields as character sequences.
pub enum EditorModel {
    Closed,
    Sort { column: Seq<char>, descending: bool, nulls_first: bool },
    Filter { predicate: Seq<char> },
    Drop { columns: Seq<char> },
    Rename { from: Seq<char>, to: Seq<char> },
    Cast { column: Seq<char>, target_type: Seq<char> },
    FillNa { column: Seq<char>, value: Seq<char> },
    DropNa { columns: Seq<char> },
    FindReplace { column: Seq<char>, pattern: Seq<char>, replacement: Seq<char>, regex: bool },
    Lowercase { column: Seq<char> },
    Uppercase { column: Seq<char> },
    Strip { column: Seq<char> },
    TextLength { column: Seq<char>, new_column: Seq<char> },
    Round { column: Seq<char>, decimals: Seq<char> },
    Floor { column: Seq<char> },
    Ceiling { column: Seq<char> },
    DropDuplicates { columns: Seq<char> },
    GroupByAggregate { keys: Seq<char>, agg_col: Seq<char>, agg_fn: AggFn, alias: Seq<char> },
    FormulaColumn { new_column: Seq<char>, expression: Seq<char> },
}

impl View for Editor {
    type V = EditorModel;

    open spec fn view(&self) -> EditorModel {
        match self {
            Editor::Closed => EditorModel::Closed,
            Editor::Sort { column, descending, nulls_first } => EditorModel::Sort {
                column: column@,
                descending: *descending,
                nulls_first: *nulls_first,
            },
            Editor::Filter { predicate } => EditorModel::Filter { predicate: predicate@ },
            Editor::Drop { columns } => EditorModel::Drop { columns: columns@ },
            Editor::Rename { from, to } => EditorModel::Rename { from: from@, to: to@ },
            Editor::Cast { column, target_type } => EditorModel::Cast {
                column: column@,
                target_type: target_type@,
            },
            Editor::FillNa { column, value } => EditorModel::FillNa {
                column: column@,
                value: value@,
            },
            Editor::DropNa { columns } => EditorModel::DropNa { columns: columns@ },
            Editor::FindReplace { column, pattern, replacement, regex } => EditorModel::FindReplace {
                column: column@,
                pattern: pattern@,
                replacement: replacement@,
                regex: *regex,
            },
            Editor::Lowercase { column } => EditorModel::Lowercase { column: column@ },
            Editor::Uppercase { column } => EditorModel::Uppercase { column: column@ },
            Editor::Strip { column } => EditorModel::Strip { column: column@ },
            Editor::TextLength { column, new_column } => EditorModel::TextLength {
                column: column@,
                new_column: new_column@,
            },
            Editor::Round { column, decimals } => EditorModel::Round {
                column: column@,
                decimals: decimals@,
            },
            Editor::Floor { column } => EditorModel::Floor { column: column@ },
            Editor::Ceiling { column } => EditorModel::Ceiling { column: column@ },
            Editor::DropDuplicates { columns } => EditorModel::DropDuplicates {
                columns: columns@,
            },
            Editor::GroupByAggregate { keys, agg_col, agg_fn, alias } =>
                EditorModel::GroupByAggregate {
                keys: keys@,
                agg_col: agg_col@,
                agg_fn: *agg_fn,
                alias: alias@,
            },
            Editor::FormulaColumn { new_column, expression } => EditorModel::FormulaColumn {
                new_column: new_column@,
                expression: expression@,
            },
        }
    }
}

impl Default for Editor {
    fn default() -> (e: Editor)
        ensures
            e@ == EditorModel::Closed,
    {
        Editor::Closed
    }
}

/// The empty form of each kind; rounding starts at two decimals.
pub open spec fn default_spec(kind: EditorKind) -> EditorModel {
    let e = Seq::<char>::empty();
    match kind {
        EditorKind::Sort => EditorModel::Sort { column: e, descending: false, nulls_first: false },
        EditorKind::Filter => EditorModel::Filter { predicate: e },
        EditorKind::Drop => EditorModel::Drop { columns: e },
        EditorKind::Rename => EditorModel::Rename { from: e, to: e },
        EditorKind::Cast => EditorModel::Cast { column: e, target_type: e },
        EditorKind::FillNa => EditorModel::FillNa { column: e, value: e },
        EditorKind::DropNa => EditorModel::DropNa { columns: e },
        EditorKind::FindReplace => EditorModel::FindReplace {
            column: e,
            pattern: e,
            replacement: e,
            regex: false,
        },
        EditorKind::Lowercase => EditorModel::Lowercase { column: e },
        EditorKind::Uppercase => EditorModel::Uppercase { column: e },
        EditorKind::Strip => EditorModel::Strip { column: e },
        EditorKind::TextLength => EditorModel::TextLength { column: e, new_column: e },
        EditorKind::Round => EditorModel::Round { column: e, decimals: "2"@ },
        EditorKind::Floor => EditorModel::Floor { column: e },
        EditorKind::Ceiling => EditorModel::Ceiling { column: e },
        EditorKind::DropDuplicates => EditorModel::DropDuplicates { columns: e },
        EditorKind::GroupByAggregate => EditorModel::GroupByAggregate {
            keys: e,
            agg_col: e,
            agg_fn: AggFn::Count,
            alias: e,
        },
        EditorKind::FormulaColumn => EditorModel::FormulaColumn { new_column: e, expression: e },
    }
}

/// The form after the user typed `v` into `field`; a field that the form
/// does not have changes nothing.
pub open spec fn set_text_spec(ed: EditorModel, field: EditorField, v: Seq<char>) -> EditorModel {
    match (ed, field) {
        (EditorModel::Sort { descending, nulls_first, .. }, EditorField::Column) =>
            EditorModel::Sort { column: v, descending, nulls_first },
        (EditorModel::Filter { .. }, EditorField::Predicate) => EditorModel::Filter { predicate: v },
        (EditorModel::Drop { .. }, EditorField::Columns) => EditorModel::Drop { columns: v },
        (EditorModel::Rename { to, .. }, EditorField::From) => EditorModel::Rename { from: v, to },
        (EditorModel::Rename { from, .. }, EditorField::To) => EditorModel::Rename { from, to: v },
        (EditorModel::Cast { target_type, .. }, EditorField::Column) => EditorModel::Cast {
            column: v,
            target_type,
        },
        (EditorModel::Cast { column, .. }, EditorField::TargetType) => EditorModel::Cast {
            column,
            target_type: v,
        },
        (EditorModel::FillNa { value, .. }, EditorField::Column) => EditorModel::FillNa {
            column: v,
            value,
        },
        (EditorModel::FillNa { column, .. }, EditorField::Value) => EditorModel::FillNa {
            column,
            value: v,
        },
        (EditorModel::DropNa { .. }, EditorField::Columns) => EditorModel::DropNa { columns: v },
        (EditorModel::FindReplace { pattern, replacement, regex, .. }, EditorField::Column) =>
            EditorModel::FindReplace { column: v, pattern, replacement, regex },
        (EditorModel::FindReplace { column, replacement, regex, .. }, EditorField::Pattern) =>
            EditorModel::FindReplace { column, pattern: v, replacement, regex },
        (EditorModel::FindReplace { column, pattern, regex, .. }, EditorField::Replacement) =>
            EditorModel::FindReplace { column, pattern, replacement: v, regex },
        (EditorModel::Lowercase { .. }, EditorField::Column) => EditorModel::Lowercase { column: v },
        (EditorModel::Uppercase { .. }, EditorField::Column) => EditorModel::Uppercase { column: v },
        (EditorModel::Strip { .. }, EditorField::Column) => EditorModel::Strip { column: v },
        (EditorModel::TextLength { new_column, .. }, EditorField::Column) =>
            EditorModel::TextLength { column: v, new_column },
        (EditorModel::TextLength { column, .. }, EditorField::NewColumn) =>
            EditorModel::TextLength { column, new_column: v },
        (EditorModel::Round { decimals, .. }, EditorField::Column) => EditorModel::Round {
            column: v,
            decimals,
        },
        (EditorModel::Round { column, .. }, EditorField::Decimals) => EditorModel::Round {
            column,
            decimals: v,
        },
        (EditorModel::Floor { .. }, EditorField::Column) => EditorModel::Floor { column: v },
        (EditorModel::Ceiling { .. }, EditorField::Column) => EditorModel::Ceiling { column: v },
        (EditorModel::DropDuplicates { .. }, EditorField::Columns) =>
            EditorModel::DropDuplicates { columns: v },
        (EditorModel::GroupByAggregate { agg_col, agg_fn, alias, .. }, EditorField::Keys) =>
            EditorModel::GroupByAggregate { keys: v, agg_col, agg_fn, alias },
        (EditorModel::GroupByAggregate { keys, agg_fn, alias, .. }, EditorField::AggCol) =>
            EditorModel::GroupByAggregate { keys, agg_col: v, agg_fn, alias },
        (EditorModel::GroupByAggregate { keys, agg_col, agg_fn, .. }, EditorField::Alias) =>
            EditorModel::GroupByAggregate { keys, agg_col, agg_fn, alias: v },
        (EditorModel::FormulaColumn { expression, .. }, EditorField::NewColumn) =>
            EditorModel::FormulaColumn { new_column: v, expression },
        (EditorModel::FormulaColumn { new_column, .. }, EditorField::Expression) =>
            EditorModel::FormulaColumn { new_column, expression: v },
        _ => ed,
    }
}

/// The form after the user set the check box `field`; a field that the form
/// does not have changes nothing.
pub open spec fn set_bool_spec(ed: EditorModel, field: EditorField, v: bool) -> EditorModel {
    match (ed, field) {
        (EditorModel::Sort { column, nulls_first, .. }, EditorField::Descending) =>
            EditorModel::Sort { column, descending: v, nulls_first },
        (EditorModel::Sort { column, descending, .. }, EditorField::NullsFirst) =>
            EditorModel::Sort { column, descending, nulls_first: v },
        (EditorModel::FindReplace { column, pattern, replacement, .. }, EditorField::Regex) =>
            EditorModel::FindReplace { column, pattern, replacement, regex: v },
        _ => ed,
    }
}

/// The form after the user picked the aggregate function `f`; only the
/// group-by form has one.
pub open spec fn set_agg_fn_spec(ed: EditorModel, f: AggFn) -> EditorModel {
    match ed {
        EditorModel::GroupByAggregate { keys, agg_col, alias, .. } =>
            EditorModel::GroupByAggregate { keys, agg_col, agg_fn: f, alias },
        _ => ed,
    }
}

/// The step that a filled-in form describes, or `None` when a required field
/// holds nothing but white space (or the decimals are not an `i32`).
pub open spec fn into_step_spec(ed: EditorModel) -> Option<StepModel> {
    match ed {
        EditorModel::Closed => None,
        EditorModel::Sort { column, descending, nulls_first } => if filled(column) {
            Some(StepModel::Sort { column, descending, nulls_first })
        } else {
            None
        },
        EditorModel::Filter { predicate } => if filled(predicate) {
            Some(StepModel::Filter { predicate })
        } else {
            None
        },
        EditorModel::Drop { columns } => if csv_items(columns).len() > 0 {
            Some(StepModel::DropColumns { columns: csv_items(columns) })
        } else {
            None
        },
        EditorModel::Rename { from, to } => if filled(from) && filled(to) {
            Some(StepModel::Rename { from, to })
        } else {
            None
        },
        EditorModel::Cast { column, target_type } => if filled(column) && filled(target_type) {
            Some(StepModel::Cast { column, target_type })
        } else {
            None
        },
        EditorModel::FillNa { column, value } => if filled(column) && filled(value) {
            Some(StepModel::FillNa { column, value })
        } else {
            None
        },
        EditorModel::DropNa { columns } => Some(StepModel::DropNa { columns: csv_items(columns) }),
        EditorModel::FindReplace { column, pattern, replacement, regex } => if filled(column)
            && filled(pattern) {
            Some(StepModel::FindReplace { column, pattern, replacement, regex })
        } else {
            None
        },
        EditorModel::Lowercase { column } => if filled(column) {
            Some(StepModel::Lowercase { column })
        } else {
            None
        },
        EditorModel::Uppercase { column } => if filled(column) {
            Some(StepModel::Uppercase { column })
        } else {
            None
        },
        EditorModel::Strip { column } => if filled(column) {
            Some(StepModel::Strip { column })
        } else {
            None
        },
        EditorModel::TextLength { column, new_column } => if filled(column) && filled(new_column) {
            Some(StepModel::TextLength { column, new_column })
        } else {
            None
        },
        EditorModel::Round { column, decimals } => match parse_int(
            trim(decimals),
            i32::MIN as int,
            i32::MAX as int,
        ) {
            None => None,
            Some(d) => if filled(column) {
                Some(StepModel::Round { column, decimals: d as i32 })
            } else {
                None
            },
        },
        EditorModel::Floor { column } => if filled(column) {
            Some(StepModel::Floor { column })
        } else {
            None
        },
        EditorModel::Ceiling { column } => if filled(column) {
            Some(StepModel::Ceiling { column })
        } else {
            None
        },
        EditorModel::DropDuplicates { columns } => Some(
            StepModel::DropDuplicates { columns: csv_items(columns) },
        ),
        EditorModel::GroupByAggregate { keys, agg_col, agg_fn, alias } => if !filled(agg_col)
            || !filled(alias) {
            None
        } else {
            Some(
                StepModel::GroupByAggregate {
                    keys: csv_items(keys),
                    aggregations: seq![(agg_col, agg_fn, alias)],
                },
            )
        },
        EditorModel::FormulaColumn { new_column, expression } => if filled(new_column) && filled(
            expression,
        ) {
            Some(StepModel::FormulaColumn { new_column, expression })
        } else {
            None
        },
    }
}

pub open spec fn step_option_view(o: Option<Step>) -> Option<StepModel> {
    match o {
        Some(s) => Some(s@),
        None => None,
    }
}

/// `!s.trim().is_empty()`.
pub fn valid_required(s: &str) -> (b: bool)
    ensures
        b == filled(s@),
{
    is_filled(s)
}

impl Editor {
    /// The empty form for a kind of step.
    pub fn default_for(kind: EditorKind) -> (e: Editor)
        ensures
            e@ == default_spec(kind),
    {
        match kind {
            EditorKind::Sort => Editor::Sort {
                column: String::new(),
                descending: false,
                nulls_first: false,
            },
            EditorKind::Filter => Editor::Filter { predicate: String::new() },
            EditorKind::Drop => Editor::Drop { columns: String::new() },
            EditorKind::Rename => Editor::Rename { from: String::new(), to: String::new() },
            EditorKind::Cast => Editor::Cast { column: String::new(), target_type: String::new() },
            EditorKind::FillNa => Editor::FillNa { column: String::new(), value: String::new() },
            EditorKind::DropNa => Editor::DropNa { columns: String::new() },
            EditorKind::FindReplace => Editor::FindReplace {
                column: String::new(),
                pattern: String::new(),
                replacement: String::new(),
                regex: false,
            },
            EditorKind::Lowercase => Editor::Lowercase { column: String::new() },
            EditorKind::Uppercase => Editor::Uppercase { column: String::new() },
            EditorKind::Strip => Editor::Strip { column: String::new() },
            EditorKind::TextLength => Editor::TextLength {
                column: String::new(),
                new_column: String::new(),
            },
            EditorKind::Round => Editor::Round { column: String::new(), decimals: owned("2") },
            EditorKind::Floor => Editor::Floor { column: String::new() },
            EditorKind::Ceiling => Editor::Ceiling { column: String::new() },
            EditorKind::DropDuplicates => Editor::DropDuplicates { columns: String::new() },
            EditorKind::GroupByAggregate => Editor::GroupByAggregate {
                keys: String::new(),
                agg_col: String::new(),
                agg_fn: AggFn::Count,
                alias: String::new(),
            },
            EditorKind::FormulaColumn => Editor::FormulaColumn {
                new_column: String::new(),
                expression: String::new(),
            },
        }
    }

    /// Stores the text the user typed into `field`.
    pub fn set_text(&mut self, field: EditorField, value: String)
        ensures
            final(self)@ == set_text_spec(old(self)@, field, value@),
    {
        match (self, field) {
            (Editor::Sort { column, .. }, EditorField::Column) => *column = value,
            (Editor::Filter { predicate }, EditorField::Predicate) => *predicate = value,
            (Editor::Drop { columns }, EditorField::Columns) => *columns = value,
            (Editor::Rename { from, .. }, EditorField::From) => *from = value,
            (Editor::Rename { to, .. }, EditorField::To) => *to = value,
            (Editor::Cast { column, .. }, EditorField::Column) => *column = value,
            (Editor::Cast { target_type, .. }, EditorField::TargetType) => *target_type = value,
            (Editor::FillNa { column, .. }, EditorField::Column) => *column = value,
            (Editor::FillNa { value: v, .. }, EditorField::Value) => *v = value,
            (Editor::DropNa { columns }, EditorField::Columns) => *columns = value,
            (Editor::FindReplace { column, .. }, EditorField::Column) => *column = value,
            (Editor::FindReplace { pattern, .. }, EditorField::Pattern) => *pattern = value,
            (Editor::FindReplace { replacement, .. }, EditorField::Replacement) => {
                *replacement = value
            },
            (Editor::Lowercase { column }, EditorField::Column) => *column = value,
            (Editor::Uppercase { column }, EditorField::Column) => *column = value,
            (Editor::Strip { column }, EditorField::Column) => *column = value,
            (Editor::TextLength { column, .. }, EditorField::Column) => *column = value,
            (Editor::TextLength { new_column, .. }, EditorField::NewColumn) => *new_column = value,
            (Editor::Round { column, .. }, EditorField::Column) => *column = value,
            (Editor::Round { decimals, .. }, EditorField::Decimals) => *decimals = value,
            (Editor::Floor { column }, EditorField::Column) => *column = value,
            (Editor::Ceiling { column }, EditorField::Column) => *column = value,
            (Editor::DropDuplicates { columns }, EditorField::Columns) => *columns = value,
            (Editor::GroupByAggregate { keys, .. }, EditorField::Keys) => *keys = value,
            (Editor::GroupByAggregate { agg_col, .. }, EditorField::AggCol) => *agg_col = value,
            (Editor::GroupByAggregate { alias, .. }, EditorField::Alias) => *alias = value,
            (Editor::FormulaColumn { new_column, .. }, EditorField::NewColumn) => {
                *new_column = value
            },
            (Editor::FormulaColumn { expression, .. }, EditorField::Expression) => {
                *expression = value
            },
            _ => {},
        }
    }

    /// Stores the state of the check box `field`.
    pub fn set_bool(&mut self, field: EditorField, value: bool)
        ensures
            final(self)@ == set_bool_spec(old(self)@, field, value),
    {
        match (self, field) {
            (Editor::Sort { descending, .. }, EditorField::Descending) => *descending = value,
            (Editor::Sort { nulls_first, .. }, EditorField::NullsFirst) => *nulls_first = value,
            (Editor::FindReplace { regex, .. }, EditorField::Regex) => *regex = value,
            _ => {},
        }
    }

    /// Stores the aggregate function picked in the group-by form.
    pub fn set_agg_fn(&mut self, f: AggFn)
        ensures
            final(self)@ == set_agg_fn_spec(old(self)@, f),
    {
        if let Editor::GroupByAggregate { agg_fn, .. } = self {
            *agg_fn = f;
        }
    }

    /// The step that the form describes, or `None` when it is not filled in.
    pub fn into_step(self) -> (r: Option<Step>)
        ensures
            step_option_view(r) == into_step_spec(self@),
    {
        match self {
            Editor::Closed => None,
            Editor::Sort { column, descending, nulls_first } => {
                if valid_required(column.as_str()) {
                    Some(Step::Sort { column, descending, nulls_first })
                } else {
                    None
                }
            },
            Editor::Filter { predicate } => {
                if valid_required(predicate.as_str()) {
                    Some(Step::Filter { predicate })
                } else {
                    None
                }
            },
            Editor::Drop { columns } => {
                let cols = split_csv(columns.as_str());
                if cols.len() > 0 {
                    Some(Step::DropColumns { columns: cols })
                } else {
                    None
                }
            },
            Editor::Rename { from, to } => {
                if valid_required(from.as_str()) && valid_required(to.as_str()) {
                    Some(Step::Rename { from, to })
                } else {
                    None
                }
            },
            Editor::Cast { column, target_type } => {
                if valid_required(column.as_str()) && valid_required(target_type.as_str()) {
                    Some(Step::Cast { column, target_type })
                } else {
                    None
                }
            },
            Editor::FillNa { column, value } => {
                if valid_required(column.as_str()) && valid_required(value.as_str()) {
                    Some(Step::FillNa { column, value })
                } else {
                    None
                }
            },
            Editor::DropNa { columns } => Some(Step::DropNa { columns: split_csv(columns.as_str()) }),
            Editor::FindReplace { column, pattern, replacement, regex } => {
                if valid_required(column.as_str()) && valid_required(pattern.as_str()) {
                    Some(Step::FindReplace { column, pattern, replacement, regex })
                } else {
                    None
                }
            },
            Editor::Lowercase { column } => {
                if valid_required(column.as_str()) {
                    Some(Step::Lowercase { column })
                } else {
                    None
                }
            },
            Editor::Uppercase { column } => {
                if valid_required(column.as_str()) {
                    Some(Step::Uppercase { column })
                } else {
                    None
                }
            },
            Editor::Strip { column } => {
                if valid_required(column.as_str()) {
                    Some(Step::Strip { column })
                } else {
                    None
                }
            },
            Editor::TextLength { column, new_column } => {
                if valid_required(column.as_str()) && valid_required(new_column.as_str()) {
                    Some(Step::TextLength { column, new_column })
                } else {
                    None
                }
            },
            Editor::Round { column, decimals } => {
                let d = match parse_i32_trimmed(decimals.as_str()) {
                    Some(d) => d,
                    None => {
                        return None;
                    },
                };
                if valid_required(column.as_str()) {
                    Some(Step::Round { column, decimals: d })
                } else {
                    None
                }
            },
            Editor::Floor { column } => {
                if valid_required(column.as_str()) {
                    Some(Step::Floor { column })
                } else {
                    None
                }
            },
            Editor::Ceiling { column } => {
                if valid_required(column.as_str()) {
                    Some(Step::Ceiling { column })
                } else {
                    None
                }
            },
            Editor::DropDuplicates { columns } => Some(
                Step::DropDuplicates { columns: split_csv(columns.as_str()) },
            ),
            Editor::GroupByAggregate { keys, agg_col, agg_fn, alias } => {
                let key_list = split_csv(keys.as_str());
                if !valid_required(agg_col.as_str()) || !valid_required(alias.as_str()) {
                    return None;
                }
                let mut aggregations: Vec<(String, AggFn, String)> = Vec::new();
                let ghost col_v = agg_col@;
                let ghost alias_v = alias@;
                aggregations.push((agg_col, agg_fn, alias));
                proof {
                    assert(agg_views(aggregations@) =~= seq![(col_v, agg_fn, alias_v)]);
                }
                Some(Step::GroupByAggregate { keys: key_list, aggregations })
            },
            Editor::FormulaColumn { new_column, expression } => {
                if valid_required(new_column.as_str()) && valid_required(expression.as_str()) {
                    Some(Step::FormulaColumn { new_column, expression })
                } else {
                    None
                }
            },
        }
    }
}

} // verus!
