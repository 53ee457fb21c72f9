//! What the overview shows of a file's schema: the sort order that row
//! groups declare, and the rows for the children of a nested column.
use vstd::prelude::*;
use crate::format::{indent_spec, push_indent};
use crate::text::{join, lemma_join_take, owned, push_str, views};
use crate::types::{
    fields_struct_depth, is_nested, is_nested_spec, struct_depth, type_full_spec, type_label,
    type_label_full, type_label_spec, FieldDesc, TypeDesc,
};

verus! {

// ---------------------------------------------------------------------------
// Sort order
// ---------------------------------------------------------------------------

/// One sorting column that a row group declares.
#[derive(Debug, Clone, Copy, PartialEq, Eq, Structural)]
pub struct SortKey {
    pub column_idx: i32,
    pub descending: bool,
    pub nulls_first: bool,
}

/// The name of column `idx`, or `?` when there is no such column.
pub open spec fn column_name_spec(names: Seq<Seq<char>>, idx: i32) -> Seq<char> {
    if 0 <= idx < names.len() {
        names[idx as int]
    } else {
        "?"@
    }
}

/// `name ASC|DESC NULLS FIRST|LAST`.
pub open spec fn sort_key_spec(names: Seq<Seq<char>>, k: SortKey) -> Seq<char> {
    column_name_spec(names, k.column_idx) + " "@ + (if k.descending {
        "DESC"@
    } else {
        "ASC"@
    }) + " "@ + (if k.nulls_first {
        "NULLS FIRST"@
    } else {
        "NULLS LAST"@
    })
}

pub open spec fn sort_keys_spec(names: Seq<Seq<char>>, cols: Seq<SortKey>) -> Seq<Seq<char>> {
    cols.map_values(|k: SortKey| sort_key_spec(names, k))
}

/// The sort order as the overview states it.
pub open spec fn format_sorting_columns_spec(names: Seq<Seq<char>>, cols: Seq<SortKey>) -> Seq<
    char,
> {
    if cols.len() == 0 {
        "(none specified)"@
    } else {
        join(sort_keys_spec(names, cols), ", "@)
    }
}

fn push_sort_key(out: &mut String, names: &Vec<String>, k: SortKey)
    ensures
        final(out)@ == old(out)@ + sort_key_spec(views(names@), k),
{
    let ghost start = out@;
    if 0 <= k.column_idx && (k.column_idx as usize) < names.len() {
        push_str(out, names[k.column_idx as usize].as_str());
    } else {
        push_str(out, "?");
    }
    push_str(out, " ");
    if k.descending {
        push_str(out, "DESC");
    } else {
        push_str(out, "ASC");
    }
    push_str(out, " ");
    if k.nulls_first {
        push_str(out, "NULLS FIRST");
    } else {
        push_str(out, "NULLS LAST");
    }
}

/// The sorting columns of a row group as `name DIR NULLS`, joined by `, `;
/// `names` are the file's column names.
pub fn format_sorting_columns(names: &Vec<String>, cols: &Vec<SortKey>) -> (r: String)
    ensures
        r@ == format_sorting_columns_spec(views(names@), cols@),
{
    if cols.len() == 0 {
        return owned("(none specified)");
    }
    let ghost parts = sort_keys_spec(views(names@), cols@);
    let mut out = String::new();
    let mut i: usize = 0;
    while i < cols.len()
        invariant
            i <= cols.len(),
            parts == sort_keys_spec(views(names@), cols@),
            out@ == join(parts.take(i as int), ", "@),
        decreases cols.len() - i,
    {
        proof {
            lemma_join_take(parts, ", "@, i as int);
        }
        if i > 0 {
            push_str(&mut out, ", ");
        }
        push_sort_key(&mut out, names, cols[i]);
        i += 1;
    }
    assert(parts.take(cols.len() as int) == parts);
    out
}

pub open spec fn keys_view(g: Option<Vec<SortKey>>) -> Option<Seq<SortKey>> {
    match g {
        Some(v) => Some(v@),
        None => None,
    }
}

/// Whether all row groups declare the same sort order as the first.
pub open spec fn uniform_spec(groups: Seq<Option<Vec<SortKey>>>) -> bool {
    forall|i: int| 0 <= i < groups.len() ==> keys_view(#[trigger] groups[i]) == keys_view(groups[0])
}

/// The sort order of the whole file, as the overview states it.
pub open spec fn sort_order_summary_spec(
    names: Seq<Seq<char>>,
    groups: Seq<Option<Vec<SortKey>>>,
) -> Seq<char> {
    if groups.len() == 0 {
        "(no row groups)"@
    } else if !uniform_spec(groups) {
        "(varies by row group \u{2014} see Row Groups tab)"@
    } else {
        match groups[0] {
            None => "(not specified)"@,
            Some(cols) => format_sorting_columns_spec(names, cols@),
        }
    }
}

fn same_keys(a: &Option<Vec<SortKey>>, b: &Option<Vec<SortKey>>) -> (r: bool)
    ensures
        r == (keys_view(*a) == keys_view(*b)),
{
    match (a, b) {
        (None, None) => true,
        (Some(x), Some(y)) => {
            if x.len() != y.len() {
                return false;
            }
            let mut i: usize = 0;
            while i < x.len()
                invariant
                    i <= x.len(),
                    x.len() == y.len(),
                    keys_view(*a) == Some(x@),
                    keys_view(*b) == Some(y@),
                    forall|j: int| 0 <= j < i ==> x@[j] == y@[j],
                decreases x.len() - i,
            {
                if x[i] != y[i] {
                    assert(x@[i as int] != y@[i as int]);
                    return false;
                }
                i += 1;
            }
            assert(x@ =~= y@);
            true
        },
        _ => false,
    }
}

/// The sort order that the row groups of a file declare: the common one,
/// or a note that there is none or that it varies.
pub fn sort_order_summary(names: &Vec<String>, groups: &Vec<Option<Vec<SortKey>>>) -> (r: String)
    ensures
        r@ == sort_order_summary_spec(views(names@), groups@),
{
    if groups.len() == 0 {
        return owned("(no row groups)");
    }
    let mut i: usize = 0;
    while i < groups.len()
        invariant
            0 < groups.len(),
            i <= groups.len(),
            forall|j: int| 0 <= j < i ==> keys_view(#[trigger] groups@[j]) == keys_view(groups@[0]),
        decreases groups.len() - i,
    {
        if !same_keys(&groups[i], &groups[0]) {
            return owned("(varies by row group \u{2014} see Row Groups tab)");
        }
        i += 1;
    }
    match &groups[0] {
        None => owned("(not specified)"),
        Some(cols) => format_sorting_columns(names, cols),
    }
}

// ---------------------------------------------------------------------------
// Children of nested columns
// ---------------------------------------------------------------------------

/// One row under an expanded nested column.
#[derive(Debug)]
pub struct ChildRow {
    /// The field's name, indented by depth and marked with an arrow.
    pub name: String,
    pub type_label: String,
    pub type_full: String,
    /// `yes` or `no`.
    pub nullable: String,
}

pub struct ChildRowModel {
    pub name: Seq<char>,
    pub type_label: Seq<char>,
    pub type_full: Seq<char>,
    pub nullable: Seq<char>,
}

impl View for ChildRow {
    type V = ChildRowModel;

    open spec fn view(&self) -> ChildRowModel {
        ChildRowModel {
            name: self.name@,
            type_label: self.type_label@,
            type_full: self.type_full@,
            nullable: self.nullable@,
        }
    }
}

/// The row of field `f` at nesting depth `depth`.
pub open spec fn field_row_spec(f: FieldDesc, depth: nat) -> ChildRowModel {
    ChildRowModel {
        name: indent_spec(depth) + "\u{21b3} "@ + f.name@,
        type_label: type_label_spec(f.data_type, 3),
        type_full: type_full_spec(f.data_type, 0),
        nullable: if f.nullable {
            "yes"@
        } else {
            "no"@
        },
    }
}

/// The rows of the children of a column of type `dt`: each child field,
/// followed by its own children when it is nested.
pub open spec fn child_rows_spec(dt: TypeDesc, depth: nat) -> Seq<ChildRowModel>
    decreases dt, 0nat,
{
    match dt {
        TypeDesc::Struct(fields) => fields_rows_spec(fields@, depth, fields@.len()),
        TypeDesc::List(f) => field_rows_spec(*f, depth),
        TypeDesc::LargeList(f) => field_rows_spec(*f, depth),
        TypeDesc::FixedSizeList(f, _) => field_rows_spec(*f, depth),
        TypeDesc::Mapping(entry, _) => match entry.data_type {
            TypeDesc::Struct(fs) => fields_rows_spec(fs@, depth, fs@.len()),
            _ => Seq::empty(),
        },
        _ => Seq::empty(),
    }
}

/// The row of `f` and, when its type is nested, the rows of its children.
pub open spec fn field_rows_spec(f: FieldDesc, depth: nat) -> Seq<ChildRowModel>
    decreases f, 0nat,
{
    seq![field_row_spec(f, depth)] + if is_nested_spec(f.data_type) {
        child_rows_spec(f.data_type, depth + 1)
    } else {
        Seq::empty()
    }
}

/// The rows of the first `k` fields.
pub open spec fn fields_rows_spec(fields: Seq<FieldDesc>, depth: nat, k: nat) -> Seq<
    ChildRowModel,
>
    decreases fields, k,
{
    if k == 0 || k > fields.len() {
        Seq::empty()
    } else {
        fields_rows_spec(fields, depth, (k - 1) as nat) + field_rows_spec(fields[k - 1], depth)
    }
}

/// How many levels of nesting a type has: each struct, list or map adds one
/// above the deepest of its children.
pub open spec fn type_height(dt: TypeDesc) -> nat
    decreases dt, 0nat,
{
    match dt {
        TypeDesc::Struct(fields) => 1 + fields_height(fields@, fields@.len()),
        TypeDesc::List(f) => 1 + type_height(f.data_type),
        TypeDesc::LargeList(f) => 1 + type_height(f.data_type),
        TypeDesc::FixedSizeList(f, _) => 1 + type_height(f.data_type),
        TypeDesc::Mapping(entry, _) => 1 + type_height(entry.data_type),
        _ => 0,
    }
}

/// The greatest height among the first `k` fields.
pub open spec fn fields_height(fields: Seq<FieldDesc>, k: nat) -> nat
    decreases fields, k,
{
    if k == 0 || k > fields.len() {
        0
    } else {
        let a = fields_height(fields, (k - 1) as nat);
        let b = type_height(fields[k - 1].data_type);
        if a > b {
            a
        } else {
            b
        }
    }
}

proof fn lemma_fields_height(fields: Seq<FieldDesc>, k: nat, j: int)
    requires
        0 <= j < k <= fields.len(),
    ensures
        type_height(fields[j].data_type) <= fields_height(fields, k),
    decreases k,
{
    if j < k - 1 {
        lemma_fields_height(fields, (k - 1) as nat, j);
    }
}

proof fn lemma_fields_struct_depth_le(fields: Seq<FieldDesc>, k: nat)
    requires
        k <= fields.len(),
    ensures
        fields_struct_depth(fields, k) <= fields_height(fields, k),
    decreases fields, k,
{
    if k > 0 {
        lemma_fields_struct_depth_le(fields, (k - 1) as nat);
        assert(decreases_to!(fields => fields[k - 1]));
        lemma_struct_depth_le_height(fields[k - 1].data_type);
    }
}

/// Structs nest no deeper than types do.
proof fn lemma_struct_depth_le_height(dt: TypeDesc)
    ensures
        struct_depth(dt) <= type_height(dt),
    decreases dt, 1nat,
{
    match dt {
        TypeDesc::Struct(fields) => {
            assert(decreases_to!(dt => fields));
            lemma_fields_struct_depth_le(fields@, fields@.len());
            assert(struct_depth(dt) == 1 + fields_struct_depth(fields@, fields@.len()));
            assert(type_height(dt) == 1 + fields_height(fields@, fields@.len()));
        },
        TypeDesc::List(f) => {
            lemma_struct_depth_le_height(f.data_type);
        },
        TypeDesc::LargeList(f) => {
            lemma_struct_depth_le_height(f.data_type);
        },
        TypeDesc::FixedSizeList(f, _) => {
            lemma_struct_depth_le_height(f.data_type);
        },
        TypeDesc::Mapping(entry, _) => {
            match entry.data_type {
                TypeDesc::Struct(fs) => {
                    if fs@.len() == 2 {
                        assert(decreases_to!(entry.data_type => fs));
                        lemma_fields_height(fs@, fs@.len(), 0);
                        lemma_fields_height(fs@, fs@.len(), 1);
                        lemma_struct_depth_le_height(fs@[0].data_type);
                        lemma_struct_depth_le_height(fs@[1].data_type);
                    }
                    assert(type_height(entry.data_type) == 1 + fields_height(fs@, fs@.len()));
                },
                _ => {},
            }
        },
        _ => {},
    }
}

pub open spec fn rows_view(rows: Seq<ChildRow>) -> Seq<ChildRowModel> {
    rows.map_values(|r: ChildRow| r@)
}

/// The row of field `f` at nesting depth `depth`, followed by the rows of its
/// children when its type is nested.
pub fn child_row_for_field(f: &FieldDesc, depth: usize) -> (rows: Vec<ChildRow>)
    requires
        depth + 1 + type_height(f.data_type) <= usize::MAX,
    ensures
        rows_view(rows@) == field_rows_spec(*f, depth as nat),
    decreases f, 0nat,
{
    let mut name = String::new();
    push_indent(&mut name, depth);
    push_str(&mut name, "\u{21b3} ");
    push_str(&mut name, f.name.as_str());
    proof {
        lemma_struct_depth_le_height(f.data_type);
    }
    let type_label = type_label(&f.data_type);
    let type_full = type_label_full(&f.data_type);
    let nullable = if f.nullable {
        owned("yes")
    } else {
        owned("no")
    };
    let row = ChildRow { name, type_label, type_full, nullable };
    let mut out: Vec<ChildRow> = Vec::new();
    out.push(row);
    assert(rows_view(out@) == seq![field_row_spec(*f, depth as nat)]);
    if is_nested(&f.data_type) {
        assert(type_height(f.data_type) > 0);
        assert(decreases_to!(*f => f.data_type));
        let mut rest = schema_child_rows(&f.data_type, depth + 1);
        let ghost before = out@;
        out.append(&mut rest);
        assert(rows_view(out@) == rows_view(before) + child_rows_spec(
            f.data_type,
            (depth + 1) as nat,
        ));
    } else {
        assert(field_rows_spec(*f, depth as nat) == seq![field_row_spec(*f, depth as nat)]);
    }
    out
}

/// Appends the rows of `fields`, one field after the other.
fn push_fields_rows(out: &mut Vec<ChildRow>, fields: &Vec<FieldDesc>, depth: usize)
    requires
        depth + fields_height(fields@, fields@.len()) < usize::MAX,
    ensures
        rows_view(final(out)@) == rows_view(old(out)@) + fields_rows_spec(
            fields@,
            depth as nat,
            fields@.len(),
        ),
    decreases fields, 0nat,
{
    let ghost start = old(out)@;
    let mut i: usize = 0;
    while i < fields.len()
        invariant
            i <= fields.len(),
            depth + fields_height(fields@, fields@.len()) < usize::MAX,
            rows_view(out@) == rows_view(start) + fields_rows_spec(fields@, depth as nat, i as nat),
        decreases fields.len() - i,
    {
        proof {
            lemma_fields_height(fields@, fields@.len(), i as int);
        }
        assert(decreases_to!(*fields => fields@[i as int]));
        let mut rows = child_row_for_field(&fields[i], depth);
        let ghost before = out@;
        out.append(&mut rows);
        assert(rows_view(out@) == rows_view(before) + field_rows_spec(fields@[i as int], depth as nat));
        i += 1;
    }
}

/// The rows of the children of a column of type `dt` at nesting depth
/// `depth`: the fields of a struct, the item of a list, the key and value of
/// a map; each followed by its own children.
pub fn schema_child_rows(dt: &TypeDesc, depth: usize) -> (rows: Vec<ChildRow>)
    requires
        depth + type_height(*dt) <= usize::MAX,
    ensures
        rows_view(rows@) == child_rows_spec(*dt, depth as nat),
    decreases dt, 1nat,
{
    let mut out: Vec<ChildRow> = Vec::new();
    match dt {
        TypeDesc::Struct(fields) => {
            assert(decreases_to!(*dt => *fields));
            push_fields_rows(&mut out, fields, depth);
        },
        TypeDesc::List(f) | TypeDesc::LargeList(f) | TypeDesc::FixedSizeList(f, _) => {
            assert(decreases_to!(*dt => **f));
            out = child_row_for_field(f, depth);
        },
        TypeDesc::Mapping(entry, _) => {
            match &entry.data_type {
                TypeDesc::Struct(fs) => {
                    assert(type_height(entry.data_type) == 1 + fields_height(fs@, fs@.len()));
                    assert(decreases_to!(*dt => **entry));
                    assert(decreases_to!(**entry => entry.data_type));
                    assert(decreases_to!(entry.data_type => *fs));
                    push_fields_rows(&mut out, fs, depth);
                },
                _ => {},
            }
        },
        _ => {},
    }
    assert(rows_view(Seq::<ChildRow>::empty()) == Seq::<ChildRowModel>::empty());
    out
}

/// The row that names field `f` at depth `d`: its name indented two spaces
/// per level behind an arrow, its compact and full type labels, and `yes` or
/// `no` for whether it holds nulls.
pub open spec fn shown_row(f: FieldDesc, d: nat) -> ChildRowModel {
    ChildRowModel {
        name: Seq::new(2 * d, |i: int| ' ') + seq!['\u{21b3}', ' '] + f.name@,
        type_label: type_label_spec(f.data_type, 3),
        type_full: type_full_spec(f.data_type, 0),
        nullable: if f.nullable {
            seq!['y', 'e', 's']
        } else {
            seq!['n', 'o']
        },
    }
}

proof fn lemma_field_row_shown(f: FieldDesc, d: nat)
    ensures
        field_row_spec(f, d) == shown_row(f, d),
        field_rows_spec(f, d).len() >= 1,
        field_rows_spec(f, d)[0] == shown_row(f, d),
        !is_nested_spec(f.data_type) ==> field_rows_spec(f, d).len() == 1,
{
    reveal_strlit("\u{21b3} ");
    reveal_strlit("yes");
    reveal_strlit("no");
    assert(indent_spec(d) + "\u{21b3} "@ + f.name@ =~= Seq::new(2 * d, |i: int| ' ') + seq![
        '\u{21b3}',
        ' ',
    ] + f.name@);
    assert("yes"@ =~= seq!['y', 'e', 's']);
    assert("no"@ =~= seq!['n', 'o']);
}

proof fn lemma_fields_rows_start(fields: Seq<FieldDesc>, d: nat, k: nat)
    requires
        1 <= k <= fields.len(),
    ensures
        fields_rows_spec(fields, d, k).len() >= k,
        fields_rows_spec(fields, d, k)[0] == shown_row(fields[0], d),
    decreases k,
{
    lemma_field_row_shown(fields[k - 1], d);
    if k > 1 {
        lemma_fields_rows_start(fields, d, (k - 1) as nat);
    } else {
        lemma_field_row_shown(fields[0], d);
        assert(fields_rows_spec(fields, d, 0) =~= Seq::<ChildRowModel>::empty());
    }
}

/// A list of any kind shows its element field as its first child row (its
/// name, labels and nullability), followed only by the element's own
/// children; a list, a large list and a fixed-size list of the same element
/// show the same rows.
pub proof fn law_list_children_show_the_element(f: FieldDesc, n: i32, d: nat)
    ensures
        ({
            let a = child_rows_spec(TypeDesc::List(Box::new(f)), d);
            &&& a == child_rows_spec(TypeDesc::LargeList(Box::new(f)), d)
            &&& a == child_rows_spec(TypeDesc::FixedSizeList(Box::new(f), n), d)
            &&& a.len() >= 1
            &&& a[0] == shown_row(f, d)
            &&& !is_nested_spec(f.data_type) ==> a.len() == 1
        }),
{
    lemma_field_row_shown(f, d);
}

/// A struct shows a row for each of its fields, the first field first; a map
/// shows the rows of the struct of its entries.
pub proof fn law_struct_and_map_children(
    fields: Vec<FieldDesc>,
    entry_name: String,
    nullable: bool,
    sorted: bool,
    d: nat,
)
    ensures
        fields@.len() >= 1 ==> child_rows_spec(TypeDesc::Struct(fields), d).len() >= fields@.len()
            && child_rows_spec(TypeDesc::Struct(fields), d)[0] == shown_row(fields@[0], d),
        fields@.len() == 0 ==> child_rows_spec(TypeDesc::Struct(fields), d).len() == 0,
        child_rows_spec(
            TypeDesc::Mapping(
                Box::new(
                    FieldDesc { name: entry_name, data_type: TypeDesc::Struct(fields), nullable },
                ),
                sorted,
            ),
            d,
        ) == child_rows_spec(TypeDesc::Struct(fields), d),
{
    if fields@.len() >= 1 {
        lemma_fields_rows_start(fields@, d, fields@.len());
    }
}

} // verus!
