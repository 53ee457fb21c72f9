//! Column types of a Parquet file as the viewer shows them: a compact label
//! for table cells and a fully expanded one for tooltips.
use vstd::prelude::*;
use crate::format::{indent_spec, push_indent};
use crate::text::{dec, dec_int, push_i64, push_str, push_u64};

verus! {

#[derive(Debug, Clone, Copy)]
pub enum TimeUnit {
    Second,
    Millisecond,
    Microsecond,
    Nanosecond,
}

#[derive(Debug, Clone, Copy)]
pub enum IntervalUnit {
    YearMonth,
    DayTime,
    MonthDayNano,
}

/// The logical type of a column.
#[derive(Debug)]
pub enum TypeDesc {
    Null,
    Boolean,
    Int8,
    Int16,
    Int32,
    Int64,
    UInt8,
    UInt16,
    UInt32,
    UInt64,
    Float16,
    Float32,
    Float64,
    Timestamp(TimeUnit, Option<String>),
    Date32,
    Date64,
    Time32(TimeUnit),
    Time64(TimeUnit),
    Duration(TimeUnit),
    Interval(IntervalUnit),
    Binary,
    FixedSizeBinary(i32),
    LargeBinary,
    BinaryView,
    Utf8,
    LargeUtf8,
    Utf8View,
    List(Box<FieldDesc>),
    ListView(Box<FieldDesc>),
    FixedSizeList(Box<FieldDesc>, i32),
    LargeList(Box<FieldDesc>),
    LargeListView(Box<FieldDesc>),
    Struct(Vec<FieldDesc>),
    Union,
    Dictionary(Box<TypeDesc>, Box<TypeDesc>),
    Decimal32(u8, i8),
    Decimal64(u8, i8),
    Decimal128(u8, i8),
    Decimal256(u8, i8),
    /// A map; its entries are the child field, a struct of key and value.
    Mapping(Box<FieldDesc>, bool),
    RunEndEncoded(Box<FieldDesc>, Box<FieldDesc>),
}

/// A named child (or column) of a given type.
#[derive(Debug)]
pub struct FieldDesc {
    pub name: String,
    pub data_type: TypeDesc,
    pub nullable: bool,
}

pub open spec fn time_unit_spec(u: TimeUnit) -> Seq<char> {
    match u {
        TimeUnit::Second => "s"@,
        TimeUnit::Millisecond => "ms"@,
        TimeUnit::Microsecond => "\u{b5}s"@,
        TimeUnit::Nanosecond => "ns"@,
    }
}

pub open spec fn interval_unit_spec(u: IntervalUnit) -> Seq<char> {
    match u {
        IntervalUnit::YearMonth => "YearMonth"@,
        IntervalUnit::DayTime => "DayTime"@,
        IntervalUnit::MonthDayNano => "MonthDayNano"@,
    }
}

fn time_unit_label(u: TimeUnit) -> (r: &'static str)
    ensures
        r@ == time_unit_spec(u),
{
    match u {
        TimeUnit::Second => "s",
        TimeUnit::Millisecond => "ms",
        TimeUnit::Microsecond => "\u{b5}s",
        TimeUnit::Nanosecond => "ns",
    }
}

fn interval_unit_label(u: IntervalUnit) -> (r: &'static str)
    ensures
        r@ == interval_unit_spec(u),
{
    match u {
        IntervalUnit::YearMonth => "YearMonth",
        IntervalUnit::DayTime => "DayTime",
        IntervalUnit::MonthDayNano => "MonthDayNano",
    }
}

pub open spec fn decimal_spec(name: Seq<char>, p: u8, s: i8) -> Seq<char> {
    name + "("@ + dec(p as nat) + ", "@ + dec_int(s as int) + ")"@
}

/// Compact, one-line label of a type; a struct shows at most `budget` of
/// its fields, each of those with a budget of one.
pub open spec fn type_label_spec(dt: TypeDesc, budget: nat) -> Seq<char>
    decreases dt, 0nat,
{
    match dt {
        TypeDesc::Null => "Null"@,
        TypeDesc::Boolean => "Bool"@,
        TypeDesc::Int8 => "Int8"@,
        TypeDesc::Int16 => "Int16"@,
        TypeDesc::Int32 => "Int32"@,
        TypeDesc::Int64 => "Int64"@,
        TypeDesc::UInt8 => "UInt8"@,
        TypeDesc::UInt16 => "UInt16"@,
        TypeDesc::UInt32 => "UInt32"@,
        TypeDesc::UInt64 => "UInt64"@,
        TypeDesc::Float16 => "Float16"@,
        TypeDesc::Float32 => "Float32"@,
        TypeDesc::Float64 => "Float64"@,
        TypeDesc::Utf8 => "Utf8"@,
        TypeDesc::LargeUtf8 => "LargeUtf8"@,
        TypeDesc::Utf8View => "Utf8View"@,
        TypeDesc::Binary => "Binary"@,
        TypeDesc::LargeBinary => "LargeBinary"@,
        TypeDesc::BinaryView => "BinaryView"@,
        TypeDesc::FixedSizeBinary(n) => "FixedSizeBinary("@ + dec_int(n as int) + ")"@,
        TypeDesc::Date32 => "Date32"@,
        TypeDesc::Date64 => "Date64"@,
        TypeDesc::Time32(u) => "Time32("@ + time_unit_spec(u) + ")"@,
        TypeDesc::Time64(u) => "Time64("@ + time_unit_spec(u) + ")"@,
        TypeDesc::Timestamp(u, tz) => match tz {
            Some(tz) => "Timestamp("@ + time_unit_spec(u) + ", "@ + tz@ + ")"@,
            None => "Timestamp("@ + time_unit_spec(u) + ")"@,
        },
        TypeDesc::Duration(u) => "Duration("@ + time_unit_spec(u) + ")"@,
        TypeDesc::Interval(u) => "Interval("@ + interval_unit_spec(u) + ")"@,
        TypeDesc::Decimal32(p, s) => decimal_spec("Decimal32"@, p, s),
        TypeDesc::Decimal64(p, s) => decimal_spec("Decimal64"@, p, s),
        TypeDesc::Decimal128(p, s) => decimal_spec("Decimal128"@, p, s),
        TypeDesc::Decimal256(p, s) => decimal_spec("Decimal256"@, p, s),
        TypeDesc::List(f) => "List<"@ + type_label_spec(f.data_type, budget) + ">"@,
        TypeDesc::LargeList(f) => "LargeList<"@ + type_label_spec(f.data_type, budget) + ">"@,
        TypeDesc::ListView(f) => "ListView<"@ + type_label_spec(f.data_type, budget) + ">"@,
        TypeDesc::LargeListView(f) => "LargeListView<"@ + type_label_spec(f.data_type, budget)
            + ">"@,
        TypeDesc::FixedSizeList(f, n) => "FixedSizeList<"@ + type_label_spec(f.data_type, budget)
            + ", "@ + dec_int(n as int) + ">"@,
        TypeDesc::Struct(fields) => {
            let show = if fields@.len() < budget {
                fields@.len()
            } else {
                budget
            };
            "Struct{"@ + struct_fields_label(fields@, show) + (if fields@.len() > show {
                ", \u{2026}"@
            } else {
                ""@
            }) + "}"@
        },
        TypeDesc::Mapping(entry, _) => match entry.data_type {
            TypeDesc::Struct(fs) => if fs@.len() == 2 {
                "Map<"@ + type_label_spec(fs@[0].data_type, 1) + ", "@ + type_label_spec(
                    fs@[1].data_type,
                    1,
                ) + ">"@
            } else {
                "Map<?>"@
            },
            _ => "Map<?>"@,
        },
        TypeDesc::Dictionary(k, v) => "Dict<"@ + type_label_spec(*k, 1) + ", "@ + type_label_spec(
            *v,
            budget,
        ) + ">"@,
        TypeDesc::RunEndEncoded(_, v) => "REE<"@ + type_label_spec(v.data_type, budget) + ">"@,
        TypeDesc::Union => "Union"@,
    }
}

/// `name: label` for the first `k` fields, joined by `, `, each label with a
/// budget of one.
pub open spec fn struct_fields_label(fields: Seq<FieldDesc>, k: nat) -> Seq<char>
    decreases fields, k,
{
    if k == 0 || k > fields.len() {
        Seq::empty()
    } else {
        struct_fields_label(fields, (k - 1) as nat) + (if k > 1 {
            ", "@
        } else {
            ""@
        }) + fields[k - 1].name@ + ": "@ + type_label_spec(fields[k - 1].data_type, 1)
    }
}

fn push_decimal(out: &mut String, name: &str, p: u8, s: i8)
    ensures
        final(out)@ == old(out)@ + decimal_spec(name@, p, s),
{
    let ghost start = out@;
    push_str(out, name);
    push_str(out, "(");
    push_u64(out, p as u64);
    push_str(out, ", ");
    push_i64(out, s as i64);
    push_str(out, ")");
}

fn push_wrapped_label(out: &mut String, open: &str, dt: &TypeDesc, budget: usize, close: &str)
    ensures
        final(out)@ == old(out)@ + (open@ + type_label_spec(*dt, budget as nat) + close@),
    decreases dt, 1nat,
{
    let ghost start = out@;
    push_str(out, open);
    push_type_label(out, dt, budget);
    push_str(out, close);
}

/// Appends the compact label of `dt`.
fn push_type_label(out: &mut String, dt: &TypeDesc, budget: usize)
    ensures
        final(out)@ == old(out)@ + type_label_spec(*dt, budget as nat),
    decreases dt, 0nat,
{
    let ghost start = out@;
    match dt {
        TypeDesc::Null => push_str(out, "Null"),
        TypeDesc::Boolean => push_str(out, "Bool"),
        TypeDesc::Int8 => push_str(out, "Int8"),
        TypeDesc::Int16 => push_str(out, "Int16"),
        TypeDesc::Int32 => push_str(out, "Int32"),
        TypeDesc::Int64 => push_str(out, "Int64"),
        TypeDesc::UInt8 => push_str(out, "UInt8"),
        TypeDesc::UInt16 => push_str(out, "UInt16"),
        TypeDesc::UInt32 => push_str(out, "UInt32"),
        TypeDesc::UInt64 => push_str(out, "UInt64"),
        TypeDesc::Float16 => push_str(out, "Float16"),
        TypeDesc::Float32 => push_str(out, "Float32"),
        TypeDesc::Float64 => push_str(out, "Float64"),
        TypeDesc::Utf8 => push_str(out, "Utf8"),
        TypeDesc::LargeUtf8 => push_str(out, "LargeUtf8"),
        TypeDesc::Utf8View => push_str(out, "Utf8View"),
        TypeDesc::Binary => push_str(out, "Binary"),
        TypeDesc::LargeBinary => push_str(out, "LargeBinary"),
        TypeDesc::BinaryView => push_str(out, "BinaryView"),
        TypeDesc::FixedSizeBinary(n) => {
            push_str(out, "FixedSizeBinary(");
            push_i64(out, *n as i64);
            push_str(out, ")");
        },
        TypeDesc::Date32 => push_str(out, "Date32"),
        TypeDesc::Date64 => push_str(out, "Date64"),
        TypeDesc::Time32(u) => {
            push_str(out, "Time32(");
            push_str(out, time_unit_label(*u));
            push_str(out, ")");
        },
        TypeDesc::Time64(u) => {
            push_str(out, "Time64(");
            push_str(out, time_unit_label(*u));
            push_str(out, ")");
        },
        TypeDesc::Timestamp(u, tz) => {
            push_str(out, "Timestamp(");
            push_str(out, time_unit_label(*u));
            match tz {
                Some(tz) => {
                    push_str(out, ", ");
                    push_str(out, tz.as_str());
                    push_str(out, ")");
                },
                None => {
                    push_str(out, ")");
                },
            }
        },
        TypeDesc::Duration(u) => {
            push_str(out, "Duration(");
            push_str(out, time_unit_label(*u));
            push_str(out, ")");
        },
        TypeDesc::Interval(u) => {
            push_str(out, "Interval(");
            push_str(out, interval_unit_label(*u));
            push_str(out, ")");
        },
        TypeDesc::Decimal32(p, s) => push_decimal(out, "Decimal32", *p, *s),
        TypeDesc::Decimal64(p, s) => push_decimal(out, "Decimal64", *p, *s),
        TypeDesc::Decimal128(p, s) => push_decimal(out, "Decimal128", *p, *s),
        TypeDesc::Decimal256(p, s) => push_decimal(out, "Decimal256", *p, *s),
        TypeDesc::List(f) => push_wrapped_label(out, "List<", &f.data_type, budget, ">"),
        TypeDesc::LargeList(f) => push_wrapped_label(out, "LargeList<", &f.data_type, budget, ">"),
        TypeDesc::ListView(f) => push_wrapped_label(out, "ListView<", &f.data_type, budget, ">"),
        TypeDesc::LargeListView(f) => push_wrapped_label(
            out,
            "LargeListView<",
            &f.data_type,
            budget,
            ">",
        ),
        TypeDesc::FixedSizeList(f, n) => {
            push_str(out, "FixedSizeList<");
            push_type_label(out, &f.data_type, budget);
            push_str(out, ", ");
            push_i64(out, *n as i64);
            push_str(out, ">");
        },
        TypeDesc::Struct(fields) => {
            let show = if fields.len() < budget {
                fields.len()
            } else {
                budget
            };
            push_str(out, "Struct{");
            let mut i: usize = 0;
            while i < show
                invariant
                    i <= show <= fields.len(),
                    *dt == TypeDesc::Struct(*fields),
                    out@ == start + "Struct{"@ + struct_fields_label(fields@, i as nat),
                decreases show - i,
            {
                if i > 0 {
                    push_str(out, ", ");
                } else {
                    push_str(out, "");
                }
                push_str(out, fields[i].name.as_str());
                push_str(out, ": ");
                proof {
                    assert(decreases_to!(*dt => (*dt)->Struct_0));
                    assert(decreases_to!(*fields => fields@[i as int]));
                    assert(decreases_to!(fields@[i as int] => fields@[i as int].data_type));
                }
                push_type_label(out, &fields[i].data_type, 1);
                i += 1;
            }
            if fields.len() > show {
                push_str(out, ", \u{2026}");
            } else {
                push_str(out, "");
            }
            push_str(out, "}");
        },
        TypeDesc::Mapping(entry, _) => {
            match &entry.data_type {
                TypeDesc::Struct(fs) => {
                    if fs.len() == 2 {
                        push_str(out, "Map<");
                        push_type_label(out, &fs[0].data_type, 1);
                        push_str(out, ", ");
                        push_type_label(out, &fs[1].data_type, 1);
                        push_str(out, ">");
                    } else {
                        push_str(out, "Map<?>");
                    }
                },
                _ => push_str(out, "Map<?>"),
            }
        },
        TypeDesc::Dictionary(k, v) => {
            push_str(out, "Dict<");
            push_type_label(out, k, 1);
            push_str(out, ", ");
            push_type_label(out, v, budget);
            push_str(out, ">");
        },
        TypeDesc::RunEndEncoded(_, v) => push_wrapped_label(out, "REE<", &v.data_type, budget, ">"),
        TypeDesc::Union => push_str(out, "Union"),
    }
    assert(out@ =~= start + type_label_spec(*dt, budget as nat));
}

/// Compact, human-friendly type label (one line) suitable for table columns.
pub fn type_label(dt: &TypeDesc) -> (r: String)
    ensures
        r@ == type_label_spec(*dt, 3),
{
    let mut out = String::new();
    push_type_label(&mut out, dt, 3);
    out
}

/// How deeply structs nest inside a type.
pub open spec fn struct_depth(dt: TypeDesc) -> nat
    decreases dt, 0nat,
{
    match dt {
        TypeDesc::Struct(fields) => 1 + fields_struct_depth(fields@, fields@.len()),
        TypeDesc::List(f) => struct_depth(f.data_type),
        TypeDesc::LargeList(f) => struct_depth(f.data_type),
        TypeDesc::FixedSizeList(f, _) => struct_depth(f.data_type),
        TypeDesc::Mapping(entry, _) => match entry.data_type {
            TypeDesc::Struct(fs) => if fs@.len() == 2 {
                let a = struct_depth(fs@[0].data_type);
                let b = struct_depth(fs@[1].data_type);
                if a > b {
                    a
                } else {
                    b
                }
            } else {
                0
            },
            _ => 0,
        },
        _ => 0,
    }
}

pub open spec fn fields_struct_depth(fields: Seq<FieldDesc>, k: nat) -> nat
    decreases fields, k,
{
    if k == 0 || k > fields.len() {
        0
    } else {
        let d = struct_depth(fields[k - 1].data_type);
        let r = fields_struct_depth(fields, (k - 1) as nat);
        if d > r {
            d
        } else {
            r
        }
    }
}

proof fn lemma_fields_struct_depth(fields: Seq<FieldDesc>, k: nat, j: int)
    requires
        0 <= j < k <= fields.len(),
    ensures
        struct_depth(fields[j].data_type) <= fields_struct_depth(fields, k),
    decreases k,
{
    if j < k - 1 {
        lemma_fields_struct_depth(fields, (k - 1) as nat, j);
    }
}

/// Multi-line, fully expanded description of a type whose first line starts
/// at indentation level `indent`: every struct field on its own line.
pub open spec fn type_full_spec(dt: TypeDesc, indent: nat) -> Seq<char>
    decreases dt, 0nat,
{
    match dt {
        TypeDesc::Struct(fields) => "Struct {\n"@ + fields_full(fields@, indent, fields@.len())
            + indent_spec(indent) + "}"@,
        TypeDesc::List(f) => "List<"@ + type_full_spec(f.data_type, indent) + ">"@,
        TypeDesc::LargeList(f) => "LargeList<"@ + type_full_spec(f.data_type, indent) + ">"@,
        TypeDesc::FixedSizeList(f, n) => "FixedSizeList<"@ + type_full_spec(f.data_type, indent)
            + ", "@ + dec_int(n as int) + ">"@,
        TypeDesc::Mapping(entry, _) => match entry.data_type {
            TypeDesc::Struct(fs) => if fs@.len() == 2 {
                "Map<"@ + type_full_spec(fs@[0].data_type, indent) + ", "@ + type_full_spec(
                    fs@[1].data_type,
                    indent,
                ) + ">"@
            } else {
                "Map<?>"@
            },
            _ => "Map<?>"@,
        },
        _ => type_label_spec(dt, 3),
    }
}

/// The lines of the first `k` fields of a struct.
pub open spec fn fields_full(fields: Seq<FieldDesc>, indent: nat, k: nat) -> Seq<char>
    decreases fields, k,
{
    if k == 0 || k > fields.len() {
        Seq::empty()
    } else {
        fields_full(fields, indent, (k - 1) as nat) + indent_spec(indent + 1) + fields[k - 1].name@
            + ": "@ + type_full_spec(fields[k - 1].data_type, indent + 1) + (if fields[k
            - 1].nullable {
            " (nullable)"@
        } else {
            ""@
        }) + "\n"@
    }
}

fn write_type_full(out: &mut String, dt: &TypeDesc, indent: usize)
    requires
        indent + struct_depth(*dt) <= usize::MAX,
    ensures
        final(out)@ == old(out)@ + type_full_spec(*dt, indent as nat),
    decreases dt,
{
    let ghost start = out@;
    match dt {
        TypeDesc::Struct(fields) => {
            push_str(out, "Struct {\n");
            let mut i: usize = 0;
            while i < fields.len()
                invariant
                    i <= fields.len(),
                    *dt == TypeDesc::Struct(*fields),
                    indent + struct_depth(*dt) <= usize::MAX,
                    out@ == start + "Struct {\n"@ + fields_full(fields@, indent as nat, i as nat),
                decreases fields.len() - i,
            {
                proof {
                    lemma_fields_struct_depth(fields@, fields@.len(), i as int);
                    assert(decreases_to!(*dt => (*dt)->Struct_0));
                    assert(decreases_to!(*fields => fields@[i as int]));
                    assert(decreases_to!(fields@[i as int] => fields@[i as int].data_type));
                }
                push_indent(out, indent + 1);
                push_str(out, fields[i].name.as_str());
                push_str(out, ": ");
                write_type_full(out, &fields[i].data_type, indent + 1);
                if fields[i].nullable {
                    push_str(out, " (nullable)");
                } else {
                    push_str(out, "");
                }
                push_str(out, "\n");
                i += 1;
            }
            push_indent(out, indent);
            push_str(out, "}");
        },
        TypeDesc::List(f) => {
            push_str(out, "List<");
            write_type_full(out, &f.data_type, indent);
            push_str(out, ">");
        },
        TypeDesc::LargeList(f) => {
            push_str(out, "LargeList<");
            write_type_full(out, &f.data_type, indent);
            push_str(out, ">");
        },
        TypeDesc::FixedSizeList(f, n) => {
            push_str(out, "FixedSizeList<");
            write_type_full(out, &f.data_type, indent);
            push_str(out, ", ");
            push_i64(out, *n as i64);
            push_str(out, ">");
        },
        TypeDesc::Mapping(entry, _) => {
            match &entry.data_type {
                TypeDesc::Struct(fs) => {
                    if fs.len() == 2 {
                        push_str(out, "Map<");
                        write_type_full(out, &fs[0].data_type, indent);
                        push_str(out, ", ");
                        write_type_full(out, &fs[1].data_type, indent);
                        push_str(out, ">");
                    } else {
                        push_str(out, "Map<?>");
                    }
                },
                _ => push_str(out, "Map<?>"),
            }
        },
        _ => push_type_label(out, dt, 3),
    }
    assert(out@ =~= start + type_full_spec(*dt, indent as nat));
}

/// Multi-line, fully-expanded type description for tooltips.
pub fn type_label_full(dt: &TypeDesc) -> (r: String)
    requires
        struct_depth(*dt) <= usize::MAX,
    ensures
        r@ == type_full_spec(*dt, 0),
{
    let mut out = String::new();
    write_type_full(&mut out, dt, 0);
    out
}

/// Lists, structs and maps: the types whose cells hold other values.
pub open spec fn is_nested_spec(dt: TypeDesc) -> bool {
    match dt {
        TypeDesc::List(_) | TypeDesc::LargeList(_) | TypeDesc::FixedSizeList(_, _)
        | TypeDesc::Struct(_) | TypeDesc::Mapping(_, _) => true,
        _ => false,
    }
}

pub fn is_nested(dt: &TypeDesc) -> (b: bool)
    ensures
        b == is_nested_spec(*dt),
{
    match dt {
        TypeDesc::List(_) | TypeDesc::LargeList(_) | TypeDesc::FixedSizeList(_, _)
        | TypeDesc::Struct(_) | TypeDesc::Mapping(_, _) => true,
        _ => false,
    }
}

} // verus!
