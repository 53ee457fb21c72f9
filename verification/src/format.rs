//! Text shown for cells and types: JSON for nested cells, one-line previews,
//! type labels, byte sizes and grouped counts.
use vstd::prelude::*;
use crate::text::{
    all_digits, ascii_lower, chars_of, owned, same_text, dec, is_digit, join, lemma_join_take, push_char, push_str,
    push_u64, views,
};

verus! {

// ---------------------------------------------------------------------------
// JSON string escaping
// ---------------------------------------------------------------------------

/// Lower-case hexadecimal digit of `d` (0 to 15).
pub open spec fn hex_digit(d: nat) -> char {
    if d < 10 {
        ((48 + d) as u8) as char
    } else {
        ((87 + d) as u8) as char
    }
}

/// How one character is written inside a JSON string.
pub open spec fn json_escape_char(c: char) -> Seq<char> {
    let n = c as u32;
    if c == '"' {
        seq!['\\', '"']
    } else if c == '\\' {
        seq!['\\', '\\']
    } else if c == '\n' {
        seq!['\\', 'n']
    } else if c == '\r' {
        seq!['\\', 'r']
    } else if c == '\t' {
        seq!['\\', 't']
    } else if n < 0x20 {
        seq!['\\', 'u', '0', '0', hex_digit((n / 16) as nat), hex_digit((n % 16) as nat)]
    } else {
        seq![c]
    }
}

/// The body of a JSON string holding `s`.
pub open spec fn json_escape(s: Seq<char>) -> Seq<char>
    decreases s.len(),
{
    if s.len() == 0 {
        Seq::empty()
    } else {
        json_escape(s.drop_last()) + json_escape_char(s.last())
    }
}

fn hex(d: u32) -> (c: char)
    requires
        d < 16,
    ensures
        c == hex_digit(d as nat),
{
    if d < 10 {
        ((48 + d) as u8) as char
    } else {
        ((87 + d) as u8) as char
    }
}

fn push_json_escaped_char(out: &mut String, c: char)
    ensures
        final(out)@ == old(out)@ + json_escape_char(c),
{
    let ghost start = out@;
    let n = c as u32;
    if c == '"' {
        push_char(out, '\\');
        push_char(out, '"');
    } else if c == '\\' {
        push_char(out, '\\');
        push_char(out, '\\');
    } else if c == '\n' {
        push_char(out, '\\');
        push_char(out, 'n');
    } else if c == '\r' {
        push_char(out, '\\');
        push_char(out, 'r');
    } else if c == '\t' {
        push_char(out, '\\');
        push_char(out, 't');
    } else if n < 0x20 {
        push_char(out, '\\');
        push_char(out, 'u');
        push_char(out, '0');
        push_char(out, '0');
        push_char(out, hex(n / 16));
        push_char(out, hex(n % 16));
    } else {
        push_char(out, c);
    }
    assert(out@ =~= start + json_escape_char(c));
}

/// Appends `s` escaped for use inside a JSON string.
fn push_json_escaped(out: &mut String, s: &str)
    ensures
        final(out)@ == old(out)@ + json_escape(s@),
{
    let ghost start = out@;
    let v = chars_of(s);
    let mut i: usize = 0;
    while i < v.len()
        invariant
            i <= v.len(),
            v@ == s@,
            out@ == start + json_escape(v@.take(i as int)),
        decreases v.len() - i,
    {
        proof {
            assert(v@.take(i + 1).drop_last() == v@.take(i as int));
        }
        push_json_escaped_char(out, v[i]);
        i += 1;
    }
    assert(v@.take(v.len() as int) == v@);
}

/// `s` escaped for use inside a JSON string.
pub fn escape_json(s: &str) -> (r: String)
    ensures
        r@ == json_escape(s@),
{
    let mut out = String::new();
    push_json_escaped(&mut out, s);
    out
}

/// An escaped JSON string body holds no control character.
pub proof fn law_json_escape_has_no_control_chars(s: Seq<char>)
    ensures
        forall|i: int| 0 <= i < json_escape(s).len() ==> (#[trigger] json_escape(s)[i]) as u32
            >= 0x20,
    decreases s.len(),
{
    if s.len() > 0 {
        law_json_escape_has_no_control_chars(s.drop_last());
        let a = json_escape(s.drop_last());
        let b = json_escape_char(s.last());
        assert forall|i: int| 0 <= i < b.len() implies (#[trigger] b[i]) as u32 >= 0x20 by {
            let n = s.last() as u32;
            if n < 0x20 && s.last() != '\n' && s.last() != '\r' && s.last() != '\t' {
                assert((n / 16) < 2 && (n % 16) < 16);
            }
        }
        assert forall|i: int| 0 <= i < (a + b).len() implies ((#[trigger] (a + b)[i]) as u32
            >= 0x20) by {
            if i >= a.len() {
                assert((a + b)[i] == b[i - a.len()]);
            }
        }
    }
}

// ---------------------------------------------------------------------------
// Numbers as `f64::from_str` reads them
// ---------------------------------------------------------------------------

/// Length of the run of ASCII digits at the start of `s`.
pub open spec fn leading_digits(s: Seq<char>) -> nat
    decreases s.len(),
{
    if s.len() > 0 && is_digit(s[0]) {
        1 + leading_digits(s.drop_first())
    } else {
        0
    }
}

/// `Sign? Digit+`, the exponent's digits.
pub open spec fn exponent_ok(x: Seq<char>) -> bool {
    let y = if x.len() > 0 && (x[0] == '+' || x[0] == '-') {
        x.drop_first()
    } else {
        x
    };
    y.len() > 0 && all_digits(y)
}

/// `( Digit+ | Digit+ '.' Digit* | Digit* '.' Digit+ ) Exp?` with
/// `Exp ::= 'e' Sign? Digit+`, letters in either case.
pub open spec fn decimal_number(t: Seq<char>) -> bool {
    let a = leading_digits(t);
    let r1 = t.skip(a as int);
    let has_point = r1.len() > 0 && r1[0] == '.';
    let b = if has_point {
        leading_digits(r1.skip(1))
    } else {
        0
    };
    let r2 = if has_point {
        r1.skip(1 + b as int)
    } else {
        r1
    };
    &&& a + b >= 1
    &&& r2.len() == 0 || (ascii_lower(r2[0]) == 'e' && exponent_ok(r2.skip(1)))
}

/// A number as text: an optional sign, then digits with an optional
/// fraction and exponent. The words that `f64::from_str` also takes (`inf`,
/// `infinity`, `nan`) are no numbers here.
pub open spec fn number_literal(s: Seq<char>) -> bool {
    let t = if s.len() > 0 && (s[0] == '+' || s[0] == '-') {
        s.drop_first()
    } else {
        s
    };
    decimal_number(t)
}

fn digits_from(v: &Vec<char>, from: usize) -> (n: usize)
    requires
        from <= v.len(),
    ensures
        from <= n <= v.len(),
        n - from == leading_digits(v@.skip(from as int)),
{
    let mut i = from;
    while i < v.len() && 48 <= (v[i] as u32) && (v[i] as u32) <= 57
        invariant
            from <= i <= v.len(),
            leading_digits(v@.skip(from as int)) == (i - from) + leading_digits(v@.skip(i as int)),
        decreases v.len() - i,
    {
        assert(v@.skip(i as int).drop_first() == v@.skip(i + 1));
        i += 1;
    }
    i
}

fn is_exponent(v: &Vec<char>, from: usize) -> (b: bool)
    requires
        from <= v.len(),
    ensures
        b == exponent_ok(v@.skip(from as int)),
{
    let ghost x = v@.skip(from as int);
    let start = if from < v.len() && (v[from] == '+' || v[from] == '-') {
        from + 1
    } else {
        from
    };
    assert(v@.skip(start as int) == if x.len() > 0 && (x[0] == '+' || x[0] == '-') {
        x.drop_first()
    } else {
        x
    });
    let end = digits_from(v, start);
    proof {
        let y = v@.skip(start as int);
        lemma_leading_digits_all(y);
    }
    start < end && end == v.len()
}

proof fn lemma_leading_digits_all(y: Seq<char>)
    ensures
        leading_digits(y) <= y.len(),
        (leading_digits(y) == y.len()) == all_digits(y),
        forall|i: int| 0 <= i < leading_digits(y) ==> is_digit(#[trigger] y[i]),
        leading_digits(y) < y.len() ==> !is_digit(y[leading_digits(y) as int]),
    decreases y.len(),
{
    if y.len() > 0 && is_digit(y[0]) {
        lemma_leading_digits_all(y.drop_first());
        assert forall|i: int| 0 <= i < leading_digits(y) implies is_digit(#[trigger] y[i]) by {
            if i > 0 {
                assert(y[i] == y.drop_first()[i - 1]);
            }
        }
        if !all_digits(y.drop_first()) {
            let k = choose|k: int| 0 <= k < y.drop_first().len() && !is_digit(
                #[trigger] y.drop_first()[k],
            );
            assert(!is_digit(y[k + 1]));
        }
        if all_digits(y) {
            assert forall|k: int| 0 <= k < y.drop_first().len() implies is_digit(
                #[trigger] y.drop_first()[k],
            ) by {
                assert(y.drop_first()[k] == y[k + 1]);
            }
        }
    } else if y.len() > 0 {
        assert(!is_digit(y[0]));
    }
}

fn is_decimal_number(v: &Vec<char>, t0: usize) -> (b: bool)
    requires
        t0 <= v.len(),
    ensures
        b == decimal_number(v@.skip(t0 as int)),
{
    let ghost t = v@.skip(t0 as int);
    let p1 = digits_from(v, t0);
    assert(v@.skip(p1 as int) == t.skip((p1 - t0) as int));
    let has_point = p1 < v.len() && v[p1] == '.';
    let mut p2 = p1;
    let mut frac: usize = 0;
    if has_point {
        p2 = digits_from(v, p1 + 1);
        frac = p2 - p1 - 1;
        assert(v@.skip(p1 + 1) == t.skip((p1 - t0) as int).skip(1));
        assert(v@.skip(p2 as int) == t.skip((p1 - t0) as int).skip(1 + frac as int));
    }
    if (p1 - t0) + frac == 0 {
        return false;
    }
    if p2 == v.len() {
        return true;
    }
    let c = v[p2];
    let n = c as u32;
    let lc = if 65 <= n && n <= 90 {
        ((n + 32) as u8) as char
    } else {
        c
    };
    assert(v@.skip(p2 as int)[0] == c);
    assert(v@.skip(p2 as int).skip(1) == v@.skip(p2 + 1));
    lc == 'e' && is_exponent(v, p2 + 1)
}

/// Whether `s` is a number as text (`number_literal`).
pub fn is_number_literal(s: &str) -> (b: bool)
    ensures
        b == number_literal(s@),
{
    let v = chars_of(s);
    let t0: usize = if v.len() > 0 && (v[0] == '+' || v[0] == '-') {
        1
    } else {
        0
    };
    assert(v@.skip(t0 as int) == if s@.len() > 0 && (s@[0] == '+' || s@[0] == '-') {
        s@.drop_first()
    } else {
        s@
    });
    is_decimal_number(&v, t0)
}

// ---------------------------------------------------------------------------
// Nested cells as JSON
// ---------------------------------------------------------------------------

/// A leaf's text as a JSON value: numbers and the booleans pass through;
/// everything else, `null`, `NaN` and `inf` among it, is quoted.
pub open spec fn json_scalar_spec(s: Seq<char>) -> Seq<char> {
    if s == "true"@ || s == "false"@ || number_literal(s) {
        s
    } else {
        seq!['"'] + json_escape(s) + seq!['"']
    }
}

fn push_json_scalar(out: &mut String, s: &str)
    ensures
        final(out)@ == old(out)@ + json_scalar_spec(s@),
{
    if same_text(s, "true") || same_text(s, "false") || is_number_literal(s) {
        push_str(out, s);
    } else {
        let ghost start = out@;
        push_char(out, '"');
        push_json_escaped(out, s);
        push_char(out, '"');
        assert(out@ =~= start + json_scalar_spec(s@));
    }
}

/// Tree node built from a single nested cell, suitable for rendering as an
/// indented tree.
#[derive(Debug)]
pub enum NestedNode {
    Null,
    Leaf(String),
    List(Vec<NestedNode>),
    Struct(Vec<(String, NestedNode)>),
    Mapping(Vec<(NestedNode, NestedNode)>),
}

/// `level` levels of two-space indentation.
pub open spec fn indent_spec(level: nat) -> Seq<char> {
    Seq::new(2 * level, |i: int| ' ')
}

/// Nesting depth of a node: 0 for scalars.
pub open spec fn depth(n: NestedNode) -> nat
    decreases n, 0nat,
{
    match n {
        NestedNode::List(items) => 1 + max_depth(items@, items@.len()),
        NestedNode::Struct(fields) => 1 + max_field_depth(fields@, fields@.len()),
        NestedNode::Mapping(entries) => 1 + max_entry_depth(entries@, entries@.len()),
        _ => 0,
    }
}

pub open spec fn max_depth(items: Seq<NestedNode>, k: nat) -> nat
    decreases items, k,
{
    if k == 0 || k > items.len() {
        0
    } else {
        let d = depth(items[k - 1]);
        let r = max_depth(items, (k - 1) as nat);
        if d > r {
            d
        } else {
            r
        }
    }
}

pub open spec fn max_field_depth(fields: Seq<(String, NestedNode)>, k: nat) -> nat
    decreases fields, k,
{
    if k == 0 || k > fields.len() {
        0
    } else {
        let d = depth(fields[k - 1].1);
        let r = max_field_depth(fields, (k - 1) as nat);
        if d > r {
            d
        } else {
            r
        }
    }
}

pub open spec fn max_entry_depth(entries: Seq<(NestedNode, NestedNode)>, k: nat) -> nat
    decreases entries, k,
{
    if k == 0 || k > entries.len() {
        0
    } else {
        let d0 = depth(entries[k - 1].0);
        let d1 = depth(entries[k - 1].1);
        let d = if d0 > d1 {
            d0
        } else {
            d1
        };
        let r = max_entry_depth(entries, (k - 1) as nat);
        if d > r {
            d
        } else {
            r
        }
    }
}

/// The indented JSON text of a node whose first line starts at indentation
/// level `indent`.
pub open spec fn json_spec(n: NestedNode, indent: nat) -> Seq<char>
    decreases n, 0nat,
{
    match n {
        NestedNode::Null => "null"@,
        NestedNode::Leaf(s) => json_scalar_spec(s@),
        NestedNode::List(items) => if items@.len() == 0 {
            "[]"@
        } else {
            "["@ + json_list_body(items@, indent, items@.len()) + "\n"@ + indent_spec(indent) + "]"@
        },
        NestedNode::Struct(fields) => if fields@.len() == 0 {
            "{}"@
        } else {
            "{"@ + json_struct_body(fields@, indent, fields@.len()) + "\n"@ + indent_spec(indent)
                + "}"@
        },
        NestedNode::Mapping(entries) => if entries@.len() == 0 {
            "{}"@
        } else {
            "{"@ + json_map_body(entries@, indent, entries@.len()) + "\n"@ + indent_spec(indent)
                + "}"@
        },
    }
}

/// The separator before the `i`-th member of a JSON array or object.
pub open spec fn member_sep(i: nat) -> Seq<char> {
    if i > 0 {
        ",\n"@
    } else {
        "\n"@
    }
}

/// The first `k` items of a JSON array, each on its own line.
pub open spec fn json_list_body(items: Seq<NestedNode>, indent: nat, k: nat) -> Seq<char>
    decreases items, k,
{
    if k == 0 || k > items.len() {
        Seq::empty()
    } else {
        json_list_body(items, indent, (k - 1) as nat) + member_sep((k - 1) as nat) + indent_spec(
            indent + 1,
        ) + json_spec(items[k - 1], indent + 1)
    }
}

/// The first `k` members of a JSON object built from named fields.
pub open spec fn json_struct_body(fields: Seq<(String, NestedNode)>, indent: nat, k: nat) -> Seq<
    char,
>
    decreases fields, k,
{
    if k == 0 || k > fields.len() {
        Seq::empty()
    } else {
        json_struct_body(fields, indent, (k - 1) as nat) + member_sep((k - 1) as nat)
            + indent_spec(indent + 1) + "\""@ + json_escape(fields[k - 1].0@) + "\": "@ + json_spec(
            fields[k - 1].1,
            indent + 1,
        )
    }
}

/// The text that names a map entry: a scalar key as it is, a missing key
/// as `null`, a nested key as its own JSON text.
pub open spec fn map_key_text(k: NestedNode) -> Seq<char>
    decreases k, 1nat,
{
    match k {
        NestedNode::Leaf(s) => s@,
        NestedNode::Null => "null"@,
        _ => json_spec(k, 0),
    }
}

/// The first `k` members of a JSON object built from map entries.
pub open spec fn json_map_body(entries: Seq<(NestedNode, NestedNode)>, indent: nat, k: nat) -> Seq<
    char,
>
    decreases entries, k,
{
    if k == 0 || k > entries.len() {
        Seq::empty()
    } else {
        json_map_body(entries, indent, (k - 1) as nat) + member_sep((k - 1) as nat) + indent_spec(
            indent + 1,
        ) + "\""@ + json_escape(map_key_text(entries[k - 1].0)) + "\": "@ + json_spec(
            entries[k - 1].1,
            indent + 1,
        )
    }
}

proof fn lemma_max_depth(items: Seq<NestedNode>, k: nat, j: int)
    requires
        0 <= j < k <= items.len(),
    ensures
        depth(items[j]) <= max_depth(items, k),
    decreases k,
{
    if j < k - 1 {
        lemma_max_depth(items, (k - 1) as nat, j);
    }
}

proof fn lemma_max_field_depth(fields: Seq<(String, NestedNode)>, k: nat, j: int)
    requires
        0 <= j < k <= fields.len(),
    ensures
        depth(fields[j].1) <= max_field_depth(fields, k),
    decreases k,
{
    if j < k - 1 {
        lemma_max_field_depth(fields, (k - 1) as nat, j);
    }
}

proof fn lemma_max_entry_depth(entries: Seq<(NestedNode, NestedNode)>, k: nat, j: int)
    requires
        0 <= j < k <= entries.len(),
    ensures
        depth(entries[j].0) <= max_entry_depth(entries, k),
        depth(entries[j].1) <= max_entry_depth(entries, k),
    decreases k,
{
    if j < k - 1 {
        lemma_max_entry_depth(entries, (k - 1) as nat, j);
    }
}

/// Appends `level` levels of two-space indentation.
pub fn push_indent(out: &mut String, level: usize)
    ensures
        final(out)@ == old(out)@ + indent_spec(level as nat),
{
    let ghost start = out@;
    let mut i: usize = 0;
    while i < level
        invariant
            i <= level,
            out@ == start + indent_spec(i as nat),
        decreases level - i,
    {
        push_str(out, "  ");
        proof {
            reveal_strlit("  ");
            assert(indent_spec(i as nat) + "  "@ =~= indent_spec((i + 1) as nat));
        }
        i += 1;
    }
}

fn member_separator(i: usize) -> (r: &'static str)
    ensures
        r@ == member_sep(i as nat),
{
    if i > 0 {
        ",\n"
    } else {
        "\n"
    }
}

impl NestedNode {
    /// The node as indented JSON text.
    pub fn to_json_string(&self) -> (r: String)
        requires
            depth(*self) <= usize::MAX,
        ensures
            r@ == json_spec(*self, 0),
    {
        let mut out = String::new();
        self.write_json(&mut out, 0);
        out
    }

    /// The text naming a map entry whose key is this node.
    fn map_key_string(&self) -> (r: String)
        requires
            depth(*self) <= usize::MAX,
        ensures
            r@ == map_key_text(*self),
        decreases self, 1nat,
    {
        let mut key_text = String::new();
        match self {
            NestedNode::Leaf(s) => push_str(&mut key_text, s.as_str()),
            NestedNode::Null => push_str(&mut key_text, "null"),
            _ => self.write_json(&mut key_text, 0),
        }
        assert(Seq::<char>::empty() + key_text@ == key_text@);
        key_text
    }

    fn write_json(&self, out: &mut String, indent: usize)
        requires
            indent + depth(*self) <= usize::MAX,
        ensures
            final(out)@ == old(out)@ + json_spec(*self, indent as nat),
        decreases self, 0nat,
    {
        let ghost start = out@;
        match self {
            NestedNode::Null => {
                push_str(out, "null");
            },
            NestedNode::Leaf(s) => {
                push_json_scalar(out, s.as_str());
            },
            NestedNode::List(items) => {
                if items.len() == 0 {
                    push_str(out, "[]");
                    return ;
                }
                push_str(out, "[");
                let mut i: usize = 0;
                while i < items.len()
                    invariant
                        i <= items.len(),
                        *self == NestedNode::List(*items),
                        indent + depth(*self) <= usize::MAX,
                        out@ == start + "["@ + json_list_body(items@, indent as nat, i as nat),
                    decreases items.len() - i,
                {
                    proof {
                        lemma_max_depth(items@, items@.len(), i as int);
                    }
                    push_str(out, member_separator(i));
                    push_indent(out, indent + 1);
                    items[i].write_json(out, indent + 1);
                    i += 1;
                }
                push_str(out, "\n");
                push_indent(out, indent);
                push_str(out, "]");
            },
            NestedNode::Struct(fields) => {
                if fields.len() == 0 {
                    push_str(out, "{}");
                    return ;
                }
                push_str(out, "{");
                let mut i: usize = 0;
                while i < fields.len()
                    invariant
                        i <= fields.len(),
                        *self == NestedNode::Struct(*fields),
                        indent + depth(*self) <= usize::MAX,
                        out@ == start + "{"@ + json_struct_body(
                            fields@,
                            indent as nat,
                            i as nat,
                        ),
                    decreases fields.len() - i,
                {
                    proof {
                        lemma_max_field_depth(fields@, fields@.len(), i as int);
                    }
                    push_str(out, member_separator(i));
                    push_indent(out, indent + 1);
                    push_str(out, "\"");
                    push_json_escaped(out, fields[i].0.as_str());
                    push_str(out, "\": ");
                    fields[i].1.write_json(out, indent + 1);
                    i += 1;
                }
                push_str(out, "\n");
                push_indent(out, indent);
                push_str(out, "}");
            },
            NestedNode::Mapping(entries) => {
                if entries.len() == 0 {
                    push_str(out, "{}");
                    return ;
                }
                push_str(out, "{");
                let mut i: usize = 0;
                while i < entries.len()
                    invariant
                        i <= entries.len(),
                        *self == NestedNode::Mapping(*entries),
                        indent + depth(*self) <= usize::MAX,
                        out@ == start + "{"@ + json_map_body(
                            entries@,
                            indent as nat,
                            i as nat,
                        ),
                    decreases entries.len() - i,
                {
                    proof {
                        lemma_max_entry_depth(entries@, entries@.len(), i as int);
                    }
                    push_str(out, member_separator(i));
                    push_indent(out, indent + 1);
                    let key_text = entries[i].0.map_key_string();
                    push_str(out, "\"");
                    push_json_escaped(out, key_text.as_str());
                    push_str(out, "\": ");
                    entries[i].1.write_json(out, indent + 1);
                    i += 1;
                }
                push_str(out, "\n");
                push_indent(out, indent);
                push_str(out, "}");
            },
        }
    }
}

// ---------------------------------------------------------------------------
// One-line previews of nested cells
// ---------------------------------------------------------------------------

/// Lists and maps longer than this show their length instead of their items.
pub const PREVIEW_INLINE_LEN: usize = 3;

/// At most this many fields of a struct are shown.
pub const PREVIEW_INLINE_STRUCT_FIELDS: usize = 3;

/// `a[i]: b[i]` for the first `n` positions.
pub open spec fn pairs_spec(a: Seq<Seq<char>>, b: Seq<Seq<char>>, n: nat) -> Seq<Seq<char>> {
    Seq::new(n, |i: int| a[i] + ": "@ + b[i])
}

/// Preview of a list of `n` items whose first items render as `items`.
pub open spec fn list_render_spec(n: nat, items: Seq<Seq<char>>) -> Seq<char> {
    if n == 0 {
        "[]"@
    } else if n > 3 {
        "["@ + dec(n) + " items]"@
    } else {
        "["@ + join(items, ", "@) + "]"@
    }
}

/// Preview of a struct with the given field names whose first fields
/// render as `values`.
pub open spec fn struct_render_spec(names: Seq<Seq<char>>, values: Seq<Seq<char>>) -> Seq<char> {
    let show = if names.len() < 3 {
        names.len()
    } else {
        3
    };
    if names.len() == 0 {
        "{}"@
    } else {
        "{"@ + join(pairs_spec(names, values, show), ", "@) + (if names.len() > show {
            ", \u{2026}"@
        } else {
            ""@
        }) + "}"@
    }
}

/// Preview of a map of `n` entries whose first entries render as
/// `keys[i]: values[i]`.
pub open spec fn map_render_spec(n: nat, keys: Seq<Seq<char>>, values: Seq<Seq<char>>) -> Seq<
    char,
> {
    if n == 0 {
        "{}"@
    } else if n > 3 {
        "{"@ + dec(n) + " entries}"@
    } else {
        "{"@ + join(pairs_spec(keys, values, n), ", "@) + "}"@
    }
}

/// A list or map of one to three values is shown whole, every value in
/// order and separated by `, `, a map's as `key: value`; a longer one is
/// shown by its count, and an empty one as `[]` or `{}`.
pub proof fn law_short_previews_show_every_entry(
    n: nat,
    keys: Seq<Seq<char>>,
    values: Seq<Seq<char>>,
)
    ensures
        1 <= n <= PREVIEW_INLINE_LEN ==> map_render_spec(n, keys, values) == seq!['{'] + join(
            Seq::new(n, |i: int| keys[i] + seq![':', ' '] + values[i]),
            seq![',', ' '],
        ) + seq!['}'],
        1 <= n <= PREVIEW_INLINE_LEN ==> list_render_spec(n, values) == seq!['['] + join(
            values,
            seq![',', ' '],
        ) + seq![']'],
        n > PREVIEW_INLINE_LEN ==> map_render_spec(n, keys, values) == seq!['{'] + dec(n)
            + " entries}"@,
        n > PREVIEW_INLINE_LEN ==> list_render_spec(n, values) == seq!['['] + dec(n)
            + " items]"@,
        n == 0 ==> map_render_spec(n, keys, values) == seq!['{', '}'],
        n == 0 ==> list_render_spec(n, values) == seq!['[', ']'],
{
    reveal_strlit("{");
    reveal_strlit("}");
    reveal_strlit("[");
    reveal_strlit("]");
    reveal_strlit(", ");
    reveal_strlit(": ");
    reveal_strlit("{}");
    reveal_strlit("[]");
    assert(", "@ =~= seq![',', ' ']);
    assert(": "@ =~= seq![':', ' ']);
    assert("{}"@ =~= seq!['{', '}']);
    assert("[]"@ =~= seq!['[', ']']);
    assert("{"@ =~= seq!['{']);
    assert("}"@ =~= seq!['}']);
    assert("["@ =~= seq!['[']);
    assert("]"@ =~= seq![']']);
    assert(pairs_spec(keys, values, n) =~= Seq::new(n, |i: int| keys[i] + seq![':', ' '] + values[i]));
}

/// Appends `a[i]: b[i]` for `i < n`, joined by `, `.
fn push_pairs(out: &mut String, a: &Vec<String>, b: &Vec<String>, n: usize)
    requires
        n <= a.len(),
        n <= b.len(),
    ensures
        final(out)@ == old(out)@ + join(pairs_spec(views(a@), views(b@), n as nat), ", "@),
{
    let ghost start = out@;
    let ghost parts = pairs_spec(views(a@), views(b@), n as nat);
    let mut i: usize = 0;
    while i < n
        invariant
            i <= n <= a.len(),
            n <= b.len(),
            parts == pairs_spec(views(a@), views(b@), n as nat),
            out@ == start + join(parts.take(i as int), ", "@),
        decreases n - i,
    {
        proof {
            lemma_join_take(parts, ", "@, i as int);
        }
        if i > 0 {
            push_str(out, ", ");
        }
        let ghost before = out@;
        push_str(out, a[i].as_str());
        push_str(out, ": ");
        push_str(out, b[i].as_str());
        assert(out@ =~= before + parts[i as int]);
        i += 1;
    }
    assert(parts.take(n as int) == parts);
}

/// Appends the pieces joined by `, `.
fn push_joined(out: &mut String, parts: &Vec<String>)
    ensures
        final(out)@ == old(out)@ + join(views(parts@), ", "@),
{
    let ghost start = out@;
    let ghost ps = views(parts@);
    let mut i: usize = 0;
    while i < parts.len()
        invariant
            i <= parts.len(),
            ps == views(parts@),
            out@ == start + join(ps.take(i as int), ", "@),
        decreases parts.len() - i,
    {
        proof {
            lemma_join_take(ps, ", "@, i as int);
        }
        if i > 0 {
            push_str(out, ", ");
        }
        push_str(out, parts[i].as_str());
        i += 1;
    }
    assert(ps.take(parts.len() as int) == ps);
}

/// Compact preview of a list of `n` values; `items` holds the previews of
/// the values when there are at most three of them.
pub fn list_render(n: usize, items: &Vec<String>) -> (r: String)
    requires
        1 <= n <= 3 ==> items.len() == n,
    ensures
        r@ == list_render_spec(n as nat, views(items@)),
{
    if n == 0 {
        return owned("[]");
    }
    let mut out = String::new();
    if n > PREVIEW_INLINE_LEN {
        push_str(&mut out, "[");
        push_u64(&mut out, n as u64);
        push_str(&mut out, " items]");
        return out;
    }
    push_str(&mut out, "[");
    push_joined(&mut out, items);
    push_str(&mut out, "]");
    out
}

/// Compact preview of a struct value: its first three fields as
/// `name: value`, then `, …` when there are more. `values` holds the
/// previews of the fields shown.
pub fn struct_render(names: &Vec<String>, values: &Vec<String>) -> (r: String)
    requires
        values.len() == if names.len() < 3 {
            names.len()
        } else {
            3
        },
    ensures
        r@ == struct_render_spec(views(names@), views(values@)),
{
    if names.len() == 0 {
        return owned("{}");
    }
    let show = if names.len() < PREVIEW_INLINE_STRUCT_FIELDS {
        names.len()
    } else {
        PREVIEW_INLINE_STRUCT_FIELDS
    };
    let mut out = String::new();
    push_str(&mut out, "{");
    push_pairs(&mut out, names, values, show);
    if names.len() > show {
        push_str(&mut out, ", \u{2026}");
    } else {
        push_str(&mut out, "");
    }
    push_str(&mut out, "}");
    out
}

/// Compact preview of a map value of `n` entries; `keys` and `values` hold
/// the previews of the entries when there are at most three of them.
pub fn map_render(n: usize, keys: &Vec<String>, values: &Vec<String>) -> (r: String)
    requires
        1 <= n <= 3 ==> keys.len() == n && values.len() == n,
    ensures
        r@ == map_render_spec(n as nat, views(keys@), views(values@)),
{
    if n == 0 {
        return owned("{}");
    }
    let mut out = String::new();
    if n > PREVIEW_INLINE_LEN {
        push_str(&mut out, "{");
        push_u64(&mut out, n as u64);
        push_str(&mut out, " entries}");
        return out;
    }
    push_str(&mut out, "{");
    push_pairs(&mut out, keys, values, n);
    push_str(&mut out, "}");
    out
}

// ---------------------------------------------------------------------------
// Counts with thousands separators
// ---------------------------------------------------------------------------

/// Decimal digits grouped by threes from the right, groups separated by `,`.
pub open spec fn grouped(d: Seq<char>) -> Seq<char>
    decreases d.len(),
{
    if d.len() <= 3 {
        d
    } else {
        grouped(d.take(d.len() - 3)) + seq![','] + d.skip(d.len() - 3)
    }
}

/// A count as the data grid shows it: `-` for negatives, digits in groups
/// of three.
pub open spec fn format_count_spec(n: int) -> Seq<char> {
    if n < 0 {
        seq!['-'] + grouped(dec((-n) as nat))
    } else {
        grouped(dec(n as nat))
    }
}

pub proof fn lemma_dec_len(n: nat)
    ensures
        dec(n).len() >= 1,
        forall|i: int| 0 <= i < dec(n).len() ==> is_digit(#[trigger] dec(n)[i]),
    decreases n,
{
    if n >= 10 {
        lemma_dec_len(n / 10);
        assert forall|i: int| 0 <= i < dec(n).len() implies is_digit(#[trigger] dec(n)[i]) by {
            if i < dec(n / 10).len() {
                assert(dec(n)[i] == dec(n / 10)[i]);
            }
        }
    }
}

/// `n` with thousands separators.
pub fn format_count(n: i64) -> (r: String)
    ensures
        r@ == format_count_spec(n as int),
{
    let neg = n < 0;
    let abs: u64 = if neg {
        ((-(n + 1)) as u64) + 1
    } else {
        n as u64
    };
    let digits = crate::text::u64_string(abs);
    let d = chars_of(digits.as_str());
    proof {
        lemma_dec_len(abs as nat);
    }
    let len = d.len();
    let first = if len % 3 == 0 {
        3
    } else {
        len % 3
    };
    let mut out = String::new();
    if neg {
        push_char(&mut out, '-');
    }
    let ghost start = out@;
    crate::text::push_range(&mut out, &d, 0, first);
    assert(d@.subrange(0, first as int) == d@.take(first as int));
    let mut j = first;
    while j < len
        invariant
            first <= j <= len,
            len == d@.len(),
            1 <= first <= 3,
            (j - first) % 3 == 0,
            len % 3 == first % 3,
            out@ == start + grouped(d@.take(j as int)),
        decreases len - j,
    {
        assert(j + 3 <= len);
        push_char(&mut out, ',');
        crate::text::push_range(&mut out, &d, j, j + 3);
        proof {
            let t = d@.take(j + 3);
            assert(t.take(t.len() - 3) == d@.take(j as int));
            assert(t.skip(t.len() - 3) == d@.subrange(j as int, j + 3));
        }
        j += 3;
    }
    assert(d@.take(len as int) == d@);
    out
}

/// `s` without its `,` characters.
pub open spec fn strip_commas(s: Seq<char>) -> Seq<char>
    decreases s.len(),
{
    if s.len() == 0 {
        Seq::empty()
    } else if s.last() == ',' {
        strip_commas(s.drop_last())
    } else {
        strip_commas(s.drop_last()).push(s.last())
    }
}

proof fn lemma_strip_commas_add(a: Seq<char>, b: Seq<char>)
    ensures
        strip_commas(a + b) == strip_commas(a) + strip_commas(b),
    decreases b.len(),
{
    if b.len() == 0 {
        assert(a + b == a);
    } else {
        lemma_strip_commas_add(a, b.drop_last());
        assert((a + b).drop_last() == a + b.drop_last());
    }
}

proof fn lemma_strip_digits(d: Seq<char>)
    requires
        forall|i: int| 0 <= i < d.len() ==> is_digit(#[trigger] d[i]),
    ensures
        strip_commas(d) == d,
    decreases d.len(),
{
    if d.len() > 0 {
        lemma_strip_digits(d.drop_last());
        assert(d.drop_last().push(d.last()) == d);
    }
}

proof fn lemma_strip_grouped(d: Seq<char>)
    requires
        forall|i: int| 0 <= i < d.len() ==> is_digit(#[trigger] d[i]),
    ensures
        strip_commas(grouped(d)) == d,
    decreases d.len(),
{
    if d.len() <= 3 {
        lemma_strip_digits(d);
    } else {
        let a = d.take(d.len() - 3);
        let b = d.skip(d.len() - 3);
        lemma_strip_grouped(a);
        lemma_strip_commas_add(grouped(a) + seq![','], b);
        lemma_strip_commas_add(grouped(a), seq![',']);
        assert(strip_commas(seq![',']) == Seq::<char>::empty()) by {
            reveal_with_fuel(strip_commas, 2);
            assert(seq![','].drop_last() == Seq::<char>::empty());
        }
        lemma_strip_digits(b);
        assert(a + b == d);
    }
}

/// Dropping the separators from a formatted count gives back its sign and
/// decimal digits.
pub proof fn law_format_count_digits(n: int)
    ensures
        strip_commas(format_count_spec(n)) == if n < 0 {
            seq!['-'] + dec((-n) as nat)
        } else {
            dec(n as nat)
        },
{
    let m: nat = if n < 0 {
        (-n) as nat
    } else {
        n as nat
    };
    lemma_dec_len(m);
    lemma_strip_grouped(dec(m));
    if n < 0 {
        lemma_strip_commas_add(seq!['-'], grouped(dec(m)));
        assert(strip_commas(seq!['-']) == seq!['-']) by {
            reveal_with_fuel(strip_commas, 2);
            assert(seq!['-'].drop_last() == Seq::<char>::empty());
            assert(Seq::<char>::empty().push('-') == seq!['-']);
        }
    }
}

// ---------------------------------------------------------------------------
// Byte sizes
// ---------------------------------------------------------------------------

pub open spec fn pow2(k: nat) -> nat
    decreases k,
{
    if k == 0 {
        1
    } else {
        2 * pow2((k - 1) as nat)
    }
}

pub open spec fn pow1024(u: nat) -> nat
    decreases u,
{
    if u == 0 {
        1
    } else {
        1024 * pow1024((u - 1) as nat)
    }
}

/// Number of binary digits of `n`.
pub open spec fn bit_length(n: nat) -> nat
    decreases n,
{
    if n == 0 {
        0
    } else {
        1 + bit_length(n / 2)
    }
}

/// `n` divided by `d`, rounded to the nearest integer, ties to even.
pub open spec fn div_round_even(n: nat, d: nat) -> nat
    recommends
        d > 0,
{
    let q = n / d;
    let r = n % d;
    if 2 * r > d || (2 * r == d && q % 2 == 1) {
        q + 1
    } else {
        q
    }
}

/// The integer that `n as f64` stands for: `n` rounded to 53 significant
/// bits, ties to even.
pub open spec fn to_f64_value(n: nat) -> nat {
    let s: nat = if bit_length(n) > 53 {
        (bit_length(n) - 53) as nat
    } else {
        0
    };
    div_round_even(n, pow2(s)) * pow2(s)
}

/// The largest unit, up to TiB, that a size of `m` bytes fills at least once.
pub open spec fn unit_of(m: nat) -> nat {
    if m >= pow1024(4) {
        4
    } else if m >= pow1024(3) {
        3
    } else if m >= pow1024(2) {
        2
    } else if m >= pow1024(1) {
        1
    } else {
        0
    }
}

pub open spec fn unit_name(u: nat) -> Seq<char> {
    if u == 0 {
        "B"@
    } else if u == 1 {
        "KiB"@
    } else if u == 2 {
        "MiB"@
    } else if u == 3 {
        "GiB"@
    } else {
        "TiB"@
    }
}

/// A byte count in the largest binary unit (up to TiB) that it fills, with
/// two decimals; below 1 KiB the exact count in bytes.
pub open spec fn human_bytes_spec(bytes: nat) -> Seq<char> {
    if bytes < 1024 {
        dec(bytes) + " B"@
    } else {
        let m = to_f64_value(bytes);
        let u = unit_of(m);
        let h = div_round_even(m * 100, pow1024(u));
        dec(h / 100) + seq!['.', crate::text::digit_char((h % 100) / 10), crate::text::digit_char(
            h % 10,
        )] + " "@ + unit_name(u)
    }
}

fn round_even_div(n: u128, d: u128) -> (r: u128)
    requires
        0 < d < 0x1_0000_0000_0000_0000_0000_0000,
        n < 0x1_0000_0000_0000_0000_0000_0000,
    ensures
        r == div_round_even(n as nat, d as nat),
{
    let q = n / d;
    let r = n % d;
    if 2 * r > d || (2 * r == d && q % 2 == 1) {
        q + 1
    } else {
        q
    }
}

fn unit_label(u: u128) -> (r: &'static str)
    ensures
        r@ == unit_name(u as nat),
{
    if u == 0 {
        "B"
    } else if u == 1 {
        "KiB"
    } else if u == 2 {
        "MiB"
    } else if u == 3 {
        "GiB"
    } else {
        "TiB"
    }
}

proof fn lemma_pow1024_values()
    ensures
        pow1024(1) == 1024,
        pow1024(2) == 1048576,
        pow1024(3) == 1073741824,
        pow1024(4) == 1099511627776,
{
    reveal_with_fuel(pow1024, 5);
}

proof fn lemma_pow2_values()
    ensures
        pow2(53) == 0x20_0000_0000_0000,
        pow2(64) == 0x1_0000_0000_0000_0000,
{
    reveal_with_fuel(pow2, 65);
}

/// `n` fits in `k` bits exactly when it is below `2^k`.
proof fn lemma_bit_length_bound(n: nat, k: nat)
    ensures
        (n < pow2(k)) == (bit_length(n) <= k),
    decreases n,
{
    lemma_pow2_positive(k);
    if n > 0 && k > 0 {
        lemma_bit_length_bound(n / 2, (k - 1) as nat);
        assert(pow2(k) == 2 * pow2((k - 1) as nat));
        assert(bit_length(n) == 1 + bit_length(n / 2));
    } else if n > 0 {
        assert(bit_length(n) == 1 + bit_length(n / 2));
        assert(pow2(0) == 1);
    }
}

proof fn lemma_pow2_positive(k: nat)
    ensures
        pow2(k) >= 1,
    decreases k,
{
    if k > 0 {
        lemma_pow2_positive((k - 1) as nat);
    }
}

/// Byte count as `123 B`, `1.50 KiB`, and so on up to TiB.
pub fn human_bytes(bytes: u64) -> (r: String)
    ensures
        r@ == human_bytes_spec(bytes as nat),
{
    let mut out = String::new();
    if bytes < 1024 {
        push_u64(&mut out, bytes);
        push_str(&mut out, " B");
        return out;
    }
    proof {
        lemma_pow2_values();
        lemma_bit_length_bound(bytes as nat, 64);
        lemma_pow1024_values();
    }
    // The low bits that `bytes as f64` cannot keep.
    let mut x: u64 = bytes;
    let mut s: u64 = 0;
    let mut p: u128 = 1;
    while x >= 0x20_0000_0000_0000
        invariant
            s + bit_length(x as nat) == bit_length(bytes as nat),
            bit_length(bytes as nat) <= 64,
            s > 0 ==> bit_length(x as nat) >= 53,
            p == pow2(s as nat),
            s <= 11,
            pow2(53) == 0x20_0000_0000_0000,
        decreases x,
    {
        proof {
            lemma_bit_length_bound(x as nat, 53);
            assert(s <= 10);
            lemma_pow2_mono_to(s as nat, 10);
            assert(pow2(10) == 1024) by {
                reveal_with_fuel(pow2, 11);
            }
            assert(bit_length(x as nat) == 1 + bit_length((x / 2) as nat));
        }
        x = x / 2;
        s = s + 1;
        p = p * 2;
    }
    proof {
        lemma_pow2_positive(s as nat);
        lemma_bit_length_bound(x as nat, 53);
        assert(s == if bit_length(bytes as nat) > 53 {
            (bit_length(bytes as nat) - 53) as nat
        } else {
            0
        });
        assert(p <= 2048) by {
            reveal_with_fuel(pow2, 12);
            if s < 11 {
                lemma_pow2_mono_to(s as nat, 11);
            }
        }
    }
    let q = round_even_div(bytes as u128, p);
    proof {
        assert(q <= bytes as nat / p as nat + 1);
        assert(q * p <= bytes as nat + p) by (nonlinear_arith)
            requires
                q <= bytes as nat / p as nat + 1,
                p > 0,
        ;
    }
    let m: u128 = q * p;
    assert(m == to_f64_value(bytes as nat));
    let u: u128 = if m >= 1099511627776 {
        4
    } else if m >= 1073741824 {
        3
    } else if m >= 1048576 {
        2
    } else if m >= 1024 {
        1
    } else {
        0
    };
    let d: u128 = if u == 4 {
        1099511627776
    } else if u == 3 {
        1073741824
    } else if u == 2 {
        1048576
    } else if u == 1 {
        1024
    } else {
        1
    };
    assert(u == unit_of(m as nat) && d == pow1024(u as nat)) by {
        reveal_with_fuel(pow1024, 1);
    }
    let h = round_even_div(m * 100, d);
    proof {
        assert(h <= (m * 100) as nat / d as nat + 1);
        assert((m * 100) as nat / d as nat <= m * 100) by (nonlinear_arith)
            requires
                d >= 1,
        ;
    }
    push_u64(&mut out, (h / 100) as u64);
    push_char(&mut out, '.');
    push_char(&mut out, (48 + ((h % 100) / 10) as u8) as char);
    push_char(&mut out, (48 + (h % 10) as u8) as char);
    push_str(&mut out, " ");
    push_str(&mut out, unit_label(u));
    assert(out@ =~= human_bytes_spec(bytes as nat));
    out
}

proof fn lemma_pow2_mono_to(a: nat, b: nat)
    requires
        a <= b,
    ensures
        pow2(a) <= pow2(b),
    decreases b,
{
    if a < b {
        lemma_pow2_mono_to(a, (b - 1) as nat);
    }
}

} // verus!
