//! Character-level helpers shared by the SQL builder, the form parser and the
//! display formatters: whitespace trimming, comma splitting, joining, decimal
//! rendering and parsing of integers.
use vstd::prelude::*;

verus! {

// ---------------------------------------------------------------------------
// Characters
// ---------------------------------------------------------------------------

/// Unicode `White_Space`, the property that `char::is_whitespace` and
/// `str::trim` use.
pub open spec fn is_ws(c: char) -> bool {
    let n = c as u32;
    ||| 9 <= n <= 13
    ||| n == 32
    ||| n == 0x85
    ||| n == 0xa0
    ||| n == 0x1680
    ||| 0x2000 <= n <= 0x200a
    ||| n == 0x2028
    ||| n == 0x2029
    ||| n == 0x202f
    ||| n == 0x205f
    ||| n == 0x3000
}

pub fn is_whitespace(c: char) -> (b: bool)
    ensures
        b == is_ws(c),
{
    let n = c as u32;
    (9 <= n && n <= 13) || n == 32 || n == 0x85 || n == 0xa0 || n == 0x1680 || (0x2000 <= n && n
        <= 0x200a) || n == 0x2028 || n == 0x2029 || n == 0x202f || n == 0x205f || n == 0x3000
}

pub open spec fn is_digit(c: char) -> bool {
    48 <= (c as u32) <= 57
}

pub open spec fn digit_value(c: char) -> nat {
    ((c as u32) - 48) as nat
}

/// The character of a decimal digit `d` (0 to 9).
pub open spec fn digit_char(d: nat) -> char {
    ((48 + d) as u8) as char
}

/// ASCII lower-casing, the mapping behind `eq_ignore_ascii_case`.
pub open spec fn ascii_lower(c: char) -> char {
    if 65 <= (c as u32) <= 90 {
        (((c as u32) + 32) as u8) as char
    } else {
        c
    }
}

pub open spec fn eq_ignore_ascii_case_spec(a: Seq<char>, b: Seq<char>) -> bool {
    &&& a.len() == b.len()
    &&& forall|i: int| 0 <= i < a.len() ==> ascii_lower(#[trigger] a[i]) == ascii_lower(b[i])
}

fn lower_ascii(c: char) -> (r: char)
    ensures
        r == ascii_lower(c),
{
    let n = c as u32;
    if 65 <= n && n <= 90 {
        ((n + 32) as u8) as char
    } else {
        c
    }
}

/// ASCII case-insensitive comparison of two character sequences.
pub fn eq_ignore_ascii_case(a: &Vec<char>, b: &str) -> (r: bool)
    ensures
        r == eq_ignore_ascii_case_spec(a@, b@),
{
    let bv = chars_of(b);
    if a.len() != bv.len() {
        return false;
    }
    let mut i: usize = 0;
    while i < a.len()
        invariant
            a.len() == bv.len(),
            bv@ == b@,
            i <= a.len(),
            forall|j: int| 0 <= j < i ==> ascii_lower(#[trigger] a@[j]) == ascii_lower(bv@[j]),
        decreases a.len() - i,
    {
        if lower_ascii(a[i]) != lower_ascii(bv[i]) {
            return false;
        }
        i += 1;
    }
    true
}

// ---------------------------------------------------------------------------
// Conversions between `str`, `String` and `Vec<char>`
// ---------------------------------------------------------------------------

/// Appends one character to a `String` (`String::push`).
#[verifier::external_body]
pub(crate) fn push_char(s: &mut String, c: char)
    ensures
        final(s)@ == old(s)@.push(c),
{
    s.push(c);
}

/// The characters of `s`, in order.
pub fn chars_of(s: &str) -> (v: Vec<char>)
    ensures
        v@ == s@,
{
    let mut v: Vec<char> = Vec::new();
    for c in it: s.chars()
        invariant
            v@ == it.seq().take(it.index() as int),
    {
        v.push(c);
    }
    v
}

/// Appends the characters `v[from..to]` to `out`.
pub fn push_range(out: &mut String, v: &Vec<char>, from: usize, to: usize)
    requires
        from <= to <= v.len(),
    ensures
        final(out)@ == old(out)@ + v@.subrange(from as int, to as int),
{
    let mut i = from;
    while i < to
        invariant
            from <= i <= to <= v.len(),
            out@ == old(out)@ + v@.subrange(from as int, i as int),
        decreases to - i,
    {
        push_char(out, v[i]);
        assert(v@.subrange(from as int, i + 1) == v@.subrange(from as int, i as int).push(
            v@[i as int],
        ));
        i += 1;
    }
}

/// A `String` holding the characters `v[from..to]`.
pub fn string_of_range(v: &Vec<char>, from: usize, to: usize) -> (s: String)
    requires
        from <= to <= v.len(),
    ensures
        s@ == v@.subrange(from as int, to as int),
{
    let mut s = String::new();
    push_range(&mut s, v, from, to);
    s
}

/// `str::to_string`.
pub fn owned(s: &str) -> (r: String)
    ensures
        r@ == s@,
{
    String::from_str(s)
}

/// Appends `s` to `out`.
pub fn push_str(out: &mut String, s: &str)
    ensures
        final(out)@ == old(out)@ + s@,
{
    out.append(s);
}

/// Whether two strings hold the same characters.
pub fn same_text(a: &str, b: &str) -> (r: bool)
    ensures
        r == (a@ == b@),
{
    let av = chars_of(a);
    let bv = chars_of(b);
    if av.len() != bv.len() {
        return false;
    }
    let mut i: usize = 0;
    while i < av.len()
        invariant
            av@ == a@,
            bv@ == b@,
            av.len() == bv.len(),
            i <= av.len(),
            forall|j: int| 0 <= j < i ==> av@[j] == bv@[j],
        decreases av.len() - i,
    {
        if av[i] != bv[i] {
            return false;
        }
        i += 1;
    }
    assert(av@ =~= bv@);
    true
}

// ---------------------------------------------------------------------------
// Trimming
// ---------------------------------------------------------------------------

pub open spec fn trim_end(s: Seq<char>) -> Seq<char>
    decreases s.len(),
{
    if s.len() > 0 && is_ws(s.last()) {
        trim_end(s.drop_last())
    } else {
        s
    }
}

pub open spec fn trim_start(s: Seq<char>) -> Seq<char>
    decreases s.len(),
{
    if s.len() > 0 && is_ws(s[0]) {
        trim_start(s.drop_first())
    } else {
        s
    }
}

/// `str::trim`: leading and trailing white space removed.
pub open spec fn trim(s: Seq<char>) -> Seq<char> {
    trim_start(trim_end(s))
}

/// The bounds `[a, b)` of the trimmed part of `v[from..to]`.
pub fn trim_bounds(v: &Vec<char>, from: usize, to: usize) -> (r: (usize, usize))
    requires
        from <= to <= v.len(),
    ensures
        from <= r.0 <= r.1 <= to,
        v@.subrange(r.0 as int, r.1 as int) == trim(v@.subrange(from as int, to as int)),
{
    let ghost s = v@.subrange(from as int, to as int);
    let mut e = to;
    while e > from && is_whitespace(v[e - 1])
        invariant
            from <= e <= to <= v.len(),
            s == v@.subrange(from as int, to as int),
            trim_end(s) == trim_end(v@.subrange(from as int, e as int)),
        decreases e,
    {
        assert(v@.subrange(from as int, e as int).drop_last() == v@.subrange(
            from as int,
            e - 1,
        ));
        e -= 1;
    }
    let mut b = from;
    while b < e && is_whitespace(v[b])
        invariant
            from <= b <= e <= to <= v.len(),
            s == v@.subrange(from as int, to as int),
            trim_end(s) == v@.subrange(from as int, e as int),
            trim(s) == trim_start(v@.subrange(b as int, e as int)),
        decreases e - b,
    {
        assert(v@.subrange(b as int, e as int).drop_first() == v@.subrange(b + 1, e as int));
        b += 1;
    }
    (b, e)
}

/// `s.trim().to_string()`.
pub fn trimmed(s: &str) -> (r: String)
    ensures
        r@ == trim(s@),
{
    let v = chars_of(s);
    let (a, b) = trim_bounds(&v, 0, v.len());
    assert(v@.subrange(0, v@.len() as int) == v@);
    string_of_range(&v, a, b)
}

/// `!s.trim().is_empty()`: a form field that holds more than white space.
pub open spec fn filled(s: Seq<char>) -> bool {
    trim(s).len() > 0
}

pub fn is_filled(s: &str) -> (b: bool)
    ensures
        b == filled(s@),
{
    let v = chars_of(s);
    let (a, b) = trim_bounds(&v, 0, v.len());
    assert(v@.subrange(0, v@.len() as int) == v@);
    a < b
}

// ---------------------------------------------------------------------------
// Splitting on a separator and joining with one
// ---------------------------------------------------------------------------

/// `str::split(sep)`: the pieces between the separators, empty ones included.
pub open spec fn split_on(s: Seq<char>, sep: char) -> Seq<Seq<char>>
    decreases s.len(),
{
    if s.len() == 0 {
        seq![Seq::empty()]
    } else {
        let p = split_on(s.drop_last(), sep);
        if s.last() == sep {
            p.push(Seq::empty())
        } else {
            p.update(p.len() - 1, p.last().push(s.last()))
        }
    }
}

pub proof fn lemma_split_on_nonempty(s: Seq<char>, sep: char)
    ensures
        split_on(s, sep).len() >= 1,
    decreases s.len(),
{
    if s.len() > 0 {
        lemma_split_on_nonempty(s.drop_last(), sep);
    }
}

/// The non-empty pieces of `s`, in order.
pub open spec fn keep_filled(s: Seq<Seq<char>>) -> Seq<Seq<char>>
    decreases s.len(),
{
    if s.len() == 0 {
        Seq::empty()
    } else {
        let r = keep_filled(s.drop_last());
        if s.last().len() > 0 {
            r.push(s.last())
        } else {
            r
        }
    }
}

/// The comma-separated list that a form field holds: pieces trimmed, empty
/// ones dropped.
pub open spec fn csv_items(s: Seq<char>) -> Seq<Seq<char>> {
    keep_filled(split_on(s, ',').map_values(|p: Seq<char>| trim(p)))
}

/// Views of a vector of strings.
pub open spec fn views(v: Seq<String>) -> Seq<Seq<char>> {
    v.map_values(|s: String| s@)
}

proof fn lemma_keep_filled_push(s: Seq<Seq<char>>, x: Seq<char>)
    ensures
        keep_filled(s.push(x)) == if x.len() > 0 {
            keep_filled(s).push(x)
        } else {
            keep_filled(s)
        },
{
    assert(s.push(x).drop_last() == s);
}

/// `s.split(',').map(|p| p.trim().to_string()).filter(|p| !p.is_empty()).collect()`.
pub fn split_csv(s: &str) -> (r: Vec<String>)
    ensures
        views(r@) == csv_items(s@),
{
    let v = chars_of(s);
    let mut out: Vec<String> = Vec::new();
    let mut start: usize = 0;
    let mut i: usize = 0;
    let ghost tr = |p: Seq<char>| trim(p);
    proof {
        assert(v@.take(0) =~= Seq::<char>::empty());
    }
    while i < v.len()
        invariant
            v@ == s@,
            start <= i <= v.len(),
            tr == (|p: Seq<char>| trim(p)),
            split_on(v@.take(i as int), ',').last() == v@.subrange(start as int, i as int),
            views(out@) == keep_filled(
                split_on(v@.take(i as int), ',').drop_last().map_values(tr),
            ),
        decreases v.len() - i,
    {
        let ghost pre = split_on(v@.take(i as int), ',');
        proof {
            lemma_split_on_nonempty(v@.take(i as int), ',');
            assert(v@.take(i + 1).drop_last() == v@.take(i as int));
            assert(v@.take(i + 1).last() == v@[i as int]);
        }
        if v[i] == ',' {
            let (a, b) = trim_bounds(&v, start, i);
            let piece = string_of_range(&v, a, b);
            proof {
                let post = split_on(v@.take(i + 1), ',');
                assert(post == pre.push(Seq::empty()));
                assert(post.drop_last() == pre);
                assert(pre == pre.drop_last().push(pre.last()));
                assert(pre.map_values(tr) == pre.drop_last().map_values(tr).push(tr(pre.last())));
                lemma_keep_filled_push(pre.drop_last().map_values(tr), tr(pre.last()));
            }
            if a < b {
                let ghost before = out@;
                let ghost pv = piece@;
                out.push(piece);
                proof {
                    assert(views(out@) == views(before).push(pv));
                }
            }
            start = i + 1;
            proof {
                assert(v@.subrange(start as int, i + 1) =~= Seq::<char>::empty());
            }
        } else {
            proof {
                let post = split_on(v@.take(i + 1), ',');
                assert(post == pre.update(pre.len() - 1, pre.last().push(v@[i as int])));
                assert(post.drop_last() == pre.drop_last());
                assert(v@.subrange(start as int, i + 1) == v@.subrange(start as int, i as int).push(
                    v@[i as int],
                ));
            }
        }
        i += 1;
    }
    let (a, b) = trim_bounds(&v, start, v.len());
    let piece = string_of_range(&v, a, b);
    proof {
        assert(v@.take(v.len() as int) == v@);
        let all = split_on(v@, ',');
        lemma_split_on_nonempty(v@, ',');
        assert(all == all.drop_last().push(all.last()));
        assert(all.map_values(tr) == all.drop_last().map_values(tr).push(tr(all.last())));
        lemma_keep_filled_push(all.drop_last().map_values(tr), tr(all.last()));
        assert(csv_items(s@) == keep_filled(all.map_values(tr)));
    }
    if a < b {
        let ghost before = out@;
        let ghost pv = piece@;
        out.push(piece);
        proof {
            assert(views(out@) == views(before).push(pv));
        }
    }
    out
}

/// The pieces joined, with `sep` between each two.
pub open spec fn join(parts: Seq<Seq<char>>, sep: Seq<char>) -> Seq<char>
    decreases parts.len(),
{
    if parts.len() == 0 {
        Seq::empty()
    } else if parts.len() == 1 {
        parts[0]
    } else {
        join(parts.drop_last(), sep) + sep + parts.last()
    }
}

/// One more piece of a join.
pub proof fn lemma_join_take(parts: Seq<Seq<char>>, sep: Seq<char>, i: int)
    requires
        0 <= i < parts.len(),
    ensures
        join(parts.take(i + 1), sep) == if i == 0 {
            parts[0]
        } else {
            join(parts.take(i), sep) + sep + parts[i]
        },
{
    assert(parts.take(i + 1).drop_last() == parts.take(i));
}

// ---------------------------------------------------------------------------
// Decimal rendering
// ---------------------------------------------------------------------------

/// Decimal digits of `n` (no leading zeros; "0" for zero).
pub open spec fn dec(n: nat) -> Seq<char>
    decreases n,
{
    if n < 10 {
        seq![digit_char(n)]
    } else {
        dec(n / 10).push(digit_char(n % 10))
    }
}

/// `Display` of a signed integer.
pub open spec fn dec_int(n: int) -> Seq<char> {
    if n < 0 {
        seq!['-'] + dec((-n) as nat)
    } else {
        dec(n as nat)
    }
}

fn digit(d: u64) -> (c: char)
    requires
        d < 10,
    ensures
        c == digit_char(d as nat),
{
    ((48 + d) as u8) as char
}

/// Appends the decimal digits of `n` to `out`.
pub fn push_u64(out: &mut String, n: u64)
    ensures
        final(out)@ == old(out)@ + dec(n as nat),
    decreases n,
{
    if n >= 10 {
        push_u64(out, n / 10);
    }
    push_char(out, digit(n % 10));
    proof {
        if n >= 10 {
            assert(dec(n as nat) == dec((n / 10) as nat).push(digit_char((n % 10) as nat)));
        } else {
            assert(dec(n as nat) == seq![digit_char(n as nat)]);
        }
    }
}

/// Appends `n` in decimal, with a leading `-` when negative.
pub fn push_i64(out: &mut String, n: i64)
    ensures
        final(out)@ == old(out)@ + dec_int(n as int),
{
    if n < 0 {
        push_char(out, '-');
        let m: u64 = ((-(n + 1)) as u64) + 1;
        push_u64(out, m);
        assert(seq!['-'] + dec((-n) as nat) == seq!['-'].add(dec(m as nat)));
    } else {
        push_u64(out, n as u64);
    }
}

/// `n.to_string()` for an unsigned integer.
pub fn u64_string(n: u64) -> (r: String)
    ensures
        r@ == dec(n as nat),
{
    let mut s = String::new();
    push_u64(&mut s, n);
    s
}

// ---------------------------------------------------------------------------
// Decimal parsing
// ---------------------------------------------------------------------------

pub open spec fn all_digits(s: Seq<char>) -> bool {
    forall|i: int| 0 <= i < s.len() ==> is_digit(#[trigger] s[i])
}

/// The value of a run of decimal digits.
pub open spec fn digits_value(s: Seq<char>) -> nat
    decreases s.len(),
{
    if s.len() == 0 {
        0
    } else {
        digits_value(s.drop_last()) * 10 + digit_value(s.last())
    }
}

/// `FromStr` for a primitive integer type whose values are `lo..=hi`: an
/// optional sign (`-` only where the type is signed) then one or more ASCII
/// digits; anything else, or a value out of range, is an error.
pub open spec fn parse_int(s: Seq<char>, lo: int, hi: int) -> Option<int> {
    let neg = s.len() > 1 && s[0] == '-' && lo < 0;
    let digits = if s.len() > 0 && (s[0] == '+' || (s[0] == '-' && lo < 0)) {
        s.drop_first()
    } else {
        s
    };
    if digits.len() == 0 || !all_digits(digits) {
        None
    } else {
        let v = if neg {
            -(digits_value(digits) as int)
        } else {
            digits_value(digits) as int
        };
        if lo <= v <= hi {
            Some(v)
        } else {
            None
        }
    }
}

proof fn lemma_digits_value_prefix(s: Seq<char>, i: int)
    requires
        0 <= i <= s.len(),
        all_digits(s),
    ensures
        digits_value(s.take(i)) <= digits_value(s),
    decreases s.len(),
{
    if i < s.len() {
        assert(s.drop_last().take(i) == s.take(i));
        lemma_digits_value_prefix(s.drop_last(), i);
    } else {
        assert(s.take(i) == s);
    }
}

/// The value of the digits `v[from..]` when they are all digits and the value
/// is at most `bound`; `None` otherwise.
fn digits_at_most(v: &Vec<char>, from: usize, bound: u64) -> (r: Option<u64>)
    requires
        from <= v.len(),
    ensures
        ({
            let d = v@.subrange(from as int, v@.len() as int);
            match r {
                Some(x) => all_digits(d) && x == digits_value(d) && x <= bound,
                None => !all_digits(d) || digits_value(d) > bound,
            }
        }),
{
    let ghost d = v@.subrange(from as int, v@.len() as int);
    let mut acc: u64 = 0;
    let mut i = from;
    while i < v.len()
        invariant
            from <= i <= v.len(),
            d == v@.subrange(from as int, v@.len() as int),
            all_digits(v@.subrange(from as int, i as int)),
            acc == digits_value(v@.subrange(from as int, i as int)),
            acc <= bound,
        decreases v.len() - i,
    {
        let c = v[i];
        let n = c as u32;
        assert(v@.subrange(from as int, i + 1).drop_last() == v@.subrange(from as int, i as int));
        if n < 48 || n > 57 {
            assert(d[i - from] == c);
            return None;
        }
        let dv = (n - 48) as u64;
        if dv > bound || acc > (bound - dv) / 10 {
            proof {
                assert(all_digits(v@.subrange(from as int, i + 1)));
                assert(digits_value(v@.subrange(from as int, i + 1)) == acc * 10 + dv);
                assert(acc * 10 + dv > bound) by (nonlinear_arith)
                    requires
                        dv > bound || acc > (bound - dv) / 10,
                ;
                if all_digits(d) {
                    assert(d.take(i + 1 - from) == v@.subrange(from as int, i + 1));
                    lemma_digits_value_prefix(d, i + 1 - from);
                }
            }
            return None;
        }
        proof {
            assert(acc * 10 + dv <= bound) by (nonlinear_arith)
                requires
                    acc <= (bound - dv) / 10,
                    dv <= bound,
            ;
        }
        acc = acc * 10 + dv;
        i += 1;
    }
    assert(v@.subrange(from as int, i as int) == d);
    Some(acc)
}

/// `s.trim().parse::<usize>().ok()`.
pub fn parse_usize_trimmed(s: &str) -> (r: Option<usize>)
    ensures
        r == (match parse_int(trim(s@), 0, usize::MAX as int) {
            Some(v) => Some(v as usize),
            None => None::<usize>,
        }),
{
    let v = chars_of(s);
    let (a, b) = trim_bounds(&v, 0, v.len());
    assert(v@.subrange(0, v@.len() as int) == v@);
    let t = string_of_range(&v, a, b);
    let tv = chars_of(t.as_str());
    let ghost ts = tv@;
    let start: usize = if tv.len() > 0 && tv[0] == '+' {
        1
    } else {
        0
    };
    assert(ts.subrange(start as int, ts.len() as int) == if start == 1 {
        ts.drop_first()
    } else {
        ts
    });
    if start == tv.len() {
        return None;
    }
    match digits_at_most(&tv, start, usize::MAX as u64) {
        Some(x) => Some(x as usize),
        None => None,
    }
}

/// `s.trim().parse::<i32>().ok()`.
pub fn parse_i32_trimmed(s: &str) -> (r: Option<i32>)
    ensures
        r == (match parse_int(trim(s@), i32::MIN as int, i32::MAX as int) {
            Some(v) => Some(v as i32),
            None => None::<i32>,
        }),
{
    let v = chars_of(s);
    let (a, b) = trim_bounds(&v, 0, v.len());
    assert(v@.subrange(0, v@.len() as int) == v@);
    let t = string_of_range(&v, a, b);
    let tv = chars_of(t.as_str());
    let ghost ts = tv@;
    let neg = tv.len() > 1 && tv[0] == '-';
    let start: usize = if tv.len() > 0 && (tv[0] == '+' || tv[0] == '-') {
        1
    } else {
        0
    };
    assert(ts.subrange(start as int, ts.len() as int) == if start == 1 {
        ts.drop_first()
    } else {
        ts
    });
    if start == tv.len() {
        return None;
    }
    let bound: u64 = if neg {
        2147483648
    } else {
        2147483647
    };
    match digits_at_most(&tv, start, bound) {
        Some(x) => {
            if neg {
                Some((0 - (x as i64)) as i32)
            } else {
                Some(x as i32)
            }
        },
        None => None,
    }
}

} // verus!
