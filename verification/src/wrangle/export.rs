//! Choosing the file format of an export from the destination's extension.
use vstd::prelude::*;
use crate::text::{chars_of, eq_ignore_ascii_case, eq_ignore_ascii_case_spec};

verus! {

#[derive(Debug, Clone, Copy, PartialEq, Eq)]
pub enum ExportFormat {
    Parquet,
    Csv,
    Json,
}

/// The format that a file extension asks for, letters in either case.
pub open spec fn format_for_extension(e: Seq<char>) -> Option<ExportFormat> {
    if eq_ignore_ascii_case_spec(e, "parquet"@) {
        Some(ExportFormat::Parquet)
    } else if eq_ignore_ascii_case_spec(e, "csv"@) {
        Some(ExportFormat::Csv)
    } else if eq_ignore_ascii_case_spec(e, "json"@) || eq_ignore_ascii_case_spec(e, "jsonl"@)
        || eq_ignore_ascii_case_spec(e, "ndjson"@) {
        Some(ExportFormat::Json)
    } else {
        None
    }
}

/// Index of the last `c` in `s`, if any.
pub open spec fn last_index_of(s: Seq<char>, c: char) -> Option<int>
    decreases s.len(),
{
    if s.len() == 0 {
        None
    } else if s.last() == c {
        Some(s.len() - 1)
    } else {
        last_index_of(s.drop_last(), c)
    }
}

/// The last component of a Unix path that names something, reading from
/// the end: separators are skipped, and so are `.` components.
pub open spec fn last_named(p: Seq<char>) -> Option<Seq<char>>
    decreases p.len(),
{
    if p.len() == 0 {
        None
    } else if p.last() == '/' {
        last_named(p.drop_last())
    } else {
        let start = match last_index_of(p, '/') {
            Some(i) => i + 1,
            None => 0,
        };
        if p.skip(start) == seq!['.'] && 0 <= start < p.len() {
            last_named(p.take(start))
        } else {
            Some(p.skip(start))
        }
    }
}

/// `Path::file_name` on Unix: the last component, unless it is `..` or the
/// path has none.
pub open spec fn file_name_spec(p: Seq<char>) -> Option<Seq<char>> {
    match last_named(p) {
        Some(c) => if c == seq!['.', '.'] {
            None
        } else {
            Some(c)
        },
        None => None,
    }
}

/// The part of a file name after its last `.`; none when the name has no
/// `.` or its only `.` is the first character.
pub open spec fn name_extension_spec(name: Seq<char>) -> Option<Seq<char>> {
    match last_index_of(name, '.') {
        None => None,
        Some(i) => if i == 0 {
            None
        } else {
            Some(name.skip(i + 1))
        },
    }
}

/// `Path::extension` on Unix.
pub open spec fn extension_spec(p: Seq<char>) -> Option<Seq<char>> {
    match file_name_spec(p) {
        None => None,
        Some(name) => name_extension_spec(name),
    }
}

proof fn lemma_last_index_of(s: Seq<char>, c: char)
    ensures
        match last_index_of(s, c) {
            Some(i) => 0 <= i < s.len() && s[i] == c && forall|j: int|
                i < j < s.len() ==> s[j] != c,
            None => forall|j: int| 0 <= j < s.len() ==> s[j] != c,
        },
    decreases s.len(),
{
    if s.len() > 0 && s.last() != c {
        lemma_last_index_of(s.drop_last(), c);
        assert forall|j: int| 0 <= j < s.len() - 1 implies s[j] == s.drop_last()[j] by {}
    }
}

/// Position just after the last `c` in `v[..end]`, or 0.
fn after_last(v: &Vec<char>, end: usize, c: char) -> (r: usize)
    requires
        end <= v.len(),
    ensures
        r <= end,
        r == match last_index_of(v@.take(end as int), c) {
            Some(i) => i + 1,
            None => 0,
        },
{
    let mut i = end;
    while i > 0 && v[i - 1] != c
        invariant
            i <= end <= v.len(),
            last_index_of(v@.take(end as int), c) == last_index_of(v@.take(i as int), c),
        decreases i,
    {
        assert(v@.take(i as int).drop_last() == v@.take(i - 1));
        i -= 1;
    }
    i
}

impl ExportFormat {
    /// The format for an extension (`None` when there is none or it is not
    /// one of `parquet`, `csv`, `json`, `jsonl`, `ndjson`).
    pub fn from_extension(ext: Option<&str>) -> (r: Option<ExportFormat>)
        ensures
            r == match ext {
                Some(e) => format_for_extension(e@),
                None => None,
            },
    {
        match ext {
            None => None,
            Some(e) => {
                let v = chars_of(e);
                if eq_ignore_ascii_case(&v, "parquet") {
                    Some(ExportFormat::Parquet)
                } else if eq_ignore_ascii_case(&v, "csv") {
                    Some(ExportFormat::Csv)
                } else if eq_ignore_ascii_case(&v, "json") || eq_ignore_ascii_case(&v, "jsonl")
                    || eq_ignore_ascii_case(&v, "ndjson") {
                    Some(ExportFormat::Json)
                } else {
                    None
                }
            },
        }
    }
}

/// Bounds of the last component of `v[..end]` that names something.
fn last_named_bounds(v: &Vec<char>, end: usize) -> (r: Option<(usize, usize)>)
    requires
        end <= v.len(),
    ensures
        match r {
            Some((a, b)) => a < b <= end && last_named(v@.take(end as int)) == Some(
                v@.subrange(a as int, b as int),
            ),
            None => last_named(v@.take(end as int)) is None,
        },
    decreases end,
{
    if end == 0 {
        return None;
    }
    if v[end - 1] == '/' {
        assert(v@.take(end as int).drop_last() == v@.take(end - 1));
        return last_named_bounds(v, end - 1);
    }
    let start = after_last(v, end, '/');
    proof {
        lemma_last_index_of(v@.take(end as int), '/');
    }
    assert(start < end);
    assert(v@.take(end as int).skip(start as int) == v@.subrange(start as int, end as int));
    if end - start == 1 && v[start] == '.' {
        assert(v@.subrange(start as int, end as int) =~= seq!['.']);
        assert(v@.take(end as int).take(start as int) == v@.take(start as int));
        return last_named_bounds(v, start);
    }
    proof {
        let p = v@.take(end as int);
        if v@.subrange(start as int, end as int) == seq!['.'] {
            assert(v@.subrange(start as int, end as int).len() == 1);
            assert(v@.subrange(start as int, end as int)[0] == v[start as int]);
        }
        assert(p.last() != '/');
        assert(last_named(p) == Some(p.skip(start as int)));
    }
    Some((start, end))
}

/// The extension of the file name `v[start..end]`.
fn name_extension(v: &Vec<char>, start: usize, end: usize) -> (r: Option<String>)
    requires
        start < end <= v.len(),
    ensures
        match r {
            Some(e) => name_extension_spec(v@.subrange(start as int, end as int)) == Some(e@),
            None => name_extension_spec(v@.subrange(start as int, end as int)) is None,
        },
{
    let ghost nm = v@.subrange(start as int, end as int);
    let dot = after_last(v, end, '.');
    proof {
        lemma_last_index_of(v@.take(end as int), '.');
        lemma_last_index_of(nm, '.');
    }
    if dot <= start {
        assert(last_index_of(nm, '.') is None) by {
            if last_index_of(nm, '.') is Some {
                let k = last_index_of(nm, '.')->0;
                assert(v@.take(end as int)[start + k] == '.');
            }
        }
        return None;
    }
    assert(last_index_of(nm, '.') == Some((dot - 1 - start) as int)) by {
        let k = (dot - 1 - start) as int;
        assert(nm[k] == '.');
        match last_index_of(nm, '.') {
            Some(j) => {
                assert(v@.take(end as int)[start + j] == '.');
            },
            None => {},
        }
    }
    if dot - 1 == start {
        return None;
    }
    let e = crate::text::string_of_range(v, dot, end);
    assert(nm.skip(dot - start) == v@.subrange(dot as int, end as int));
    Some(e)
}

/// Extension of a Unix path as `Path::extension` gives it.
pub fn path_extension(path: &str) -> (r: Option<String>)
    ensures
        match r {
            Some(e) => extension_spec(path@) == Some(e@),
            None => extension_spec(path@) is None,
        },
{
    let v = chars_of(path);
    assert(v@.take(v.len() as int) == path@);
    match last_named_bounds(&v, v.len()) {
        None => None,
        Some((start, end)) => {
            let ghost nm = v@.subrange(start as int, end as int);
            if end - start == 2 && v[start] == '.' && v[start + 1] == '.' {
                assert(nm =~= seq!['.', '.']);
                assert(file_name_spec(path@) is None);
                return None;
            }
            assert(nm != seq!['.', '.']) by {
                if nm == seq!['.', '.'] {
                    assert(nm.len() == 2 && nm[0] == '.' && nm[1] == '.');
                }
            }
            assert(file_name_spec(path@) == Some(nm));
            name_extension(&v, start, end)
        },
    }
}

impl ExportFormat {
    /// The format a Unix path asks for by its extension.
    pub fn from_path(path: &str) -> (r: Option<ExportFormat>)
        ensures
            r == match extension_spec(path@) {
                Some(e) => format_for_extension(e),
                None => None,
            },
    {
        match path_extension(path) {
            Some(e) => ExportFormat::from_extension(Some(e.as_str())),
            None => None,
        }
    }
}

} // verus!
