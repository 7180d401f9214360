//! File names and paths for exported packages: a safe file name from a
//! display name, and the check that an export path carries the package's
//! extension (adding it when the path has none).
use vstd::prelude::*;

use crate::text::{
    chars_eq_ignore_ascii_case, char_is_ascii_alphanumeric, chars_of, eq_ignore_ascii_case,
    is_ascii_alphanumeric, string_from_chars, sub_chars, extend_chars,
};

verus! {

// ---------------------------------------------------------------------------
// File names
// ---------------------------------------------------------------------------

/// Characters kept as they are in an exported file name.
pub open spec fn is_file_name_char(c: char) -> bool {
    is_ascii_alphanumeric(c) || c == '-' || c == '_'
}

/// The file-name stem built from `name` so far, and whether its last
/// character stands for a run of replaced characters.
pub open spec fn sanitize_scan(name: Seq<char>) -> (Seq<char>, bool)
    decreases name.len(),
{
    if name.len() == 0 {
        (Seq::empty(), false)
    } else {
        let (stem, previous_separator) = sanitize_scan(name.drop_last());
        let c = name.last();
        if is_file_name_char(c) {
            (stem.push(c), false)
        } else if !previous_separator {
            (stem.push('-'), true)
        } else {
            (stem, previous_separator)
        }
    }
}

/// `s` without leading `-` characters.
pub open spec fn trim_dashes_start(s: Seq<char>) -> Seq<char>
    decreases s.len(),
{
    if s.len() > 0 && s[0] == '-' {
        trim_dashes_start(s.drop_first())
    } else {
        s
    }
}

/// `s` without trailing `-` characters.
pub open spec fn trim_dashes_end(s: Seq<char>) -> Seq<char>
    decreases s.len(),
{
    if s.len() > 0 && s.last() == '-' {
        trim_dashes_end(s.drop_last())
    } else {
        s
    }
}

/// `s` without leading and trailing `-` (`str::trim_matches('-')`).
pub open spec fn trim_dashes(s: Seq<char>) -> Seq<char> {
    trim_dashes_end(trim_dashes_start(s))
}

/// The suggested file name for exporting something called `name`: letters,
/// digits, `-` and `_` kept, every run of other characters replaced by one
/// `-`, outer `-` removed, `fallback` when nothing is left, then `.` and
/// the extension.
pub open spec fn export_file_name(name: Seq<char>, fallback: Seq<char>, extension: Seq<char>) -> Seq<
    char,
> {
    export_stem(name, fallback) + seq!['.'] + extension
}

/// The part of an exported file name before the extension.
pub open spec fn export_stem(name: Seq<char>, fallback: Seq<char>) -> Seq<char> {
    let stem = trim_dashes(sanitize_scan(name).0);
    if stem.len() == 0 {
        fallback
    } else {
        stem
    }
}

/// A stem fit for a file name: not empty, only letters, digits, `-` and
/// `_`, and no `-` at either end.
pub open spec fn is_safe_stem(stem: Seq<char>) -> bool {
    &&& stem.len() > 0
    &&& forall|i: int| 0 <= i < stem.len() ==> is_file_name_char(#[trigger] stem[i])
    &&& stem[0] != '-'
    &&& stem.last() != '-'
}

/// A name made only of ASCII letters, ASCII digits, `-` and `_`, that is
/// not empty and neither starts nor ends with `-`.
pub open spec fn is_plain_name(name: Seq<char>) -> bool {
    &&& name.len() > 0
    &&& name[0] != '-'
    &&& name.last() != '-'
    &&& forall|i: int|
        0 <= i < name.len() ==> {
            let c = #[trigger] name[i];
            ('a' <= c && c <= 'z') || ('A' <= c && c <= 'Z') || ('0' <= c && c <= '9') || c == '-'
                || c == '_'
        }
}

/// Appending characters that are all kept appends them to the stem.
proof fn lemma_sanitize_append_kept(s: Seq<char>, u: Seq<char>)
    requires
        forall|i: int| 0 <= i < u.len() ==> is_file_name_char(#[trigger] u[i]),
    ensures
        sanitize_scan(s + u) == (sanitize_scan(s).0 + u, if u.len() == 0 {
            sanitize_scan(s).1
        } else {
            false
        }),
    decreases u.len(),
{
    if u.len() == 0 {
        assert(s + u =~= s);
        assert(sanitize_scan(s).0 + u =~= sanitize_scan(s).0);
    } else {
        lemma_sanitize_append_kept(s, u.drop_last());
        assert((s + u).drop_last() =~= s + u.drop_last());
        assert(is_file_name_char(u[u.len() - 1]));
        assert(sanitize_scan(s).0 + u =~= (sanitize_scan(s).0 + u.drop_last()).push(u.last()));
    }
}

/// Appending a run of characters that are all replaced adds one `-`,
/// unless the stem already ends in a replaced run.
proof fn lemma_sanitize_append_run(s: Seq<char>, r: Seq<char>)
    requires
        r.len() > 0,
        forall|i: int| 0 <= i < r.len() ==> !is_file_name_char(#[trigger] r[i]),
    ensures
        sanitize_scan(s + r) == (if sanitize_scan(s).1 {
            sanitize_scan(s).0
        } else {
            sanitize_scan(s).0.push('-')
        }, true),
    decreases r.len(),
{
    assert(!is_file_name_char(r[r.len() - 1]));
    assert((s + r).drop_last() =~= s + r.drop_last());
    if r.len() == 1 {
        assert(s + r.drop_last() =~= s);
    } else {
        lemma_sanitize_append_run(s, r.drop_last());
    }
}

/// The characters of a plain name are all kept.
proof fn lemma_plain_name_chars(name: Seq<char>)
    requires
        is_plain_name(name),
    ensures
        forall|i: int| 0 <= i < name.len() ==> is_file_name_char(#[trigger] name[i]),
{
    assert forall|i: int| 0 <= i < name.len() implies is_file_name_char(#[trigger] name[i]) by {
        let c = name[i];
        assert(('a' <= c && c <= 'z') || ('A' <= c && c <= 'Z') || ('0' <= c && c <= '9') || c
            == '-' || c == '_');
    }
}

/// A plain name is its own file-name stem: every ASCII letter and digit,
/// `-` and `_` is kept, in order.
pub proof fn lemma_plain_names_are_kept(name: Seq<char>, fallback: Seq<char>)
    requires
        is_plain_name(name),
    ensures
        export_stem(name, fallback) == name,
{
    lemma_plain_name_chars(name);
    lemma_sanitize_append_kept(Seq::empty(), name);
    assert(Seq::<char>::empty() + name =~= name);
    assert(sanitize_scan(name).0 =~= name);
    assert(trim_dashes_start(name) == name);
    assert(trim_dashes_end(name) == name);
}

/// Two plain names joined by a run of other characters (spaces,
/// punctuation, anything else) give the two names joined by one `-`.
pub proof fn lemma_runs_become_one_dash(a: Seq<char>, run: Seq<char>, b: Seq<char>, fallback: Seq<char>)
    requires
        is_plain_name(a),
        is_plain_name(b),
        run.len() > 0,
        forall|i: int|
            0 <= i < run.len() ==> {
                let c = #[trigger] run[i];
                !(('a' <= c && c <= 'z') || ('A' <= c && c <= 'Z') || ('0' <= c && c <= '9') || c
                    == '-' || c == '_')
            },
    ensures
        export_stem(a + run + b, fallback) == a + seq!['-'] + b,
{
    lemma_plain_name_chars(a);
    lemma_plain_name_chars(b);
    assert forall|i: int| 0 <= i < run.len() implies !is_file_name_char(#[trigger] run[i]) by {
        let c = run[i];
        assert(!(('a' <= c && c <= 'z') || ('A' <= c && c <= 'Z') || ('0' <= c && c <= '9') || c
            == '-' || c == '_'));
    }
    lemma_sanitize_append_kept(Seq::empty(), a);
    assert(Seq::<char>::empty() + a =~= a);
    lemma_sanitize_append_run(a, run);
    lemma_sanitize_append_kept(a + run, b);
    let stem = a.push('-') + b;
    assert(sanitize_scan(a + run + b).0 =~= stem);
    assert(stem[0] == a[0]);
    assert(stem.last() == b.last());
    assert(trim_dashes_start(stem) == stem);
    assert(trim_dashes_end(stem) == stem);
    assert(stem =~= a + seq!['-'] + b);
}

proof fn lemma_sanitize_chars(name: Seq<char>)
    ensures
        forall|i: int| 0 <= i < sanitize_scan(name).0.len() ==> is_file_name_char(
            #[trigger] sanitize_scan(name).0[i],
        ),
    decreases name.len(),
{
    if name.len() > 0 {
        lemma_sanitize_chars(name.drop_last());
        let (stem, previous_separator) = sanitize_scan(name.drop_last());
        let out = sanitize_scan(name).0;
        assert forall|i: int| 0 <= i < out.len() implies is_file_name_char(#[trigger] out[i]) by {
            if i < stem.len() {
                assert(out[i] == stem[i]);
            }
        }
    }
}

proof fn lemma_trim_dashes_start_chars(s: Seq<char>)
    requires
        forall|i: int| 0 <= i < s.len() ==> is_file_name_char(#[trigger] s[i]),
    ensures
        forall|i: int| 0 <= i < trim_dashes_start(s).len() ==> is_file_name_char(
            #[trigger] trim_dashes_start(s)[i],
        ),
        trim_dashes_start(s).len() > 0 ==> trim_dashes_start(s)[0] != '-',
        trim_dashes_start(s).len() <= s.len(),
    decreases s.len(),
{
    if s.len() > 0 && s[0] == '-' {
        assert forall|i: int| 0 <= i < s.drop_first().len() implies is_file_name_char(
            #[trigger] s.drop_first()[i],
        ) by {
            assert(s.drop_first()[i] == s[i + 1]);
        }
        lemma_trim_dashes_start_chars(s.drop_first());
    }
}

proof fn lemma_trim_dashes_end_chars(s: Seq<char>)
    requires
        forall|i: int| 0 <= i < s.len() ==> is_file_name_char(#[trigger] s[i]),
        s.len() > 0 ==> s[0] != '-',
    ensures
        forall|i: int| 0 <= i < trim_dashes_end(s).len() ==> is_file_name_char(
            #[trigger] trim_dashes_end(s)[i],
        ),
        trim_dashes_end(s).len() > 0 ==> trim_dashes_end(s)[0] != '-' && trim_dashes_end(s).last()
            != '-',
    decreases s.len(),
{
    if s.len() > 0 && s.last() == '-' {
        assert forall|i: int| 0 <= i < s.drop_last().len() implies is_file_name_char(
            #[trigger] s.drop_last()[i],
        ) by {
            assert(s.drop_last()[i] == s[i]);
        }
        lemma_trim_dashes_end_chars(s.drop_last());
    }
}

/// The suggested file name of an export is always a safe stem (the name's
/// own characters, or the fallback), a `.` and the extension.
pub proof fn lemma_export_file_name_is_safe(name: Seq<char>, fallback: Seq<char>, extension: Seq<char>)
    requires
        is_safe_stem(fallback),
    ensures
        is_safe_stem(export_stem(name, fallback)),
        export_file_name(name, fallback, extension) == export_stem(name, fallback) + seq!['.']
            + extension,
{
    lemma_sanitize_chars(name);
    lemma_trim_dashes_start_chars(sanitize_scan(name).0);
    lemma_trim_dashes_end_chars(trim_dashes_start(sanitize_scan(name).0));
}

proof fn lemma_trim_dashes_start_skip(s: Seq<char>, i: int)
    requires
        0 <= i < s.len(),
        s[i] == '-',
    ensures
        trim_dashes_start(s.skip(i)) == trim_dashes_start(s.skip(i + 1)),
{
    assert(s.skip(i).drop_first() =~= s.skip(i + 1));
}

proof fn lemma_trim_dashes_end_take(s: Seq<char>, j: int)
    requires
        0 < j <= s.len(),
        s[j - 1] == '-',
    ensures
        trim_dashes_end(s.take(j)) == trim_dashes_end(s.take(j - 1)),
{
    assert(s.take(j).drop_last() =~= s.take(j - 1));
}

/// `s` without leading and trailing `-`.
fn trim_dash_chars(s: &Vec<char>) -> (out: Vec<char>)
    ensures
        out@ == trim_dashes(s@),
{
    let mut start: usize = 0;
    assert(s@.skip(0) =~= s@);
    while start < s.len() && s[start] == '-'
        invariant
            start <= s.len(),
            trim_dashes_start(s@) == trim_dashes_start(s@.skip(start as int)),
        decreases s.len() - start,
    {
        proof {
            lemma_trim_dashes_start_skip(s@, start as int);
        }
        start = start + 1;
    }
    let ghost rest = s@.skip(start as int);
    assert(trim_dashes_start(rest) == rest);
    let mut end: usize = s.len();
    assert(rest.take(rest.len() as int) =~= rest);
    while end > start && s[end - 1] == '-'
        invariant
            start <= end <= s.len(),
            rest == s@.skip(start as int),
            trim_dashes_end(rest) == trim_dashes_end(rest.take(end - start)),
        decreases end,
    {
        proof {
            lemma_trim_dashes_end_take(rest, (end - start) as int);
        }
        end = end - 1;
    }
    assert(rest.take(end - start) =~= s@.subrange(start as int, end as int));
    sub_chars(s, start, end)
}

/// The suggested file name for exporting something called `name`.
pub fn export_file_name_for(name: &str, fallback: &str, extension: &str) -> (file_name: String)
    ensures
        file_name@ == export_file_name(name@, fallback@, extension@),
        is_plain_name(name@) ==> file_name@ == name@ + seq!['.'] + extension@,
{
    proof {
        if is_plain_name(name@) {
            lemma_plain_names_are_kept(name@, fallback@);
        }
    }
    let chars = chars_of(name);
    let mut stem: Vec<char> = Vec::new();
    let mut previous_separator = false;
    let mut i: usize = 0;
    assert(name@.take(0) =~= Seq::<char>::empty());
    while i < chars.len()
        invariant
            chars@ == name@,
            i <= chars.len(),
            sanitize_scan(name@.take(i as int)) == (stem@, previous_separator),
        decreases chars.len() - i,
    {
        assert(name@.take(i + 1).drop_last() =~= name@.take(i as int));
        let ch = chars[i];
        if char_is_ascii_alphanumeric(ch) || ch == '-' || ch == '_' {
            stem.push(ch);
            previous_separator = false;
        } else if !previous_separator {
            stem.push('-');
            previous_separator = true;
        }
        i = i + 1;
    }
    assert(name@.take(chars.len() as int) =~= name@);
    let trimmed = trim_dash_chars(&stem);
    let mut out = if trimmed.len() == 0 {
        chars_of(fallback)
    } else {
        trimmed
    };
    out.push('.');
    extend_chars(&mut out, &chars_of(extension));
    string_from_chars(&out)
}

// ---------------------------------------------------------------------------
// Export paths
// ---------------------------------------------------------------------------

/// What an export path needs, judged by its current extension.
#[derive(Clone, Copy, Debug, PartialEq, Eq, Structural)]
pub enum ExportPathDecision {
    /// The path has no extension: the package's extension is added.
    AddExtension,
    /// The path already carries the package's extension.
    Keep,
    /// The path carries another extension and is refused.
    Reject,
}

/// Whether `extension` is the package's extension, ignoring ASCII case.
pub open spec fn extension_matches_spec(extension: Option<Seq<char>>, required: Seq<char>) -> bool {
    match extension {
        Some(e) => eq_ignore_ascii_case(e, required),
        None => false,
    }
}

/// What an export path with extension `extension` needs.
pub open spec fn export_path_decision_spec(
    extension: Option<Seq<char>>,
    required: Seq<char>,
) -> ExportPathDecision {
    if extension is None {
        ExportPathDecision::AddExtension
    } else if extension_matches_spec(extension, required) {
        ExportPathDecision::Keep
    } else {
        ExportPathDecision::Reject
    }
}

/// Whether `extension` is the package's extension, ignoring ASCII case.
pub fn extension_matches(extension: Option<&str>, required: &str) -> (matches: bool)
    ensures
        matches == extension_matches_spec(
            match extension {
                Some(e) => Some(e@),
                None => None,
            },
            required@,
        ),
{
    match extension {
        Some(e) => chars_eq_ignore_ascii_case(&chars_of(e), &chars_of(required)),
        None => false,
    }
}

/// What an export path with extension `extension` needs.
pub fn export_path_decision(extension: Option<&str>, required: &str) -> (decision:
    ExportPathDecision)
    ensures
        decision == export_path_decision_spec(
            match extension {
                Some(e) => Some(e@),
                None => None,
            },
            required@,
        ),
{
    match extension {
        None => ExportPathDecision::AddExtension,
        Some(_) => if extension_matches(extension, required) {
            ExportPathDecision::Keep
        } else {
            ExportPathDecision::Reject
        },
    }
}

/// A path that every platform of the standard library reads alike: `/` is
/// its only separator (it holds no backslash), it holds no `:` and does not
/// start with `//`, so no Windows prefix (drive, UNC or verbatim) begins it.
pub open spec fn is_portable_path(p: Seq<char>) -> bool {
    !p.contains('\\') && !p.contains(':') && !(p.len() >= 2 && p[0] == '/' && p[1] == '/')
}

/// The characters of `p` after its last `c`; all of `p` when it holds no `c`.
pub open spec fn after_last(p: Seq<char>, c: char) -> Seq<char>
    decreases p.len(),
{
    if p.len() == 0 {
        p
    } else if p.last() == c {
        Seq::empty()
    } else {
        after_last(p.drop_last(), c).push(p.last())
    }
}

/// What follows the last `c` is no longer than `p`, and shorter exactly
/// when `p` holds a `c`.
pub proof fn lemma_after_last_len(p: Seq<char>, c: char)
    ensures
        after_last(p, c).len() <= p.len(),
        after_last(p, c).len() < p.len() <==> p.contains(c),
        !after_last(p, c).contains(c),
        after_last(p, c).len() < p.len() ==> p[p.len() - after_last(p, c).len() - 1] == c,
        after_last(p, c) == p.skip(p.len() - after_last(p, c).len()),
    decreases p.len(),
{
    if p.len() > 0 {
        lemma_after_last_len(p.drop_last(), c);
        if p.last() == c {
            assert(p[p.len() - 1] == c);
            assert(p.skip(p.len() as int) =~= Seq::<char>::empty());
        } else {
            let a = after_last(p.drop_last(), c);
            assert(p.drop_last().contains(c) ==> p.contains(c)) by {
                if p.drop_last().contains(c) {
                    let i = choose|i: int| 0 <= i < p.drop_last().len() && p.drop_last()[i] == c;
                    assert(p[i] == c);
                }
            }
            assert(p.contains(c) ==> p.drop_last().contains(c)) by {
                if p.contains(c) {
                    let i = choose|i: int| 0 <= i < p.len() && p[i] == c;
                    assert(i < p.len() - 1);
                    assert(p.drop_last()[i] == c);
                }
            }
            assert(!a.push(p.last()).contains(c)) by {
                if a.push(p.last()).contains(c) {
                    let i = choose|i: int| 0 <= i < a.len() + 1 && a.push(p.last())[i] == c;
                    assert(i < a.len());
                    assert(a[i] == c);
                }
            }
            assert(a.push(p.last()) =~= p.skip(p.len() - a.len() - 1));
        }
    }
}

/// The file name of a portable path as `Path::file_name` gives it: the last
/// component, where repeated and trailing `/` and `.` components are
/// normalized away; none when the path ends in `..` or has no such
/// component (empty, `.` or `/`).
pub open spec fn file_name_of(p: Seq<char>) -> Option<Seq<char>>
    decreases p.len(),
{
    let seg = after_last(p, '/');
    if seg.len() == 0 || seg == seq!['.'] {
        if seg.len() < p.len() {
            proof {
                lemma_after_last_len(p, '/');
            }
            file_name_of(p.take(p.len() - seg.len() - 1))
        } else {
            None
        }
    } else if seg == seq!['.', '.'] {
        None
    } else {
        Some(seg)
    }
}

/// The extension of a file name as `Path::extension` reads it: the part
/// after the last `.`; none when there is no `.`, or when the only `.`
/// begins the name.
pub open spec fn extension_of_name(f: Seq<char>) -> Option<Seq<char>> {
    let after = after_last(f, '.');
    if !f.contains('.') || after.len() + 1 == f.len() {
        None
    } else {
        Some(after)
    }
}

/// The extension of a portable path: that of its file name, if it has one.
pub open spec fn path_extension_spec(p: Seq<char>) -> Option<Seq<char>> {
    match file_name_of(p) {
        Some(f) => extension_of_name(f),
        None => None,
    }
}

/// A portable path cut right after its file name: the trailing `/` and
/// `.` components that follow the file name are dropped.
pub open spec fn through_file_name(p: Seq<char>) -> Seq<char>
    decreases p.len(),
{
    let seg = after_last(p, '/');
    if (seg.len() == 0 || seg == seq!['.']) && seg.len() < p.len() {
        proof {
            lemma_after_last_len(p, '/');
        }
        through_file_name(p.take(p.len() - seg.len() - 1))
    } else {
        p
    }
}

/// A path separator on some platform, or the `:` of a Windows drive.
pub open spec fn is_separator_or_colon(c: char) -> bool {
    c == '/' || c == '\\' || c == ':'
}

/// The characters of `p` after its last separator or `:`.
pub open spec fn final_segment(p: Seq<char>) -> Seq<char>
    decreases p.len(),
{
    if p.len() == 0 {
        p
    } else if is_separator_or_colon(p.last()) {
        Seq::empty()
    } else {
        final_segment(p.drop_last()).push(p.last())
    }
}

/// The extension that every platform reads in `p`: where `p` does not
/// start with two separators (no network or verbatim prefix) and its final
/// segment, after the last separator or `:`, holds a `.` past its first
/// character (and is not `..`), the file name of `p` ends with that segment
/// on every platform, and its extension is what follows the last `.`.
pub open spec fn evident_extension(p: Seq<char>) -> Option<Seq<char>> {
    let seg = final_segment(p);
    if p.len() >= 2 && (p[0] == '/' || p[0] == '\\') && (p[1] == '/' || p[1] == '\\') {
        None
    } else if seg != seq!['.', '.'] && seg.contains('.') && after_last(seg, '.').len() + 1 < seg.len() {
        Some(after_last(seg, '.'))
    } else {
        None
    }
}

/// `Path::extension`, read as text. The standard library documents that
/// there is no extension when the path has no `.`, and that an extension is
/// the part of the file name after its last `.`, so it holds no `.`. It
/// also documents how a path splits into components (repeated separators,
/// trailing separators and `.` components after the first are dropped),
/// that the file name is the last component unless that is `..`, and when
/// a file name has an extension; for a portable path, whose only separator
/// is `/` on every platform, that is `path_extension_spec`. On any path
/// whose final segment plainly carries an extension, every platform reads
/// that extension (`evident_extension`). Which part of other paths is the
/// file name depends on the platform, so nothing more is claimed of them.
#[verifier::external_body]
fn path_extension(path: &str) -> (extension: Option<String>)
    ensures
        !path@.contains('.') ==> extension is None,
        extension matches Some(e) ==> !e@.contains('.'),
        is_portable_path(path@) ==> match extension {
            Some(e) => path_extension_spec(path@) == Some(e@),
            None => path_extension_spec(path@) is None,
        },
        evident_extension(path@) is Some ==> match extension {
            Some(e) => evident_extension(path@) == Some(e@),
            None => false,
        },
{
    match std::path::Path::new(path).extension() {
        Some(extension) => Some(extension.to_string_lossy().into_owned()),
        None => None,
    }
}

/// An extension made only of ASCII letters and digits, so it holds no
/// separator of any platform.
pub open spec fn is_plain_extension(extension: Seq<char>) -> bool {
    extension.len() > 0 && forall|i: int| 0 <= i < extension.len() ==> is_ascii_alphanumeric(#[trigger] extension[i])
}

/// A path separator on some platform: `/`, or a backslash on Windows.
pub open spec fn is_path_separator(c: char) -> bool {
    c == '/' || c == '\\'
}

/// A path that names a file without any `.` on every platform: it is not
/// empty, holds no `.`, does not start with two separators (no network or
/// verbatim prefix) and does not end in a separator or a drive's `:`. Its
/// file name is then what follows its last separator or `:`, at its very
/// end, with no extension, on Unix and on Windows alike (drive paths such
/// as `C:` followed by backslash-separated folders included).
pub open spec fn is_dotless_file_path(p: Seq<char>) -> bool {
    &&& p.len() > 0
    &&& !p.contains('.')
    &&& !(p.len() >= 2 && is_path_separator(p[0]) && is_path_separator(p[1]))
    &&& !is_separator_or_colon(p.last())
}

/// `PathBuf::set_extension`, read back as text. The standard library
/// documents that a path without a file name is left as it is and that
/// otherwise the extension is added to the file name or replaces its old
/// one; its source does so by cutting the path right after the file name's
/// stem and appending `.` and the (non-empty) extension, so the new path
/// ends in them. Which part is the file name depends on the platform; for
/// a portable path, a file name without an extension is its own stem, so
/// the path cut after its file name is followed by `.` and the extension.
/// On a dotless file path every platform finds the file name at the end of
/// the path, with no extension, so the path is followed by `.` and the
/// extension. Nothing more is claimed. An extension holding a path separator makes
/// the call panic, so only plain extensions are passed.
#[verifier::external_body]
fn path_with_extension(path: &str, extension: &str) -> (out: String)
    requires
        is_plain_extension(extension@),
    ensures
        out@ == path@ || (out@.len() > extension@.len() && out@.skip(
            out@.len() - extension@.len() - 1,
        ) == seq!['.'] + extension@),
        is_portable_path(path@) && file_name_of(path@) is None ==> out@ == path@,
        is_portable_path(path@) && path_extension_spec(path@) is None && file_name_of(path@)
            is Some ==> out@ == through_file_name(path@) + seq!['.'] + extension@,
        is_dotless_file_path(path@) ==> out@ == path@ + seq!['.'] + extension@,
{
    let mut buf = std::path::PathBuf::from(path);
    buf.set_extension(extension);
    buf.to_string_lossy().into_owned()
}

/// Whether `path` carries the extension `required`, ignoring ASCII case.
pub fn path_has_extension(path: &str, required: &str) -> (found: bool)
    ensures
        !path@.contains('.') ==> !found,
        is_portable_path(path@) ==> found == extension_matches_spec(path_extension_spec(path@), required@),
        evident_extension(path@) is Some ==> found == extension_matches_spec(evident_extension(path@), required@),
{
    let extension = path_extension(path);
    match extension {
        Some(e) => extension_matches(Some(e.as_str()), required),
        None => false,
    }
}

/// The export path that normalizing the portable path `path` gives, or
/// none when it is refused: refused when it has another extension than
/// `required`, kept when it has `required`, and when it has none, kept if
/// it has no file name, else cut after its file name and followed by `.`
/// and `required`.
pub open spec fn normalized_path(path: Seq<char>, required: Seq<char>) -> Option<Seq<char>> {
    match export_path_decision_spec(path_extension_spec(path), required) {
        ExportPathDecision::Reject => None,
        ExportPathDecision::Keep => Some(path),
        ExportPathDecision::AddExtension => if file_name_of(path) is None {
            Some(path)
        } else {
            Some(through_file_name(path) + seq!['.'] + required)
        },
    }
}

/// `res` is what normalizing the portable path `path` gives: the
/// normalized path, or `error` when the path is refused.
pub open spec fn normalized_export_path(
    path: Seq<char>,
    required: Seq<char>,
    error: Seq<char>,
    res: Result<String, String>,
) -> bool {
    match normalized_path(path, required) {
        None => res matches Err(e) && e@ == error,
        Some(q) => res matches Ok(p) && p@ == q,
    }
}

/// `res` is what normalizing a path with the evident extension `extension`
/// gives on every platform: the path itself when the extension is
/// `required` (in any ASCII case), else `error`.
pub open spec fn evident_normalized(
    path: Seq<char>,
    extension: Seq<char>,
    required: Seq<char>,
    error: Seq<char>,
    res: Result<String, String>,
) -> bool {
    if eq_ignore_ascii_case(extension, required) {
        res matches Ok(p) && p@ == path
    } else {
        res matches Err(e) && e@ == error
    }
}

/// What follows the last `c` of `s + u` is what follows it in `s`, then
/// `u`, when `u` holds no `c`.
proof fn lemma_after_last_append(s: Seq<char>, u: Seq<char>, c: char)
    requires
        !u.contains(c),
    ensures
        after_last(s + u, c) == after_last(s, c) + u,
    decreases u.len(),
{
    if u.len() == 0 {
        assert(s + u =~= s);
        assert(after_last(s, c) + u =~= after_last(s, c));
    } else {
        assert(!u.drop_last().contains(c)) by {
            if u.drop_last().contains(c) {
                let i = choose|i: int| 0 <= i < u.drop_last().len() && u.drop_last()[i] == c;
                assert(u[i] == c);
            }
        }
        assert(u[u.len() - 1] != c);
        lemma_after_last_append(s, u.drop_last(), c);
        assert((s + u).drop_last() =~= s + u.drop_last());
        assert(after_last(s, c) + u =~= (after_last(s, c) + u.drop_last()).push(u.last()));
    }
}

/// Cutting a portable path after its file name keeps a prefix of it that
/// ends in that file name, which is neither empty, `.` nor `..`.
proof fn lemma_through_file_name(p: Seq<char>)
    requires
        file_name_of(p) is Some,
    ensures
        after_last(through_file_name(p), '/') == file_name_of(p).unwrap(),
        through_file_name(p).len() <= p.len(),
        through_file_name(p) == p.take(through_file_name(p).len() as int),
        file_name_of(p).unwrap().len() > 0,
        file_name_of(p).unwrap() != seq!['.'],
        file_name_of(p).unwrap() != seq!['.', '.'],
    decreases p.len(),
{
    lemma_after_last_len(p, '/');
    let seg = after_last(p, '/');
    if (seg.len() == 0 || seg == seq!['.']) && seg.len() < p.len() {
        let rest = p.take(p.len() - seg.len() - 1);
        lemma_through_file_name(rest);
        let t = through_file_name(rest);
        assert(t =~= p.take(t.len() as int));
    } else {
        assert(p.take(p.len() as int) =~= p);
    }
}

/// Normalizing a normalized export path changes nothing: the result of
/// normalizing a portable path is portable and normalizes to itself, and
/// when the path has a file name the result carries the extension
/// `required`.
pub proof fn lemma_normalize_is_idempotent(path: Seq<char>, required: Seq<char>)
    requires
        is_portable_path(path),
        is_plain_extension(required),
        normalized_path(path, required) is Some,
    ensures
        is_portable_path(normalized_path(path, required).unwrap()),
        normalized_path(normalized_path(path, required).unwrap(), required) == normalized_path(
            path,
            required,
        ),
        file_name_of(path) is Some ==> extension_matches_spec(
            path_extension_spec(normalized_path(path, required).unwrap()),
            required,
        ),
{
    let q = normalized_path(path, required).unwrap();
    if path_extension_spec(path) is None && file_name_of(path) is Some {
        let f = file_name_of(path).unwrap();
        let t = through_file_name(path);
        lemma_through_file_name(path);
        lemma_after_last_len(t, '/');
        let tail = seq!['.'] + required;
        assert(!required.contains('.') && !required.contains('/') && !required.contains('\\')
            && !required.contains(':')) by {
            if required.contains('.') || required.contains('/') || required.contains('\\')
                || required.contains(':') {
                let i = choose|i: int|
                    0 <= i < required.len() && (required[i] == '.' || required[i] == '/'
                        || required[i] == '\\' || required[i] == ':');
                assert(is_ascii_alphanumeric(required[i]));
            }
        }
        assert(!tail.contains('/')) by {
            if tail.contains('/') {
                let i = choose|i: int| 0 <= i < tail.len() && tail[i] == '/';
                if i > 0 {
                    assert(required[i - 1] == tail[i]);
                }
            }
        }
        assert(q == t + tail) by {
            assert(t + seq!['.'] + required =~= t + tail);
        }
        lemma_after_last_append(t, tail, '/');
        let seg = f + tail;
        assert(after_last(q, '/') == seg);
        assert(seg.len() >= 3);
        assert(seg != seq!['.']);
        assert(seg != seq!['.', '.']);
        assert(file_name_of(q) == Some(seg));
        assert(seg[f.len() as int] == '.');
        assert(seg.contains('.'));
        lemma_after_last_append(f.push('.'), required, '.');
        assert(f.push('.') + required =~= seg);
        assert(after_last(f.push('.'), '.') =~= Seq::<char>::empty());
        assert(after_last(seg, '.') =~= required);
        assert(extension_of_name(seg) == Some(required));
        assert(path_extension_spec(q) == Some(required));
        assert(eq_ignore_ascii_case(required, required));
        assert(!q.contains('\\') && !q.contains(':')) by {
            if q.contains('\\') || q.contains(':') {
                let i = choose|i: int| 0 <= i < q.len() && (q[i] == '\\' || q[i] == ':');
                if i < t.len() {
                    assert(q[i] == path[i]);
                    assert(path.contains(path[i]));
                } else if i > t.len() {
                    assert(q[i] == required[i - t.len() - 1]);
                }
            }
        }
        assert(!(q.len() >= 2 && q[0] == '/' && q[1] == '/')) by {
            if t.len() >= 2 {
                assert(q[0] == path[0] && q[1] == path[1]);
            } else {
                assert(q[1] == '.');
            }
        }
    } else if path_extension_spec(path) is None {
        assert(q == path);
    } else {
        assert(q == path);
    }
}

/// The final segment of `s + u` is that of `s`, then `u`, when `u` holds no
/// separator and no `:`.
proof fn lemma_final_segment_append(s: Seq<char>, u: Seq<char>)
    requires
        forall|i: int| 0 <= i < u.len() ==> !is_separator_or_colon(#[trigger] u[i]),
    ensures
        final_segment(s + u) == final_segment(s) + u,
    decreases u.len(),
{
    if u.len() == 0 {
        assert(s + u =~= s);
        assert(final_segment(s) + u =~= final_segment(s));
    } else {
        assert(!is_separator_or_colon(u[u.len() - 1]));
        lemma_final_segment_append(s, u.drop_last());
        assert((s + u).drop_last() =~= s + u.drop_last());
        assert(final_segment(s) + u =~= (final_segment(s) + u.drop_last()).push(u.last()));
    }
}

/// The final segment of a path without `.` holds no `.`, and it is not
/// empty when the path does not end in a separator or `:`.
proof fn lemma_final_segment_dotless(p: Seq<char>)
    requires
        !p.contains('.'),
    ensures
        !final_segment(p).contains('.'),
        p.len() > 0 && !is_separator_or_colon(p.last()) ==> final_segment(p).len() > 0,
    decreases p.len(),
{
    if p.len() > 0 {
        assert(!p.drop_last().contains('.')) by {
            if p.drop_last().contains('.') {
                let i = choose|i: int| 0 <= i < p.drop_last().len() && p.drop_last()[i] == '.';
                assert(p[i] == '.');
            }
        }
        lemma_final_segment_dotless(p.drop_last());
        if !is_separator_or_colon(p.last()) {
            let f = final_segment(p.drop_last());
            assert(p[p.len() - 1] == p.last());
            assert(!f.push(p.last()).contains('.')) by {
                if f.push(p.last()).contains('.') {
                    let i = choose|i: int| 0 <= i < f.len() + 1 && f.push(p.last())[i] == '.';
                    if i < f.len() {
                        assert(f[i] == '.');
                    }
                }
            }
        }
    }
}

/// Normalizing again the export path made from a dotless file path gives
/// it back: the path followed by `.` and `required` carries `required` on
/// every platform, so normalizing it keeps it as it is, and it is found to
/// have the extension.
pub proof fn lemma_normalize_dotless_is_idempotent(
    path: Seq<char>,
    required: Seq<char>,
    error: Seq<char>,
    res: Result<String, String>,
)
    requires
        is_dotless_file_path(path),
        is_plain_extension(required),
    ensures
        evident_extension(path + seq!['.'] + required) == Some(required),
        extension_matches_spec(evident_extension(path + seq!['.'] + required), required),
        evident_normalized(path + seq!['.'] + required, required, required, error, res) <==> (res matches Ok(
            p,
        ) && p@ == path + seq!['.'] + required),
{
    let q = path + seq!['.'] + required;
    let tail = seq!['.'] + required;
    assert(q =~= path + tail);
    assert forall|i: int| 0 <= i < tail.len() implies !is_separator_or_colon(#[trigger] tail[i]) by {
        if i > 0 {
            assert(tail[i] == required[i - 1]);
            assert(is_ascii_alphanumeric(required[i - 1]));
        }
    }
    lemma_final_segment_append(path, tail);
    lemma_final_segment_dotless(path);
    let f = final_segment(path);
    let seg = f + tail;
    assert(final_segment(q) == seg);
    assert(f.len() > 0);
    assert(seg[0] == f[0]);
    assert(f[0] != '.') by {
        assert(f.contains(f[0]));
    }
    assert(seg != seq!['.', '.']);
    assert(seg[f.len() as int] == '.');
    assert(seg.contains('.'));
    assert(!required.contains('.')) by {
        if required.contains('.') {
            let i = choose|i: int| 0 <= i < required.len() && required[i] == '.';
            assert(is_ascii_alphanumeric(required[i]));
        }
    }
    lemma_after_last_append(f.push('.'), required, '.');
    assert(f.push('.') + required =~= seg);
    assert(after_last(f.push('.'), '.') =~= Seq::<char>::empty());
    assert(after_last(seg, '.') =~= required);
    assert(!(q.len() >= 2 && is_path_separator(q[0]) && is_path_separator(q[1]))) by {
        if path.len() >= 2 {
            assert(q[0] == path[0] && q[1] == path[1]);
        } else {
            assert(q[1] == '.');
        }
    }
    assert(evident_extension(q) == Some(required));
    assert(eq_ignore_ascii_case(required, required));
}

/// The export path with the package's extension: added when `path` has no
/// extension, kept when it already has it (in any ASCII case), and the path
/// refused with `error` when it has another one.
pub fn normalize_export_path_with(path: String, required: &str, error: &str) -> (res: Result<
    String,
    String,
>)
    requires
        is_plain_extension(required@),
    ensures
        res matches Err(e) ==> e@ == error@,
        res matches Ok(p) ==> p@ == path@ || p@.skip(p@.len() - required@.len() - 1) == seq!['.']
            + required@,
        !path@.contains('.') ==> res is Ok,
        is_portable_path(path@) ==> normalized_export_path(path@, required@, error@, res),
        evident_extension(path@) matches Some(x) ==> evident_normalized(path@, x, required@, error@, res),
        is_dotless_file_path(path@) ==> (res matches Ok(p) && p@ == path@ + seq!['.'] + required@),
{
    let extension = path_extension(path.as_str());
    let decision = match &extension {
        Some(e) => export_path_decision(Some(e.as_str()), required),
        None => export_path_decision(None, required),
    };
    match decision {
        ExportPathDecision::AddExtension => Ok(path_with_extension(path.as_str(), required)),
        ExportPathDecision::Keep => Ok(path),
        ExportPathDecision::Reject => Err(String::from_str(error)),
    }
}

} // verus!
