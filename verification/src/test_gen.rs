//! Test generation: the prompt sent to the agent, the parser of its answer
//! and the confinement of generated file paths to the output directory.

use vstd::prelude::*;

use crate::text::{
    append_chars, chars_eq, chars_of, has_at, is_blank, join, join_vec, lines_of, lines_vec,
    replace_all, replace_vec, slice_chars, split_on, split_vec,
    string_of, trim, trim_chars,
};

verus! {

/// One generated test file: its path relative to the output directory and its content.
#[derive(Debug, Clone, PartialEq, Eq)]
pub struct GeneratedFile {
    pub path: String,
    pub content: String,
}

/// The files and the summary found in the agent's answer.
#[derive(Debug, Clone, PartialEq, Eq)]
pub struct ParsedSections {
    pub files: Vec<GeneratedFile>,
    pub summary: Option<String>,
}

/// Why a generated answer could not be written.
#[derive(Debug, Clone, PartialEq, Eq)]
pub enum TestGenError {
    /// A generated file path climbs out of the output directory.
    PathEscapesOutputDir,
}

impl TestGenError {
    pub fn message(&self) -> (r: String)
        ensures
            r@ == "generated file path cannot escape output directory"@,
    {
        "generated file path cannot escape output directory".to_owned()
    }
}

pub open spec fn starts_with(s: Seq<char>, p: Seq<char>) -> bool {
    s.len() >= p.len() && s.take(p.len() as int) == p
}

pub open spec fn ends_with(s: Seq<char>, p: Seq<char>) -> bool {
    s.len() >= p.len() && s.skip(s.len() - p.len()) == p
}

/// A fenced block (```lang ... ```) reduced to its body; other text only trimmed.
pub open spec fn strip_code_fence_spec(content: Seq<char>) -> Seq<char> {
    let t = trim(content);
    if starts_with(t, "```"@) {
        let ls = lines_of(t.skip(3));
        let body = join(if ls.len() > 0 { ls.drop_first() } else { ls }, "\n"@);
        let stripped = if ends_with(body, "```"@) { body.take(body.len() - 3) } else { body };
        trim(stripped)
    } else {
        t
    }
}

/// The path of a `=== FILE: <path> ===` line, untrimmed.
pub open spec fn header_path(l: Seq<char>) -> Option<Seq<char>> {
    if starts_with(l, "=== FILE: "@) && ends_with(l.skip(10), " ==="@) {
        Some(l.skip(10).take(l.len() - 14))
    } else {
        None
    }
}

/// A `=== SUMMARY ===` line, surrounding whitespace allowed.
pub open spec fn is_summary_marker(l: Seq<char>) -> bool {
    trim(l) == "=== SUMMARY ==="@
}

/// Parser state: finished files, the open file's path and lines, the summary
/// lines and whether the summary section is open.
pub type ParseState = (Seq<(Seq<char>, Seq<char>)>, Option<Seq<char>>, Seq<Seq<char>>, Seq<Seq<char>>, bool);

/// The finished files once the open file, if any, is closed.
pub open spec fn flush(st: ParseState) -> Seq<(Seq<char>, Seq<char>)> {
    match st.1 {
        Some(p) => st.0.push((p, strip_code_fence_spec(join(st.2, "\n"@)))),
        None => st.0,
    }
}

/// The parser's reaction to one line of the answer.
pub open spec fn parse_step(st: ParseState, l: Seq<char>) -> ParseState {
    let cleared = if st.1 is Some { Seq::<Seq<char>>::empty() } else { st.2 };
    match header_path(l) {
        Some(p) => (flush(st), Some(trim(p)), cleared, st.3, false),
        None => {
            if is_summary_marker(l) {
                (flush(st), None, cleared, st.3, true)
            } else if st.4 {
                (st.0, st.1, st.2, st.3.push(l), st.4)
            } else if st.1 is Some {
                (st.0, st.1, st.2.push(l), st.3, st.4)
            } else {
                st
            }
        },
    }
}

pub open spec fn parse_fold(ls: Seq<Seq<char>>) -> ParseState
    decreases ls.len(),
{
    if ls.len() == 0 {
        (Seq::empty(), None, Seq::empty(), Seq::empty(), false)
    } else {
        parse_step(parse_fold(ls.drop_last()), ls.last())
    }
}

/// The files of the answer: path and fence-stripped content of each `=== FILE: ===` section.
pub open spec fn parsed_files(generated: Seq<char>) -> Seq<(Seq<char>, Seq<char>)> {
    flush(parse_fold(lines_of(generated)))
}

/// The summary section of the answer, trimmed, if it has any line.
pub open spec fn parsed_summary(generated: Seq<char>) -> Option<Seq<char>> {
    let st = parse_fold(lines_of(generated));
    if st.3.len() > 0 {
        Some(trim(join(st.3, "\n"@)))
    } else {
        None
    }
}

/// Number of `=== FILE: ===` lines among `ls`.
pub open spec fn count_headers(ls: Seq<Seq<char>>) -> nat
    decreases ls.len(),
{
    if ls.len() == 0 {
        0
    } else {
        count_headers(ls.drop_last()) + if header_path(ls.last()) is Some { 1nat } else { 0nat }
    }
}

pub open spec fn file_view(f: GeneratedFile) -> (Seq<char>, Seq<char>) {
    (f.path@, f.content@)
}

pub proof fn lemma_fold_counts_headers(ls: Seq<Seq<char>>)
    ensures
        parse_fold(ls).0.len() + (if parse_fold(ls).1 is Some { 1nat } else { 0nat })
            == count_headers(ls),
    decreases ls.len(),
{
    if ls.len() > 0 {
        lemma_fold_counts_headers(ls.drop_last());
    }
}

/// Each `=== FILE: <path> ===` line of the answer yields exactly one generated file.
pub proof fn lemma_one_file_per_header(generated: Seq<char>)
    ensures
        parsed_files(generated).len() == count_headers(lines_of(generated)),
{
    lemma_fold_counts_headers(lines_of(generated));
}

/// A line that starts a section: a file header or a summary marker.
pub open spec fn is_marker(l: Seq<char>) -> bool {
    header_path(l) is Some || is_summary_marker(l)
}

/// The index of the first section-starting line at or after `j`, or the
/// number of lines when there is none.
pub open spec fn next_marker(ls: Seq<Seq<char>>, j: int) -> int
    decreases ls.len() - j,
{
    if j >= ls.len() {
        ls.len() as int
    } else if is_marker(ls[j]) {
        j
    } else {
        next_marker(ls, j + 1)
    }
}

/// The indices of the file header lines, in order.
pub open spec fn header_lines(ls: Seq<Seq<char>>) -> Seq<int>
    decreases ls.len(),
{
    if ls.len() == 0 {
        Seq::empty()
    } else if header_path(ls.last()) is Some {
        header_lines(ls.drop_last()).push(ls.len() - 1)
    } else {
        header_lines(ls.drop_last())
    }
}

/// The file opened by the header at line `i`: the header's trimmed path, and
/// the fence-stripped text of the lines after it up to the next section.
pub open spec fn file_at(ls: Seq<Seq<char>>, i: int) -> (Seq<char>, Seq<char>) {
    (
        trim(header_path(ls[i]).unwrap()),
        strip_code_fence_spec(join(ls.subrange(i + 1, next_marker(ls, i + 1)), "\n"@)),
    )
}

/// A summary marker that is not a file header (headers take precedence).
pub open spec fn is_summary_line(l: Seq<char>) -> bool {
    header_path(l) is None && is_summary_marker(l)
}

/// Line `j` lies in a summary section: a summary marker comes before it with
/// no file header in between.
pub open spec fn in_summary_at(ls: Seq<Seq<char>>, j: int) -> bool {
    exists|i: int| 0 <= i < j && #[trigger] is_summary_line(ls[i])
        && forall|k: int| i < k < j ==> header_path(#[trigger] ls[k]) is None
}

/// The lines of the summary sections, markers left out, in order.
pub open spec fn summary_lines_of(ls: Seq<Seq<char>>) -> Seq<Seq<char>>
    decreases ls.len(),
{
    if ls.len() == 0 {
        Seq::empty()
    } else if !is_marker(ls.last()) && in_summary_at(ls, ls.len() - 1) {
        summary_lines_of(ls.drop_last()).push(ls.last())
    } else {
        summary_lines_of(ls.drop_last())
    }
}

proof fn lemma_next_marker(ls: Seq<Seq<char>>, j: int)
    requires
        0 <= j <= ls.len(),
    ensures
        j <= next_marker(ls, j) <= ls.len(),
        next_marker(ls, j) < ls.len() ==> is_marker(ls[next_marker(ls, j)]),
        forall|k: int| j <= k < next_marker(ls, j) ==> !is_marker(#[trigger] ls[k]),
    decreases ls.len() - j,
{
    if j < ls.len() && !is_marker(ls[j]) {
        lemma_next_marker(ls, j + 1);
    }
}

proof fn lemma_next_marker_is(ls: Seq<Seq<char>>, j: int, m: int)
    requires
        0 <= j <= m <= ls.len(),
        forall|k: int| j <= k < m ==> !is_marker(#[trigger] ls[k]),
        m < ls.len() ==> is_marker(ls[m]),
    ensures
        next_marker(ls, j) == m,
    decreases ls.len() - j,
{
    if j < m {
        assert(!is_marker(ls[j]));
        lemma_next_marker_is(ls, j + 1, m);
    }
}

/// Adding a line after the end does not move a section end that was already
/// found, nor one that the added line ends.
proof fn lemma_next_marker_push(p: Seq<Seq<char>>, l: Seq<char>, j: int)
    requires
        0 <= j <= p.len(),
    ensures
        (next_marker(p, j) < p.len() || is_marker(l)) ==> next_marker(p.push(l), j) == next_marker(p, j),
        (next_marker(p, j) == p.len() && !is_marker(l)) ==> next_marker(p.push(l), j) == p.len() + 1,
{
    let ls = p.push(l);
    lemma_next_marker(p, j);
    let m = next_marker(p, j);
    assert forall|k: int| j <= k < m implies !is_marker(#[trigger] ls[k]) by {
        assert(ls[k] == p[k]);
    }
    if m < p.len() {
        assert(ls[m] == p[m]);
        lemma_next_marker_is(ls, j, m);
    } else if is_marker(l) {
        assert(ls[m] == l);
        lemma_next_marker_is(ls, j, m);
    } else {
        assert forall|k: int| j <= k < p.len() + 1 implies !is_marker(#[trigger] ls[k]) by {
            if k < p.len() {
                assert(ls[k] == p[k]);
            }
        }
        lemma_next_marker_is(ls, j, (p.len() + 1) as int);
    }
}

proof fn lemma_header_lines(ls: Seq<Seq<char>>)
    ensures
        forall|k: int| 0 <= k < header_lines(ls).len() ==> 0 <= #[trigger] header_lines(ls)[k] < ls.len()
            && header_path(ls[header_lines(ls)[k]]) is Some,
        forall|a: int, b: int| 0 <= a < b < header_lines(ls).len() ==> #[trigger] header_lines(ls)[a] < #[trigger] header_lines(ls)[b],
        forall|i: int| 0 <= i < ls.len() && header_path(#[trigger] ls[i]) is Some ==> header_lines(ls).contains(i),
    decreases ls.len(),
{
    if ls.len() > 0 {
        let p = ls.drop_last();
        lemma_header_lines(p);
        assert forall|k: int| 0 <= k < header_lines(p).len() implies header_path(ls[header_lines(p)[k]]) is Some by {
            assert(ls[header_lines(p)[k]] == p[header_lines(p)[k]]);
        }
        assert forall|i: int| 0 <= i < ls.len() && header_path(#[trigger] ls[i]) is Some implies header_lines(ls).contains(i) by {
            if i < ls.len() - 1 {
                assert(ls[i] == p[i]);
                let k = choose|k: int| 0 <= k < header_lines(p).len() && header_lines(p)[k] == i;
                assert(header_lines(ls)[k] == i);
            } else {
                assert(header_lines(ls)[header_lines(ls).len() - 1] == i);
            }
        }
    }
}

/// Whether the last file of `p` runs to its end (its section is not closed yet).
pub open spec fn last_file_open(p: Seq<Seq<char>>) -> bool {
    header_lines(p).len() > 0 && next_marker(p, header_lines(p).last() + 1) == p.len()
}

/// What the parser holds after the lines `p`, stated directly.
pub open spec fn fold_matches(p: Seq<Seq<char>>, st: ParseState) -> bool {
    let h = header_lines(p);
    &&& st.3 == summary_lines_of(p)
    &&& st.4 == in_summary_at(p, p.len() as int)
    &&& if last_file_open(p) {
        &&& st.1 == Some(trim(header_path(p[h.last()]).unwrap()))
        &&& st.2 == p.subrange(h.last() + 1, p.len() as int)
        &&& st.0 == h.drop_last().map_values(|i: int| file_at(p, i))
    } else {
        &&& st.1 is None
        &&& st.2 == Seq::<Seq<char>>::empty()
        &&& st.0 == h.map_values(|i: int| file_at(p, i))
    }
}

/// A file whose section had already ended keeps its content when a line is added.
proof fn lemma_file_at_push(p: Seq<Seq<char>>, l: Seq<char>, i: int)
    requires
        0 <= i < p.len(),
        next_marker(p, i + 1) < p.len() || is_marker(l),
    ensures
        file_at(p.push(l), i) == file_at(p, i),
{
    lemma_next_marker_push(p, l, i + 1);
    lemma_next_marker(p, i + 1);
    assert(p.push(l)[i] == p[i]);
    assert(p.push(l).subrange(i + 1, next_marker(p, i + 1)) =~= p.subrange(i + 1, next_marker(p, i + 1)));
}

proof fn lemma_fold_matches(ls: Seq<Seq<char>>)
    ensures
        fold_matches(ls, parse_fold(ls)),
    decreases ls.len(),
{
    if ls.len() == 0 {
        assert(header_lines(ls).map_values(|i: int| file_at(ls, i)) =~= Seq::<(Seq<char>, Seq<char>)>::empty());
        assert(fold_matches(ls, parse_fold(ls)));
    } else {
        let p = ls.drop_last();
        let l = ls.last();
        let n = p.len() as int;
        assert(ls == p.push(l));
        lemma_fold_matches(p);
        lemma_header_lines(p);
        lemma_header_lines(ls);
        let st = parse_fold(p);
        let hp = header_lines(p);
        // In p, every header but the last is closed by the next header.
        assert forall|k: int| 0 <= k < hp.len() - 1 implies next_marker(p, #[trigger] hp[k] + 1) < n by {
            lemma_next_marker(p, hp[k] + 1);
            assert(hp[k] < hp[k + 1]);
            assert(is_marker(p[hp[k + 1]]));
        }
        // A summary section open at the end of p closes the last file.
        if in_summary_at(p, n) && hp.len() > 0 {
            let i = choose|i: int| 0 <= i < n && #[trigger] is_summary_line(p[i])
                && forall|k: int| i < k < n ==> header_path(#[trigger] p[k]) is None;
            let h = hp.last();
            assert(hp[hp.len() - 1] == h);
            assert(h != i);
            if h > i {
                assert(header_path(p[h]) is Some);
            }
            assert(h < i);
            lemma_next_marker(p, h + 1);
            assert(is_marker(p[i]));
            assert(next_marker(p, h + 1) <= i);
            assert(!last_file_open(p));
        }
        // Summary state carries over to the longer sequence.
        assert(in_summary_at(ls, n) == in_summary_at(p, n)) by {
            if in_summary_at(p, n) {
                let i = choose|i: int| 0 <= i < n && #[trigger] is_summary_line(p[i])
                    && forall|k: int| i < k < n ==> header_path(#[trigger] p[k]) is None;
                assert(ls[i] == p[i]);
                assert forall|k: int| i < k < n implies header_path(#[trigger] ls[k]) is None by {
                    assert(ls[k] == p[k]);
                }
            }
            if in_summary_at(ls, n) {
                let i = choose|i: int| 0 <= i < n && #[trigger] is_summary_line(ls[i])
                    && forall|k: int| i < k < n ==> header_path(#[trigger] ls[k]) is None;
                assert(ls[i] == p[i]);
                assert forall|k: int| i < k < n implies header_path(#[trigger] p[k]) is None by {
                    assert(ls[k] == p[k]);
                }
            }
        }
        assert(summary_lines_of(ls.drop_last()) == summary_lines_of(p));
        let hl = header_lines(ls);
        if header_path(l) is Some {
            assert(hl == hp.push(n));
            // The new header is open.
            lemma_next_marker_is(ls, n + 1, n + 1);
            assert(last_file_open(ls));
            assert(hl.drop_last() =~= hp);
            assert forall|k: int| 0 <= k < hp.len() implies file_at(ls, #[trigger] hp[k]) == file_at(p, hp[k]) by {
                if k < hp.len() - 1 {
                    lemma_file_at_push(p, l, hp[k]);
                } else {
                    lemma_file_at_push(p, l, hp[k]);
                }
            }
            assert(flush(st) == hp.map_values(|i: int| file_at(p, i))) by {
                if last_file_open(p) {
                    assert(hp.drop_last().push(hp.last()) =~= hp);
                    assert(hp.map_values(|i: int| file_at(p, i)) =~= hp.drop_last().map_values(|i: int| file_at(p, i)).push(file_at(p, hp.last())));
                }
            }
            assert(hl.drop_last().map_values(|i: int| file_at(ls, i)) =~= hp.map_values(|i: int| file_at(p, i)));
            assert(ls.subrange(n + 1, n + 1) =~= Seq::<Seq<char>>::empty());
            assert(!in_summary_at(ls, n + 1)) by {
                if in_summary_at(ls, n + 1) {
                    let i = choose|i: int| 0 <= i < n + 1 && #[trigger] is_summary_line(ls[i])
                        && forall|k: int| i < k < n + 1 ==> header_path(#[trigger] ls[k]) is None;
                    assert(ls[n] == l);
                }
            }
            assert(fold_matches(ls, parse_fold(ls)));
        } else if is_summary_marker(l) {
            assert(hl == hp);
            assert(is_marker(l));
            assert(!last_file_open(ls)) by {
                if hp.len() > 0 {
                    lemma_next_marker_push(p, l, hp.last() + 1);
                    lemma_next_marker(p, hp.last() + 1);
                }
            }
            assert forall|k: int| 0 <= k < hp.len() implies file_at(ls, #[trigger] hp[k]) == file_at(p, hp[k]) by {
                lemma_file_at_push(p, l, hp[k]);
            }
            assert(flush(st) == hp.map_values(|i: int| file_at(p, i))) by {
                if last_file_open(p) {
                    assert(hp.drop_last().push(hp.last()) =~= hp);
                    assert(hp.map_values(|i: int| file_at(p, i)) =~= hp.drop_last().map_values(|i: int| file_at(p, i)).push(file_at(p, hp.last())));
                }
            }
            assert(hl.map_values(|i: int| file_at(ls, i)) =~= hp.map_values(|i: int| file_at(p, i)));
            assert(ls[n] == l);
            assert(is_summary_line(ls[n]));
            assert(in_summary_at(ls, n + 1));
            assert(fold_matches(ls, parse_fold(ls)));
        } else {
            assert(hl == hp);
            assert(!is_marker(l));
            assert(ls[n] == l);
            // Summary state after a plain line.
            assert(in_summary_at(ls, n + 1) == in_summary_at(ls, n)) by {
                if in_summary_at(ls, n + 1) {
                    let i = choose|i: int| 0 <= i < n + 1 && #[trigger] is_summary_line(ls[i])
                        && forall|k: int| i < k < n + 1 ==> header_path(#[trigger] ls[k]) is None;
                    assert(i != n);
                    assert forall|k: int| i < k < n implies header_path(#[trigger] ls[k]) is None by {}
                }
                if in_summary_at(ls, n) {
                    let i = choose|i: int| 0 <= i < n && #[trigger] is_summary_line(ls[i])
                        && forall|k: int| i < k < n ==> header_path(#[trigger] ls[k]) is None;
                    assert forall|k: int| i < k < n + 1 implies header_path(#[trigger] ls[k]) is None by {
                        if k == n {
                            assert(ls[k] == l);
                        }
                    }
                }
            }
            if hp.len() > 0 {
                lemma_next_marker_push(p, l, hp.last() + 1);
                lemma_next_marker(p, hp.last() + 1);
            }
            assert(last_file_open(ls) == last_file_open(p));
            if last_file_open(p) {
                assert forall|k: int| 0 <= k < hp.len() - 1 implies file_at(ls, #[trigger] hp[k]) == file_at(p, hp[k]) by {
                    lemma_file_at_push(p, l, hp[k]);
                }
                assert(hl.drop_last().map_values(|i: int| file_at(ls, i)) =~= hp.drop_last().map_values(|i: int| file_at(p, i)));
                assert(ls.subrange(hp.last() + 1, n + 1) =~= p.subrange(hp.last() + 1, n).push(l));
                assert(ls[hp.last()] == p[hp.last()]);
            } else {
                assert forall|k: int| 0 <= k < hp.len() implies file_at(ls, #[trigger] hp[k]) == file_at(p, hp[k]) by {
                    if k == hp.len() - 1 {
                        lemma_next_marker(p, hp[k] + 1);
                    }
                    lemma_file_at_push(p, l, hp[k]);
                }
                assert(hl.map_values(|i: int| file_at(ls, i)) =~= hp.map_values(|i: int| file_at(p, i)));
            }
            assert(fold_matches(ls, parse_fold(ls)));
        }
    }
}

/// The answer's files and summary, stated directly: one file per
/// `=== FILE: <path> ===` line, in order, with the trimmed path and the
/// fence-stripped lines after it up to the next `FILE` or `SUMMARY` line;
/// the summary is the trimmed text of the lines that follow a `SUMMARY` line
/// before the next `FILE` line, and there is none when no such line exists.
pub proof fn lemma_parsed_sections(generated: Seq<char>)
    ensures
        parsed_files(generated) == header_lines(lines_of(generated)).map_values(|i: int| file_at(lines_of(generated), i)),
        parsed_summary(generated) == (if summary_lines_of(lines_of(generated)).len() > 0 {
            Some(trim(join(summary_lines_of(lines_of(generated)), "\n"@)))
        } else {
            None
        }),
{
    let ls = lines_of(generated);
    lemma_fold_matches(ls);
    let st = parse_fold(ls);
    let h = header_lines(ls);
    if last_file_open(ls) {
        assert(h.drop_last().push(h.last()) =~= h);
        assert(h.map_values(|i: int| file_at(ls, i)) =~= h.drop_last().map_values(|i: int| file_at(ls, i)).push(file_at(ls, h.last())));
    }
}

/// Whether `v` starts with `p`.
fn starts_with_vec(v: &Vec<char>, p: &Vec<char>) -> (r: bool)
    ensures
        r == starts_with(v@, p@),
{
    let r = has_at(v, 0, p);
    proof {
        if p.len() <= v.len() {
            assert(v@.subrange(0, p.len() as int) =~= v@.take(p.len() as int));
        }
    }
    r
}

/// Whether `v` ends with `p`.
fn ends_with_vec(v: &Vec<char>, p: &Vec<char>) -> (r: bool)
    ensures
        r == ends_with(v@, p@),
{
    if p.len() > v.len() {
        return false;
    }
    let r = has_at(v, v.len() - p.len(), p);
    proof {
        assert(v@.subrange(v.len() - p.len(), v.len() as int) =~= v@.skip(v.len() - p.len()));
    }
    r
}

/// Removes a surrounding Markdown code fence from a generated file body.
pub fn strip_code_fence(content: &Vec<char>) -> (r: Vec<char>)
    ensures
        r@ == strip_code_fence_spec(content@),
{
    let t = trim_chars(content);
    let fence = chars_of("```");
    proof {
        reveal_strlit("```");
    }
    if starts_with_vec(&t, &fence) {
        let rest = slice_chars(&t, 3, t.len());
        assert(rest@ =~= t@.skip(3));
        let ls = lines_vec(&rest);
        let mut tail: Vec<Vec<char>> = Vec::new();
        let mut i: usize = 1;
        while i < ls.len()
            invariant
                1 <= i,
                i <= ls.len() || (ls.len() == 0 && i == 1),
                tail@.len() == i - 1,
                ls@.len() == lines_of(rest@).len(),
                forall|j: int| 0 <= j < ls@.len() ==> (#[trigger] ls@[j])@ == lines_of(rest@)[j],
                forall|j: int| 0 <= j < tail@.len() ==> (#[trigger] tail@[j])@ == ls@[j + 1]@,
            decreases ls.len() - i,
        {
            let line = slice_chars(&ls[i], 0, ls[i].len());
            assert(line@ =~= ls@[i as int]@);
            tail.push(line);
            i = i + 1;
        }
        let ghost all = lines_of(t@.skip(3));
        proof {
            assert(all == lines_of(rest@));
            assert(tail@.len() == if all.len() > 0 { all.len() - 1 } else { 0 });
            let dropped = if all.len() > 0 { all.drop_first() } else { all };
            assert(tail@.map_values(|l: Vec<char>| l@) =~= dropped);
        }
        let nl = chars_of("\n");
        let body = join_vec(&tail, &nl);
        let stripped = if ends_with_vec(&body, &fence) {
            slice_chars(&body, 0, body.len() - 3)
        } else {
            slice_chars(&body, 0, body.len())
        };
        proof {
            if ends_with(body@, "```"@) {
                assert(stripped@ =~= body@.take(body.len() - 3));
            } else {
                assert(stripped@ =~= body@);
            }
        }
        trim_chars(&stripped)
    } else {
        t
    }
}

/// The path of a `=== FILE: <path> ===` line.
fn header_path_of(l: &Vec<char>) -> (r: Option<Vec<char>>)
    ensures
        match r {
            Some(p) => header_path(l@) == Some(p@),
            None => header_path(l@) is None,
        },
{
    let prefix = chars_of("=== FILE: ");
    let suffix = chars_of(" ===");
    proof {
        reveal_strlit("=== FILE: ");
        reveal_strlit(" ===");
    }
    if !starts_with_vec(l, &prefix) {
        return None;
    }
    let rest = slice_chars(l, 10, l.len());
    assert(rest@ =~= l@.skip(10));
    if !ends_with_vec(&rest, &suffix) {
        return None;
    }
    let p = slice_chars(l, 10, l.len() - 4);
    assert(p@ =~= l@.skip(10).take(l.len() - 14));
    Some(p)
}

proof fn lemma_fold_step(ls: Seq<Seq<char>>, i: int)
    requires
        0 <= i < ls.len(),
    ensures
        parse_fold(ls.take(i + 1)) == parse_step(parse_fold(ls.take(i)), ls[i]),
{
    assert(ls.take(i + 1).drop_last() =~= ls.take(i));
}

/// Splits the agent's answer into generated files and a summary.
///
/// A `=== FILE: <path> ===` line opens a file whose body is the following lines;
/// a `=== SUMMARY ===` line opens the summary; fences around bodies are removed.
pub fn parse_generated_sections(generated: &str) -> (r: ParsedSections)
    ensures
        r.files@.map_values(|f: GeneratedFile| file_view(f)) == parsed_files(generated@),
        match r.summary {
            Some(s) => parsed_summary(generated@) == Some(s@),
            None => parsed_summary(generated@) is None,
        },
        r.files@.len() == count_headers(lines_of(generated@)),
        r.files@.map_values(|f: GeneratedFile| file_view(f))
            == header_lines(lines_of(generated@)).map_values(|i: int| file_at(lines_of(generated@), i)),
        r.files@.len() == header_lines(lines_of(generated@)).len(),
        forall|k: int| 0 <= k < r.files@.len() ==> file_view(#[trigger] r.files@[k])
            == file_at(lines_of(generated@), header_lines(lines_of(generated@))[k]),
        match r.summary {
            Some(s) => summary_lines_of(lines_of(generated@)).len() > 0
                && s@ == trim(join(summary_lines_of(lines_of(generated@)), "\n"@)),
            None => summary_lines_of(lines_of(generated@)).len() == 0,
        },
{
    let text = chars_of(generated);
    let ls = lines_vec(&text);
    let ghost lines = lines_of(generated@);
    let mut files: Vec<GeneratedFile> = Vec::new();
    let mut current_path: Option<Vec<char>> = None;
    let mut current_lines: Vec<Vec<char>> = Vec::new();
    let mut summary_lines: Vec<Vec<char>> = Vec::new();
    let mut in_summary: bool = false;
    let marker = chars_of("=== SUMMARY ===");
    let nl = chars_of("\n");
    assert(lines.take(0) =~= Seq::<Seq<char>>::empty());
    let mut i: usize = 0;
    while i < ls.len()
        invariant
            i <= ls.len(),
            lines == lines_of(generated@),
            ls@.len() == lines.len(),
            forall|j: int| 0 <= j < ls@.len() ==> (#[trigger] ls@[j])@ == lines[j],
            marker@ == "=== SUMMARY ==="@,
            nl@ == "\n"@,
            ({
                let st = parse_fold(lines.take(i as int));
                &&& files@.map_values(|f: GeneratedFile| file_view(f)) == st.0
                &&& match current_path {
                    Some(p) => st.1 == Some(p@),
                    None => st.1 is None,
                }
                &&& current_lines@.map_values(|l: Vec<char>| l@) == st.2
                &&& summary_lines@.map_values(|l: Vec<char>| l@) == st.3
                &&& in_summary == st.4
            }),
        decreases ls.len() - i,
    {
        proof {
            lemma_fold_step(lines, i as int);
        }
        let ghost st = parse_fold(lines.take(i as int));
        let line = slice_chars(&ls[i], 0, ls[i].len());
        assert(line@ =~= lines[i as int]);
        let header = header_path_of(&line);
        let trimmed_line = trim_chars(&line);
        let is_marker = chars_eq(&trimmed_line, &marker);
        if header.is_some() || is_marker {
            let ghost before = files@.map_values(|f: GeneratedFile| file_view(f));
            let had_current = current_path.is_some();
            if let Some(p) = current_path {
                let body = join_vec(&current_lines, &nl);
                let content = strip_code_fence(&body);
                files.push(GeneratedFile { path: string_of(&p), content: string_of(&content) });
                current_lines = Vec::new();
            }
            proof {
                assert(files@.map_values(|f: GeneratedFile| file_view(f)) =~= flush(st));
                if had_current {
                    assert(current_lines@.map_values(|l: Vec<char>| l@) =~= Seq::<Seq<char>>::empty());
                }
            }
            match header {
                Some(p) => {
                    current_path = Some(trim_chars(&p));
                    in_summary = false;
                },
                None => {
                    current_path = None;
                    in_summary = true;
                },
            }
        } else if in_summary {
            let ghost before = summary_lines@.map_values(|l: Vec<char>| l@);
            summary_lines.push(line);
            assert(summary_lines@.map_values(|l: Vec<char>| l@) =~= before.push(lines[i as int]));
        } else if current_path.is_some() {
            let ghost before = current_lines@.map_values(|l: Vec<char>| l@);
            current_lines.push(line);
            assert(current_lines@.map_values(|l: Vec<char>| l@) =~= before.push(lines[i as int]));
        }
        i = i + 1;
    }
    assert(lines.take(ls.len() as int) =~= lines);
    let ghost st = parse_fold(lines);
    if let Some(p) = current_path {
        let body = join_vec(&current_lines, &nl);
        let content = strip_code_fence(&body);
        files.push(GeneratedFile { path: string_of(&p), content: string_of(&content) });
    }
    assert(files@.map_values(|f: GeneratedFile| file_view(f)) =~= flush(st));
    let summary = if summary_lines.len() > 0 {
        let joined = join_vec(&summary_lines, &nl);
        let t = trim_chars(&joined);
        Some(string_of(&t))
    } else {
        None
    };
    proof {
        lemma_one_file_per_header(generated@);
        lemma_parsed_sections(generated@);
        let ls = lines_of(generated@);
        let direct = header_lines(ls).map_values(|i: int| file_at(ls, i));
        assert(files@.map_values(|f: GeneratedFile| file_view(f)) == direct);
        assert forall|k: int| 0 <= k < files@.len() implies file_view(#[trigger] files@[k])
            == file_at(ls, header_lines(ls)[k]) by {
            assert(files@.map_values(|f: GeneratedFile| file_view(f))[k] == direct[k]);
        }
    }
    ParsedSections { files, summary }
}

} // verus!

verus! {

/// `s` with every backslash turned into a slash.
pub open spec fn unslash(s: Seq<char>) -> Seq<char> {
    s.map_values(|c: char| if c == '\\' { '/' } else { c })
}

/// `p` extended by the relative segment `seg`, as `PathBuf::push` does on Unix.
pub open spec fn push_path(p: Seq<char>, seg: Seq<char>) -> Seq<char> {
    if p.len() > 0 && p.last() != '/' {
        p + "/"@ + seg
    } else {
        p + seg
    }
}

/// The path built so far from the segments `segs`, or `None` once a `..` is met.
pub open spec fn push_segments(base: Seq<char>, segs: Seq<Seq<char>>) -> Option<Seq<char>>
    decreases segs.len(),
{
    if segs.len() == 0 {
        Some(base)
    } else {
        match push_segments(base, segs.drop_last()) {
            None => None,
            Some(p) => {
                let seg = segs.last();
                if seg.len() == 0 || seg == "."@ {
                    Some(p)
                } else if seg == ".."@ {
                    None
                } else {
                    Some(push_path(p, seg))
                }
            },
        }
    }
}

/// `base` joined with the relative name `name`, with a `/` between them
/// unless `base` is empty or already ends with one (`Path::join` on Unix).
pub fn join_path(base: &str, name: &str) -> (r: String)
    ensures
        r@ == push_path(base@, name@),
{
    let b = chars_of(base);
    let mut out = chars_of(base);
    if b.len() > 0 && b[b.len() - 1] != '/' {
        out.push('/');
    }
    append_chars(&mut out, &chars_of(name));
    proof {
        reveal_strlit("/");
        assert(out@ =~= push_path(base@, name@));
    }
    string_of(&out)
}

/// The output path of a generated file, or `None` when it names a parent directory.
pub open spec fn sanitized_path(base: Seq<char>, relative: Seq<char>) -> Option<Seq<char>> {
    push_segments(base, split_on(unslash(relative), '/'))
}

proof fn lemma_push_segments(base: Seq<char>, segs: Seq<Seq<char>>)
    ensures
        segs.contains(".."@) ==> push_segments(base, segs) is None,
        push_segments(base, segs) matches Some(p) ==> starts_with(p, base),
    decreases segs.len(),
{
    if segs.len() == 0 {
        assert(base.take(base.len() as int) =~= base);
    } else {
        let init = segs.drop_last();
        lemma_push_segments(base, init);
        if segs.contains(".."@) && !init.contains(".."@) {
            let k = choose|k: int| 0 <= k < segs.len() && segs[k] == ".."@;
            if k < segs.len() - 1 {
                assert(init[k] == segs[k]);
            }
            reveal_strlit("..");
            reveal_strlit(".");
            assert(".."@.len() != "."@.len());
        }
        if let Some(p) = push_segments(base, init) {
            let seg = segs.last();
            assert(push_path(p, seg).take(p.len() as int) =~= p);
            assert(p.take(base.len() as int) == base);
            assert(push_path(p, seg).take(base.len() as int) =~= p.take(base.len() as int));
        }
    }
}

/// A sanitised path stays under the output directory: it starts with the
/// directory, and a relative path with a `..` segment is refused.
pub proof fn lemma_sanitized_path_stays_inside(base: Seq<char>, relative: Seq<char>)
    ensures
        sanitized_path(base, relative) matches Some(p) ==> starts_with(p, base),
        split_on(unslash(relative), '/').contains(".."@) ==> sanitized_path(base, relative) is None,
{
    lemma_push_segments(base, split_on(unslash(relative), '/'));
}

/// The path under `base_dir` at which a generated file named `relative` is written.
pub fn sanitize_output_path(base_dir: &str, relative: &str) -> (r: Result<String, TestGenError>)
    ensures
        match r {
            Ok(p) => sanitized_path(base_dir@, relative@) == Some(p@),
            Err(e) => sanitized_path(base_dir@, relative@) is None
                && e == TestGenError::PathEscapesOutputDir,
        },
{
    let rel = chars_of(relative);
    let mut unslashed: Vec<char> = Vec::new();
    let mut i: usize = 0;
    while i < rel.len()
        invariant
            i <= rel.len(),
            unslashed@ == unslash(rel@).take(i as int),
        decreases rel.len() - i,
    {
        let c = rel[i];
        unslashed.push(if c == '\\' { '/' } else { c });
        i = i + 1;
        assert(unslashed@ =~= unslash(rel@).take(i as int));
    }
    assert(unslashed@ =~= unslash(rel@));
    let segs = split_vec(&unslashed, '/');
    let ghost all = split_on(unslash(relative@), '/');
    let mut path = chars_of(base_dir);
    let dot = chars_of(".");
    let dotdot = chars_of("..");
    let slash = chars_of("/");
    let mut j: usize = 0;
    assert(all.take(0) =~= Seq::<Seq<char>>::empty());
    while j < segs.len()
        invariant
            j <= segs.len(),
            all == segs@.map_values(|l: Vec<char>| l@),
            all == split_on(unslash(relative@), '/'),
            dot@ == "."@,
            dotdot@ == ".."@,
            slash@ == "/"@,
            push_segments(base_dir@, all.take(j as int)) == Some(path@),
        decreases segs.len() - j,
    {
        proof {
            assert(all.take(j + 1).drop_last() =~= all.take(j as int));
        }
        let seg = &segs[j];
        assert(seg@ == all[j as int]);
        if seg.len() == 0 || chars_eq(seg, &dot) {
        } else if chars_eq(seg, &dotdot) {
            proof {
                assert(all[j as int] == ".."@);
                assert(all.contains(".."@));
                lemma_push_segments(base_dir@, all);
                assert(all == split_on(unslash(relative@), '/'));
                assert(sanitized_path(base_dir@, relative@) is None);
            }
            return Err(TestGenError::PathEscapesOutputDir);
        } else {
            if path.len() > 0 && path[path.len() - 1] != '/' {
                append_chars(&mut path, &slash);
            }
            append_chars(&mut path, seg);
        }
        j = j + 1;
    }
    assert(all.take(segs.len() as int) =~= all);
    Ok(string_of(&path))
}

/// The instructions sent to the agent for test generation; `{language}`,
/// `{existing_test_dir}` and `{diff_content}` are filled in per run.
pub const TEST_GEN_PROMPT_TEMPLATE: &'static str = "你是一个资深测试工程师。请根据以下新增代码为其生成高质量的单元测试用例。

## 约束与要求

1. **测试框架**：自动识别项目所用的测试框架并沿用。如果项目中尚无测试，根据语言选择最主流的框架。
2. **覆盖范围**：每个公开函数/方法至少生成正常路径和异常/边界路径各一个测试；每个分支至少一个测试。
3. **测试命名**：使用 `test_<函数名>_<场景描述>` 格式。
4. **Mock 与依赖**：对外部依赖（数据库、HTTP 调用、文件系统）使用 mock/stub，不发起真实 IO。
5. **断言**：使用精确断言，验证返回值、副作用、错误类型。
6. **独立性**：每个测试用例独立运行，不依赖执行顺序，不共享可变状态。
7. **不修改源码**：只生成测试文件，绝不修改被测源代码。

## 项目上下文

- 项目语言：{language}
- 项目现有测试目录：{existing_test_dir}（如果存在，请参考其风格）

## 新增代码（来自最近的 git diff）

```diff
{diff_content}
```

## 输出格式

每个测试文件以单独一行 `=== FILE: <相对路径> ===` 开头，随后是完整可运行的测试代码。
全部文件之后以单独一行 `=== SUMMARY ===` 开头，列出为哪些函数生成了多少个测试、覆盖了哪些场景。
";

/// The template with the language, the test directory and the diff filled in.
pub open spec fn filled_template(language: Seq<char>, existing_test_dir: Seq<char>, diff: Seq<char>) -> Seq<char> {
    replace_all(
        replace_all(
            replace_all(TEST_GEN_PROMPT_TEMPLATE@, "{language}"@, language),
            "{existing_test_dir}"@,
            existing_test_dir,
        ),
        "{diff_content}"@,
        diff,
    )
}

/// The prompt of a test generation run: the task's own prompt, if not blank,
/// a blank line, then the filled template.
pub open spec fn test_gen_prompt(
    base_prompt: Seq<char>,
    language: Seq<char>,
    existing_test_dir: Seq<char>,
    diff: Seq<char>,
) -> Seq<char> {
    let template = filled_template(language, existing_test_dir, diff);
    if is_blank(base_prompt) {
        template
    } else {
        base_prompt + "\n\n"@ + template
    }
}

/// Builds the prompt of a test generation run.
pub fn build_test_gen_prompt(
    base_prompt: &str,
    language: &str,
    existing_test_dir: &str,
    diff_content: &str,
) -> (r: String)
    ensures
        r@ == test_gen_prompt(base_prompt@, language@, existing_test_dir@, diff_content@),
{
    let template = chars_of(TEST_GEN_PROMPT_TEMPLATE);
    let p1 = chars_of("{language}");
    let p2 = chars_of("{existing_test_dir}");
    let p3 = chars_of("{diff_content}");
    proof {
        reveal_strlit("{language}");
        reveal_strlit("{existing_test_dir}");
        reveal_strlit("{diff_content}");
    }
    let step1 = replace_vec(&template, &p1, &chars_of(language));
    let step2 = replace_vec(&step1, &p2, &chars_of(existing_test_dir));
    let step3 = replace_vec(&step2, &p3, &chars_of(diff_content));
    if crate::text::blank(base_prompt) {
        string_of(&step3)
    } else {
        let mut out = chars_of(base_prompt);
        append_chars(&mut out, &chars_of("\n\n"));
        append_chars(&mut out, &step3);
        string_of(&out)
    }
}

/// Which build files exist at the root of a repository.
#[derive(Debug, Clone, Copy, PartialEq, Eq)]
pub struct LanguageMarkers {
    pub cargo_toml: bool,
    pub package_json: bool,
    pub go_mod: bool,
    pub pyproject_toml: bool,
    pub setup_py: bool,
    pub requirements_txt: bool,
    pub pom_xml: bool,
    pub build_gradle: bool,
}

pub open spec fn language_name(m: LanguageMarkers) -> Seq<char> {
    if m.cargo_toml {
        "Rust"@
    } else if m.package_json {
        "JavaScript/TypeScript"@
    } else if m.go_mod {
        "Go"@
    } else if m.pyproject_toml || m.setup_py || m.requirements_txt {
        "Python"@
    } else if m.pom_xml || m.build_gradle {
        "Java"@
    } else {
        "Unknown"@
    }
}

/// The language of a repository by its build files, earlier kinds winning:
/// `Cargo.toml` makes it Rust; else `package.json` JavaScript/TypeScript;
/// else `go.mod` Go; else any of `pyproject.toml`, `setup.py` or
/// `requirements.txt` Python; else `pom.xml` or `build.gradle` Java;
/// with none of them it is unknown.
pub proof fn lemma_language_by_build_files(m: LanguageMarkers)
    ensures
        m.cargo_toml ==> language_name(m) == seq!['R', 'u', 's', 't'],
        !m.cargo_toml && m.package_json ==> language_name(m) == seq!['J', 'a', 'v', 'a', 'S', 'c', 'r', 'i', 'p', 't', '/', 'T', 'y', 'p', 'e', 'S', 'c', 'r', 'i', 'p', 't'],
        !m.cargo_toml && !m.package_json && m.go_mod ==> language_name(m) == seq!['G', 'o'],
        (!m.cargo_toml && !m.package_json && !m.go_mod && (m.requirements_txt || m.setup_py || m.pyproject_toml))
            ==> language_name(m) == seq!['P', 'y', 't', 'h', 'o', 'n'],
        (!m.cargo_toml && !m.package_json && !m.go_mod && !m.requirements_txt && !m.setup_py && !m.pyproject_toml
            && (m.build_gradle || m.pom_xml)) ==> language_name(m) == seq!['J', 'a', 'v', 'a'],
        (!m.cargo_toml && !m.package_json && !m.go_mod && !m.requirements_txt && !m.setup_py && !m.pyproject_toml
            && !m.build_gradle && !m.pom_xml) ==> language_name(m) == seq!['U', 'n', 'k', 'n', 'o', 'w', 'n'],
{
    reveal_strlit("Rust");
    reveal_strlit("JavaScript/TypeScript");
    reveal_strlit("Go");
    reveal_strlit("Python");
    reveal_strlit("Java");
    reveal_strlit("Unknown");
    assert("Rust"@ =~= seq!['R', 'u', 's', 't']);
    assert("JavaScript/TypeScript"@ =~= seq!['J', 'a', 'v', 'a', 'S', 'c', 'r', 'i', 'p', 't', '/', 'T', 'y', 'p', 'e', 'S', 'c', 'r', 'i', 'p', 't']);
    assert("Go"@ =~= seq!['G', 'o']);
    assert("Python"@ =~= seq!['P', 'y', 't', 'h', 'o', 'n']);
    assert("Java"@ =~= seq!['J', 'a', 'v', 'a']);
    assert("Unknown"@ =~= seq!['U', 'n', 'k', 'n', 'o', 'w', 'n']);
}

/// The main language of a repository, judged by its build files in a fixed order.
pub fn detect_language(markers: &LanguageMarkers) -> (r: &'static str)
    ensures
        r@ == language_name(*markers),
        (!markers.cargo_toml && !markers.package_json && !markers.go_mod
            && (markers.requirements_txt || markers.setup_py || markers.pyproject_toml)) ==> r@ == seq!['P', 'y', 't', 'h', 'o', 'n'],
{
    proof {
        lemma_language_by_build_files(*markers);
    }
    if markers.cargo_toml {
        "Rust"
    } else if markers.package_json {
        "JavaScript/TypeScript"
    } else if markers.go_mod {
        "Go"
    } else if markers.pyproject_toml || markers.setup_py || markers.requirements_txt {
        "Python"
    } else if markers.pom_xml || markers.build_gradle {
        "Java"
    } else {
        "Unknown"
    }
}

/// The names of test directories looked for in a repository.
pub open spec fn is_test_dir_name(name: Seq<char>) -> bool {
    name == "tests"@ || name == "test"@ || name == "__tests__"@
}

/// The test directories looked for are exactly `tests`, `test` and `__tests__`.
pub proof fn lemma_test_dir_names(name: Seq<char>)
    ensures
        is_test_dir_name(name) <==> (name == seq!['t', 'e', 's', 't', 's'] || name == seq!['t', 'e', 's', 't'] || name == seq!['_', '_', 't', 'e', 's', 't', 's', '_', '_']),
{
    reveal_strlit("tests");
    reveal_strlit("test");
    reveal_strlit("__tests__");
    assert("tests"@ =~= seq!['t', 'e', 's', 't', 's']);
    assert("test"@ =~= seq!['t', 'e', 's', 't']);
    assert("__tests__"@ =~= seq!['_', '_', 't', 'e', 's', 't', 's', '_', '_']);
}

/// Whether a directory name is one of the test directory names.
pub fn is_test_dir(name: &str) -> (r: bool)
    ensures
        r == is_test_dir_name(name@),
{
    crate::text::str_eq(name, "tests") || crate::text::str_eq(name, "test") || crate::text::str_eq(
        name,
        "__tests__",
    )
}

} // verus!
