use vstd::prelude::*;

use crate::config::REPOSITORY_PREFIX;
use crate::resource::repository_prefix;
use crate::text::{chars_of, string_of_chars, strip_prefix, strip_prefix_chars};

verus! {

/// `\input{` starts at `i`.
pub open spec fn opens_input_at(s: Seq<char>, i: int) -> bool {
    &&& 0 <= i
    &&& i + 7 <= s.len()
    &&& s[i] == '\\'
    &&& s[i + 1] == 'i'
    &&& s[i + 2] == 'n'
    &&& s[i + 3] == 'p'
    &&& s[i + 4] == 'u'
    &&& s[i + 5] == 't'
    &&& s[i + 6] == '{'
}

/// The first `}` at or after `k` that comes before the end of the line.
pub open spec fn closing_brace(s: Seq<char>, k: int) -> Option<int>
    decreases s.len() - k,
{
    if k < 0 || k >= s.len() {
        None
    } else if s[k] == '}' {
        Some(k)
    } else if s[k] == '\n' {
        None
    } else {
        closing_brace(s, k + 1)
    }
}

/// Where a directive `\input{<path>}` that starts at `i` ends (just past its
/// brace); its path is not empty and stays on one line.
pub open spec fn directive_end(s: Seq<char>, i: int) -> Option<int> {
    if opens_input_at(s, i) {
        match closing_brace(s, i + 7) {
            Some(j) => if j > i + 7 {
                Some(j + 1)
            } else {
                None
            },
            None => None,
        }
    } else {
        None
    }
}

/// The resource that the directive between `i` and `e` names, without the
/// repository qualifier.
pub open spec fn directive_path(s: Seq<char>, i: int, e: int) -> Seq<char> {
    strip_prefix(s.subrange(i + 7, e - 1), repository_prefix())
}

/// The paths of the directives found scanning from `i`, in order; scanning
/// resumes after each directive.
pub open spec fn input_paths_from(s: Seq<char>, i: int) -> Seq<Seq<char>>
    decreases s.len() - i
    via input_paths_from_decreases
{
    if i < 0 || i >= s.len() {
        seq![]
    } else {
        match directive_end(s, i) {
            Some(e) => seq![directive_path(s, i, e)] + input_paths_from(s, e),
            None => input_paths_from(s, i + 1),
        }
    }
}

/// The text from `i` on with its `k`-th and later directives replaced by
/// `reps[k]` and onwards; a directive left without a replacement stays as it is.
pub open spec fn substitute_from(s: Seq<char>, i: int, reps: Seq<Seq<char>>, k: int) -> Seq<char>
    decreases s.len() - i
    via substitute_from_decreases
{
    if i < 0 || i >= s.len() {
        seq![]
    } else {
        match directive_end(s, i) {
            Some(e) => (if 0 <= k < reps.len() {
                reps[k]
            } else {
                s.subrange(i, e)
            }) + substitute_from(s, e, reps, k + 1),
            None => seq![s[i]] + substitute_from(s, i + 1, reps, k),
        }
    }
}

#[via_fn]
proof fn input_paths_from_decreases(s: Seq<char>, i: int) {
    if directive_end(s, i) is Some {
        lemma_directive_end_after(s, i);
    }
}

#[via_fn]
proof fn substitute_from_decreases(s: Seq<char>, i: int, reps: Seq<Seq<char>>, k: int) {
    if directive_end(s, i) is Some {
        lemma_directive_end_after(s, i);
    }
}

/// The include directives of `s`, by their paths.
pub open spec fn input_paths_of(s: Seq<char>) -> Seq<Seq<char>> {
    input_paths_from(s, 0)
}

/// `s` with its directives replaced, in order, by `reps`.
pub open spec fn substitute(s: Seq<char>, reps: Seq<Seq<char>>) -> Seq<char> {
    substitute_from(s, 0, reps, 0)
}

/// The views of a sequence of strings.
pub open spec fn string_views(v: Seq<String>) -> Seq<Seq<char>> {
    v.map_values(|x: String| x@)
}

/// No directive starts anywhere in `s`.
pub open spec fn has_no_directive(s: Seq<char>) -> bool {
    forall|j: int| 0 <= j < s.len() ==> directive_end(s, j) is None
}

/// Where a directive starting at `i` ends, if one does.
fn find_directive_end(s: &Vec<char>, i: usize) -> (r: Option<usize>)
    requires
        i < s.len(),
    ensures
        match r {
            Some(e) => directive_end(s@, i as int) == Some(e as int) && e <= s.len(),
            None => directive_end(s@, i as int) is None,
        },
{
    if !(s.len() >= 7 && i <= s.len() - 7) {
        return None;
    }
    if !(s[i] == '\\' && s[i + 1] == 'i' && s[i + 2] == 'n' && s[i + 3] == 'p' && s[i + 4] == 'u'
        && s[i + 5] == 't' && s[i + 6] == '{') {
        return None;
    }
    let mut k: usize = i + 7;
    while k < s.len() && s[k] != '}' && s[k] != '\n'
        invariant
            i + 7 <= k <= s.len(),
            closing_brace(s@, i + 7) == closing_brace(s@, k as int),
        decreases s.len() - k,
    {
        k += 1;
    }
    if k < s.len() && s[k] == '}' && k > i + 7 {
        Some(k + 1)
    } else {
        None
    }
}

/// The path named by the directive between `i` and `e`.
fn path_between(s: &Vec<char>, i: usize, e: usize) -> (r: String)
    requires
        i + 8 < e <= s.len(),
    ensures
        r@ == directive_path(s@, i as int, e as int),
{
    let mut raw: Vec<char> = Vec::new();
    let mut k: usize = i + 7;
    while k < e - 1
        invariant
            i + 7 <= k <= e - 1,
            e <= s.len(),
            raw@ == s@.subrange(i + 7, k as int),
        decreases e - 1 - k,
    {
        raw.push(s[k]);
        k += 1;
        assert(raw@ =~= s@.subrange(i + 7, k as int));
    }
    let root = chars_of(REPOSITORY_PREFIX);
    let p = strip_prefix_chars(&raw, &root);
    string_of_chars(&p)
}

proof fn lemma_directive_end_after(s: Seq<char>, i: int)
    requires
        directive_end(s, i) is Some,
    ensures
        i + 8 < directive_end(s, i)->0 <= s.len(),
{
    lemma_closing_brace_bounds(s, i + 7);
}

proof fn lemma_closing_brace_bounds(s: Seq<char>, k: int)
    ensures
        closing_brace(s, k) matches Some(j) ==> k <= j < s.len(),
    decreases s.len() - k,
{
    if 0 <= k < s.len() && s[k] != '}' && s[k] != '\n' {
        lemma_closing_brace_bounds(s, k + 1);
    }
}

/// The paths of the include directives in `contents`, in order, each without the
/// repository qualifier.
pub fn input_paths(contents: &str) -> (r: Vec<String>)
    ensures
        string_views(r@) == input_paths_of(contents@),
{
    let s = chars_of(contents);
    let mut out: Vec<String> = Vec::new();
    let mut i: usize = 0;
    while i < s.len()
        invariant
            i <= s.len(),
            s@ == contents@,
            string_views(out@) + input_paths_from(s@, i as int) == input_paths_of(contents@),
        decreases s.len() - i,
    {
        match find_directive_end(&s, i) {
            Some(e) => {
                proof {
                    lemma_directive_end_after(s@, i as int);
                }
                let p = path_between(&s, i, e);
                let ghost before = string_views(out@);
                out.push(p);
                assert(string_views(out@) =~= before.push(p@));
                assert(before.push(p@) + input_paths_from(s@, e as int) =~= before + (seq![p@]
                    + input_paths_from(s@, e as int)));
                i = e;
            },
            None => {
                i += 1;
            },
        }
    }
    assert(string_views(out@) + input_paths_from(s@, i as int) =~= string_views(out@));
    out
}

/// `contents` with its include directives replaced, in order, by
/// `replacements`; a directive beyond the last replacement stays as it is.
pub fn substitute_inputs(contents: &str, replacements: &Vec<String>) -> (r: String)
    ensures
        r@ == substitute(contents@, string_views(replacements@)),
{
    let s = chars_of(contents);
    let ghost reps = string_views(replacements@);
    let mut out: Vec<char> = Vec::new();
    let mut i: usize = 0;
    let mut k: usize = 0;
    while i < s.len()
        invariant
            i <= s.len(),
            k <= i,
            s@ == contents@,
            reps == string_views(replacements@),
            out@ + substitute_from(s@, i as int, reps, k as int) == substitute(contents@, reps),
        decreases s.len() - i,
    {
        match find_directive_end(&s, i) {
            Some(e) => {
                proof {
                    lemma_directive_end_after(s@, i as int);
                }
                let piece: Vec<char> = if k < replacements.len() {
                    chars_of(replacements[k].as_str())
                } else {
                    let mut raw: Vec<char> = Vec::new();
                    let mut m: usize = i;
                    while m < e
                        invariant
                            i <= m <= e,
                            e <= s.len(),
                            raw@ == s@.subrange(i as int, m as int),
                        decreases e - m,
                    {
                        raw.push(s[m]);
                        m += 1;
                        assert(raw@ =~= s@.subrange(i as int, m as int));
                    }
                    raw
                };
                assert(piece@ == (if 0 <= k < reps.len() {
                    reps[k as int]
                } else {
                    s@.subrange(i as int, e as int)
                }));
                let ghost before = out@;
                let mut m: usize = 0;
                while m < piece.len()
                    invariant
                        m <= piece.len(),
                        out@ == before + piece@.subrange(0, m as int),
                    decreases piece.len() - m,
                {
                    out.push(piece[m]);
                    m += 1;
                    assert(out@ =~= before + piece@.subrange(0, m as int));
                }
                assert(piece@.subrange(0, piece@.len() as int) =~= piece@);
                assert(out@ + substitute_from(s@, e as int, reps, k + 1) =~= before + (piece@
                    + substitute_from(s@, e as int, reps, k + 1)));
                i = e;
                k = k + 1;
            },
            None => {
                let ghost before = out@;
                out.push(s[i]);
                assert(out@ + substitute_from(s@, i + 1, reps, k as int) =~= before + (seq![s@[i as int]]
                    + substitute_from(s@, i + 1, reps, k as int)));
                i += 1;
            },
        }
    }
    assert(out@ + substitute_from(s@, i as int, reps, k as int) =~= out@);
    string_of_chars(&out)
}

/// What expanding a text does next: stop, or fetch the resources that its
/// directives name and substitute them.
#[derive(Debug)]
pub enum ExpansionStep {
    Done,
    Fetch(Vec<String>),
}

/// The next step in expanding `text`: it is done exactly when no directive is
/// left in it, and otherwise fetches the named paths, in order.
pub fn next_expansion(text: &str) -> (r: ExpansionStep)
    ensures
        match r {
            ExpansionStep::Done => input_paths_of(text@).len() == 0 && has_no_directive(text@),
            ExpansionStep::Fetch(paths) => paths.len() > 0 && string_views(paths@)
                == input_paths_of(text@),
        },
{
    let paths = input_paths(text);
    assert(string_views(paths@).len() == paths@.len());
    if paths.len() == 0 {
        proof {
            lemma_expansion_complete(text@);
        }
        ExpansionStep::Done
    } else {
        ExpansionStep::Fetch(paths)
    }
}

/// Where the scan from `i` finds no directive, none starts at or after `i`.
pub proof fn lemma_no_paths_no_directives_from(s: Seq<char>, i: int)
    requires
        0 <= i,
        input_paths_from(s, i).len() == 0,
    ensures
        forall|j: int| i <= j < s.len() ==> directive_end(s, j) is None,
    decreases s.len() - i,
{
    if i < s.len() {
        assert(directive_end(s, i) is None);
        lemma_no_paths_no_directives_from(s, i + 1);
    }
}

/// Expansion is complete once a scan finds no directive: the text then holds
/// no unexpanded `\input{...}` at all.
pub proof fn lemma_expansion_complete(s: Seq<char>)
    requires
        input_paths_of(s).len() == 0,
    ensures
        has_no_directive(s),
{
    lemma_no_paths_no_directives_from(s, 0);
}

} // verus!
