use vstd::prelude::*;
use vstd::string::StringSliceAdditionalSpecFns;

use crate::config::REPOSITORY_PREFIX;
use crate::input::{input_paths, input_paths_of};
use crate::resource::{
    normalize, normalize_identifier, repository_prefix, trim_leading_slashes, trim_slashes,
    ResourceLocation,
};
use crate::sync::{sync_verdict, verdict_of, SyncVerdict};
use crate::text::{chars_of, push_chars, push_str, string_of_chars};

verus! {

/// A starter document to render from a template: where it is written.
#[derive(Clone, Debug)]
pub struct LocalTemplate {
    pub template_path: String,
    pub out_dir: String,
    pub out_file: String,
}

/// A resource to bring into the local cache, with the template that goes with
/// it, if any.
#[derive(Clone, Debug)]
pub struct LocalResource {
    pub resource_path: String,
    pub resource_location: ResourceLocation,
    pub template: Option<LocalTemplate>,
}

/// `file` joined onto `dir` as a path: an absolute `file` replaces `dir`, and a
/// separator is put in only where `dir` does not end with one.
pub open spec fn join_path(dir: Seq<char>, file: Seq<char>) -> Seq<char> {
    if file.len() > 0 && file[0] == '/' {
        file
    } else if dir.len() == 0 {
        file
    } else if dir.last() == '/' {
        dir + file
    } else {
        dir + seq!['/'] + file
    }
}

/// Joins `file` onto `dir` as a path.
pub fn join(dir: &str, file: &str) -> (r: String)
    ensures
        r@ == join_path(dir@, file@),
{
    let d = chars_of(dir);
    let f = chars_of(file);
    if f.len() > 0 && f[0] == '/' {
        return string_of_chars(&f);
    }
    if d.len() == 0 {
        return string_of_chars(&f);
    }
    let mut out: Vec<char> = Vec::new();
    push_chars(&mut out, &d);
    if d[d.len() - 1] != '/' {
        out.push('/');
    }
    push_chars(&mut out, &f);
    string_of_chars(&out)
}

impl LocalTemplate {
    /// The path of the rendered document.
    pub fn out_file(&self) -> (r: String)
        ensures
            r@ == join_path(self.out_dir@, self.out_file@),
    {
        join(self.out_dir.as_str(), self.out_file.as_str())
    }
}

/// Where the resource `resource_path` is kept under the cache root `root`:
/// its normal form without leading slashes, so that it stays under the root.
pub fn cache_path(root: &str, resource_path: &str) -> (r: String)
    ensures
        r@ == join_path(root@, trim_leading_slashes(normalize(resource_path@))),
{
    let rel = normalize_identifier(resource_path);
    let s = chars_of(rel.as_str());
    let trimmed = string_of_chars(&trim_slashes(&s));
    join(root, trimmed.as_str())
}

/// The resources that `cls`, whose content is `contents`, includes directly:
/// each qualified with the repository, from the same location, with no template.
pub fn sourced_files(cls: &LocalResource, contents: &str) -> (r: Vec<LocalResource>)
    ensures
        r.len() == input_paths_of(contents@).len(),
        forall|k: int|
            0 <= k < r.len() ==> {
                &&& (#[trigger] r[k]).resource_path@ == repository_prefix()
                    + input_paths_of(contents@)[k]
                &&& r[k].resource_location == cls.resource_location
                &&& r[k].template is None
            },
{
    let paths = input_paths(contents);
    let ghost views = input_paths_of(contents@);
    assert(paths.len() == views.len()) by {
        assert(crate::input::string_views(paths@).len() == paths@.len());
    }
    let mut out: Vec<LocalResource> = Vec::new();
    let mut k: usize = 0;
    while k < paths.len()
        invariant
            k <= paths.len(),
            paths.len() == views.len(),
            views == input_paths_of(contents@),
            crate::input::string_views(paths@) == views,
            out.len() == k,
            forall|m: int|
                0 <= m < k ==> {
                    &&& (#[trigger] out[m]).resource_path@ == repository_prefix() + views[m]
                    &&& out[m].resource_location == cls.resource_location
                    &&& out[m].template is None
                },
        decreases paths.len() - k,
    {
        let mut p: Vec<char> = Vec::new();
        push_str(&mut p, REPOSITORY_PREFIX);
        push_str(&mut p, paths[k].as_str());
        assert(paths[k as int]@ == views[k as int]);
        out.push(
            LocalResource {
                resource_path: string_of_chars(&p),
                resource_location: cls.resource_location,
                template: None,
            },
        );
        k += 1;
    }
    out
}

/// The command that declares a document's class.
pub open spec fn documentclass_word() -> Seq<char> {
    seq!['\\', 'd', 'o', 'c', 'u', 'm', 'e', 'n', 't', 'c', 'l', 'a', 's', 's']
}

/// A letter, a digit or an underscore.
pub open spec fn is_word_char(c: char) -> bool {
    ('a' <= c && c <= 'z') || ('A' <= c && c <= 'Z') || ('0' <= c && c <= '9') || c == '_'
}

/// The first index at or after `k` that holds no word character.
pub open spec fn word_run_end(s: Seq<char>, k: int) -> int
    decreases s.len() - k,
{
    if k < 0 || k >= s.len() || !is_word_char(s[k]) {
        k
    } else {
        word_run_end(s, k + 1)
    }
}

/// The first `]` at or after `k` that comes before the end of the line.
pub open spec fn closing_bracket(s: Seq<char>, k: int) -> Option<int>
    decreases s.len() - k,
{
    if k < 0 || k >= s.len() {
        None
    } else if s[k] == ']' {
        Some(k)
    } else if s[k] == '\n' {
        None
    } else {
        closing_bracket(s, k + 1)
    }
}

/// Where a class argument `{<word>}` that starts at `j` ends.
pub open spec fn class_arg_end(s: Seq<char>, j: int) -> Option<int> {
    if 0 <= j < s.len() && s[j] == '{' {
        let w = word_run_end(s, j + 1);
        if w > j + 1 && w < s.len() && s[w] == '}' {
            Some(w + 1)
        } else {
            None
        }
    } else {
        None
    }
}

/// Where a declaration `\documentclass[<options>]{<class>}` (options optional and
/// not empty) that starts at `i` ends.
pub open spec fn declaration_end(s: Seq<char>, i: int) -> Option<int> {
    if 0 <= i && i + 14 <= s.len() && s.subrange(i, i + 14) == documentclass_word() {
        let j = i + 14;
        if j < s.len() && s[j] == '[' {
            match closing_bracket(s, j + 1) {
                Some(b) => if b > j + 1 {
                    class_arg_end(s, b + 1)
                } else {
                    None
                },
                None => None,
            }
        } else {
            class_arg_end(s, j)
        }
    } else {
        None
    }
}

/// The end of the first declaration that starts at or after `i`.
pub open spec fn first_declaration_end(s: Seq<char>, i: int) -> Option<int>
    decreases s.len() - i,
{
    if i < 0 || i >= s.len() {
        None
    } else {
        match declaration_end(s, i) {
            Some(e) => Some(e),
            None => first_declaration_end(s, i + 1),
        }
    }
}

/// The comment that records the revision of the class.
pub open spec fn version_comment(commit_hash: Seq<char>) -> Seq<char> {
    "  % class version "@ + commit_hash
}

/// The template with the comment for `commit_hash` put right after its first
/// class declaration, or unchanged where it declares none.
pub open spec fn stamp_documentclass(s: Seq<char>, commit_hash: Seq<char>) -> Seq<char> {
    match first_declaration_end(s, 0) {
        Some(e) => s.subrange(0, e) + version_comment(commit_hash) + s.subrange(e, s.len() as int),
        None => s,
    }
}

/// Whether `p` stands in `s` at `i`.
fn matches_at(s: &Vec<char>, i: usize, p: &Vec<char>) -> (r: bool)
    ensures
        r == (i + p.len() <= s.len() && s@.subrange(i as int, i + p.len()) == p@),
{
    if i > s.len() || p.len() > s.len() - i {
        return false;
    }
    let mut k: usize = 0;
    while k < p.len()
        invariant
            i + p.len() <= s.len(),
            k <= p.len(),
            forall|m: int| 0 <= m < k ==> s@[i + m] == p@[m],
        decreases p.len() - k,
    {
        if s[i + k] != p[k] {
            assert(s@.subrange(i as int, i + p.len())[k as int] != p@[k as int]);
            return false;
        }
        k += 1;
    }
    assert(s@.subrange(i as int, i + p.len()) =~= p@);
    true
}

fn is_word(c: char) -> (r: bool)
    ensures
        r == is_word_char(c),
{
    ('a' <= c && c <= 'z') || ('A' <= c && c <= 'Z') || ('0' <= c && c <= '9') || c == '_'
}

fn find_class_arg_end(s: &Vec<char>, j: usize) -> (r: Option<usize>)
    ensures
        match r {
            Some(e) => class_arg_end(s@, j as int) == Some(e as int) && e <= s.len(),
            None => class_arg_end(s@, j as int) is None,
        },
{
    if !(j < s.len() && s[j] == '{') {
        return None;
    }
    let mut w: usize = j + 1;
    while w < s.len() && is_word(s[w])
        invariant
            j + 1 <= w <= s.len(),
            word_run_end(s@, j + 1) == word_run_end(s@, w as int),
        decreases s.len() - w,
    {
        w += 1;
    }
    if w > j + 1 && w < s.len() && s[w] == '}' {
        Some(w + 1)
    } else {
        None
    }
}

fn find_declaration_end(s: &Vec<char>, i: usize, word: &Vec<char>) -> (r: Option<usize>)
    requires
        word@ == documentclass_word(),
    ensures
        match r {
            Some(e) => declaration_end(s@, i as int) == Some(e as int) && e <= s.len(),
            None => declaration_end(s@, i as int) is None,
        },
{
    if !matches_at(s, i, word) {
        return None;
    }
    let j: usize = i + 14;
    if j < s.len() && s[j] == '[' {
        let mut b: usize = j + 1;
        while b < s.len() && s[b] != ']' && s[b] != '\n'
            invariant
                j + 1 <= b <= s.len(),
                closing_bracket(s@, j + 1) == closing_bracket(s@, b as int),
            decreases s.len() - b,
        {
            b += 1;
        }
        if b < s.len() && s[b] == ']' && b > j + 1 {
            find_class_arg_end(s, b + 1)
        } else {
            None
        }
    } else {
        find_class_arg_end(s, j)
    }
}

/// Records the revision `commit_hash` in the template: a comment goes right
/// after its first `\documentclass` declaration; a template without one comes
/// back as it was.
pub fn add_template_resource_version(tmpl_contents: &str, commit_hash: &str) -> (r: String)
    ensures
        r@ == stamp_documentclass(tmpl_contents@, commit_hash@),
{
    let s = chars_of(tmpl_contents);
    let word: Vec<char> = vec!['\\', 'd', 'o', 'c', 'u', 'm', 'e', 'n', 't', 'c', 'l', 'a', 's', 's'];
    assert(word@ =~= documentclass_word());
    let mut i: usize = 0;
    let mut found: Option<usize> = None;
    while found.is_none() && i < s.len()
        invariant
            i <= s.len(),
            s@ == tmpl_contents@,
            word@ == documentclass_word(),
            found is None ==> first_declaration_end(s@, 0) == first_declaration_end(s@, i as int),
            found matches Some(e) ==> first_declaration_end(s@, 0) == Some(e as int) && e <= s.len(),
        decreases s.len() - i + (if found is None { 1int } else { 0int }),
    {
        match find_declaration_end(&s, i, &word) {
            Some(e) => {
                found = Some(e);
            },
            None => {
                i += 1;
            },
        }
    }
    if found.is_none() {
        assert(first_declaration_end(s@, i as int) is None);
    }
    match found {
        None => string_of_chars(&s),
        Some(e) => {
            let mut out: Vec<char> = Vec::new();
            let mut k: usize = 0;
            while k < e
                invariant
                    k <= e <= s.len(),
                    out@ == s@.subrange(0, k as int),
                decreases e - k,
            {
                out.push(s[k]);
                k += 1;
                assert(out@ =~= s@.subrange(0, k as int));
            }
            push_str(&mut out, "  % class version ");
            push_str(&mut out, commit_hash);
            let ghost head = out@;
            while k < s.len()
                invariant
                    e <= k <= s.len(),
                    out@ == head + s@.subrange(e as int, k as int),
                decreases s.len() - k,
            {
                out.push(s[k]);
                k += 1;
                assert(out@ =~= head + s@.subrange(e as int, k as int));
            }
            string_of_chars(&out)
        },
    }
}

/// The stamp changes one place only: the text before and after the end of the
/// first declaration stays as it was, and what is put in between holds no line
/// break where the revision holds none; with no declaration nothing changes.
pub proof fn lemma_stamp_one_place(s: Seq<char>, commit_hash: Seq<char>)
    requires
        !commit_hash.contains('\n'),
    ensures
        first_declaration_end(s, 0) is None ==> stamp_documentclass(s, commit_hash) == s,
        first_declaration_end(s, 0) matches Some(e) ==> {
            &&& 0 <= e <= s.len()
            &&& stamp_documentclass(s, commit_hash) == s.subrange(0, e) + version_comment(
                commit_hash,
            ) + s.subrange(e, s.len() as int)
            &&& !version_comment(commit_hash).contains('\n')
        },
{
    lemma_first_declaration_end_bounds(s, 0);
    reveal_strlit("  % class version ");
    let c = version_comment(commit_hash);
    let lit = "  % class version "@;
    assert forall|k: int| 0 <= k < c.len() implies c[k] != '\n' by {
        if k >= lit.len() {
            assert(c[k] == commit_hash[k - lit.len()]);
        }
    }
}

proof fn lemma_first_declaration_end_bounds(s: Seq<char>, i: int)
    ensures
        first_declaration_end(s, i) matches Some(e) ==> 0 <= e <= s.len(),
    decreases s.len() - i,
{
    if 0 <= i < s.len() && declaration_end(s, i) is None {
        lemma_first_declaration_end_bounds(s, i + 1);
    }
}

/// What to do with the cache entry of a resource, given its sync verdict.
#[derive(Clone, Copy, Debug, PartialEq, Eq, Structural)]
pub enum CacheStep {
    /// No cached copy: write the canonical content.
    Write,
    /// No cached copy, in a dry run: report the write.
    ReportWrite,
    /// The cached copy is in sync: leave it.
    Keep,
    /// The cached copy is stale: ask before overwriting it.
    ConfirmUpdate,
    /// The cached copy is stale, in a dry run: warn and leave it.
    ReportStale,
}

/// The step that each verdict calls for; a dry run only reports.
pub open spec fn cache_step_of(verdict: SyncVerdict, dry_run: bool) -> CacheStep {
    match verdict {
        SyncVerdict::Absent => if dry_run {
            CacheStep::ReportWrite
        } else {
            CacheStep::Write
        },
        SyncVerdict::InSync => CacheStep::Keep,
        SyncVerdict::Stale => if dry_run {
            CacheStep::ReportStale
        } else {
            CacheStep::ConfirmUpdate
        },
    }
}

/// Whether a step writes the cached file, given the answer to its prompt.
pub open spec fn cache_writes(step: CacheStep, confirmed: bool) -> bool {
    step == CacheStep::Write || (step == CacheStep::ConfirmUpdate && confirmed)
}

/// Whether the cached file is written: a new copy always, a stale one only
/// where the update was confirmed.
pub fn should_write_cache(step: CacheStep, confirmed: bool) -> (r: bool)
    ensures
        r == cache_writes(step, confirmed),
{
    match step {
        CacheStep::Write => true,
        CacheStep::ConfirmUpdate => confirmed,
        _ => false,
    }
}

/// The step for a verdict.
pub fn cache_step(verdict: SyncVerdict, dry_run: bool) -> (r: CacheStep)
    ensures
        r == cache_step_of(verdict, dry_run),
{
    match verdict {
        SyncVerdict::Absent => if dry_run {
            CacheStep::ReportWrite
        } else {
            CacheStep::Write
        },
        SyncVerdict::InSync => CacheStep::Keep,
        SyncVerdict::Stale => if dry_run {
            CacheStep::ReportStale
        } else {
            CacheStep::ConfirmUpdate
        },
    }
}

/// The step for a cached copy (`None` where no file exists) against the
/// canonical content.
pub fn plan_cache_update(cached: Option<&[u8]>, canonical: &str, dry_run: bool) -> (r: CacheStep)
    ensures
        r == cache_step_of(
            verdict_of(
                match cached {
                    Some(c) => Some(c@),
                    None => None,
                },
                canonical.spec_bytes(),
            ),
            dry_run,
        ),
{
    let v = sync_verdict(cached, canonical);
    cache_step(v, dry_run)
}

/// A dry run never writes, a copy in sync is never rewritten, and a stale copy
/// is kept where the update is declined.
pub proof fn lemma_cache_step_safe(verdict: SyncVerdict, dry_run: bool, confirmed: bool)
    ensures
        dry_run ==> !cache_writes(cache_step_of(verdict, dry_run), confirmed),
        verdict == SyncVerdict::InSync ==> !cache_writes(cache_step_of(verdict, dry_run), confirmed),
        verdict == SyncVerdict::Stale && !confirmed ==> !cache_writes(
            cache_step_of(verdict, dry_run),
            confirmed,
        ),
        verdict == SyncVerdict::Absent && !dry_run ==> cache_writes(
            cache_step_of(verdict, dry_run),
            confirmed,
        ),
{
}

/// What to do with the rendered template.
#[derive(Clone, Copy, Debug, PartialEq, Eq, Structural)]
pub enum TemplateStep {
    /// Write it.
    Write,
    /// The output file exists: ask before overwriting it.
    ConfirmOverwrite,
    /// A dry run: report the write.
    ReportWrite,
}

/// The step for the template, given whether its output file exists.
pub fn template_step(out_exists: bool, dry_run: bool) -> (r: TemplateStep)
    ensures
        dry_run ==> r == TemplateStep::ReportWrite,
        !dry_run && out_exists ==> r == TemplateStep::ConfirmOverwrite,
        !dry_run && !out_exists ==> r == TemplateStep::Write,
{
    if dry_run {
        TemplateStep::ReportWrite
    } else if out_exists {
        TemplateStep::ConfirmOverwrite
    } else {
        TemplateStep::Write
    }
}

/// Whether the template is written, given the answer to its prompt.
pub fn should_write_template(step: TemplateStep, confirmed: bool) -> (r: bool)
    ensures
        r == (step == TemplateStep::Write || (step == TemplateStep::ConfirmOverwrite && confirmed)),
{
    match step {
        TemplateStep::Write => true,
        TemplateStep::ConfirmOverwrite => confirmed,
        TemplateStep::ReportWrite => false,
    }
}

/// What to do about the directory that a cache entry goes in.
#[derive(Clone, Copy, Debug, PartialEq, Eq, Structural)]
pub enum DirectoryStep {
    /// It exists: nothing to do.
    Exists,
    /// Create it, with its parents.
    Create,
    /// A dry run: report that it would be created.
    ReportCreate,
}

/// The step for the directory of a cache entry: a dry run never creates it.
pub fn directory_step(exists: bool, dry_run: bool) -> (r: DirectoryStep)
    ensures
        exists ==> r == DirectoryStep::Exists,
        !exists && dry_run ==> r == DirectoryStep::ReportCreate,
        !exists && !dry_run ==> r == DirectoryStep::Create,
{
    if exists {
        DirectoryStep::Exists
    } else if dry_run {
        DirectoryStep::ReportCreate
    } else {
        DirectoryStep::Create
    }
}

} // verus!
