use vstd::prelude::*;

use crate::config::{REPOSITORY_PREFIX, RESOURCE_PARENT};
use crate::text::{
    chars_of, has_prefix, starts_with, string_of_chars, strip_all, strip_all_chars,
    strip_prefix_chars,
};

verus! {

/// Which backend resources are fetched from, fixed for a whole run.
#[derive(Clone, Copy, Debug, PartialEq, Eq, Structural)]
pub enum ResourceLocation {
    Local,
    Remote,
}

/// What the backend is asked for: a path relative to the local resource root,
/// or a path within the repository at its main branch.
#[derive(Debug)]
pub enum FetchRequest {
    LocalFile(String),
    RemoteFile(String),
}

/// Qualifier that a resource identifier may carry.
pub open spec fn repository_prefix() -> Seq<char> {
    REPOSITORY_PREFIX@
}

/// Directory of the repository that holds the class files.
pub open spec fn resource_parent() -> Seq<char> {
    RESOURCE_PARENT@
}

/// The identifier as a path within the repository: every leading repository
/// qualifier taken off.
pub open spec fn repository_path(id: Seq<char>) -> Seq<char> {
    strip_all(id, repository_prefix())
}

/// `id` with leading occurrences of `root` and `parent` taken off, in any
/// order, until it starts with neither.
pub open spec fn strip_both(id: Seq<char>, root: Seq<char>, parent: Seq<char>) -> Seq<char>
    decreases id.len(),
{
    if root.len() > 0 && has_prefix(id, root) {
        strip_both(id.skip(root.len() as int), root, parent)
    } else if parent.len() > 0 && has_prefix(id, parent) {
        strip_both(id.skip(parent.len() as int), root, parent)
    } else {
        id
    }
}

/// The identifier as a path under the local cache root: repository qualifiers
/// and class directories taken off the front until neither is left.
pub open spec fn normalize(id: Seq<char>) -> Seq<char> {
    strip_both(id, repository_prefix(), resource_parent())
}

/// `s` without its leading slashes.
pub open spec fn trim_leading_slashes(s: Seq<char>) -> Seq<char>
    decreases s.len(),
{
    if s.len() > 0 && s[0] == '/' {
        trim_leading_slashes(s.drop_first())
    } else {
        s
    }
}

/// The path of a resource relative to the local resource root.
pub open spec fn local_path(id: Seq<char>) -> Seq<char> {
    trim_leading_slashes(repository_path(id))
}

/// What `fetch_resource` asks the backend for.
pub open spec fn fetch_request_of(id: Seq<char>, loc: ResourceLocation) -> (Seq<char>, ResourceLocation) {
    match loc {
        ResourceLocation::Local => (local_path(id), loc),
        ResourceLocation::Remote => (repository_path(id), loc),
    }
}

impl FetchRequest {
    /// The path that is asked for, and of which backend.
    pub open spec fn spec_target(&self) -> (Seq<char>, ResourceLocation) {
        match self {
            FetchRequest::LocalFile(p) => (p@, ResourceLocation::Local),
            FetchRequest::RemoteFile(p) => (p@, ResourceLocation::Remote),
        }
    }
}

/// The identifier with the repository qualifier and the class directory taken off.
pub fn normalize_identifier(id: &str) -> (r: String)
    ensures
        r@ == normalize(id@),
{
    let s = chars_of(id);
    let root = chars_of(REPOSITORY_PREFIX);
    let parent = chars_of(RESOURCE_PARENT);
    let mut cur: Vec<char> = s;
    loop
        invariant
            root@ == repository_prefix(),
            parent@ == resource_parent(),
            strip_both(cur@, root@, parent@) == normalize(id@),
        ensures
            cur@ == normalize(id@),
        decreases cur.len(),
    {
        if root.len() > 0 && starts_with(&cur, &root) {
            cur = strip_prefix_chars(&cur, &root);
        } else if parent.len() > 0 && starts_with(&cur, &parent) {
            cur = strip_prefix_chars(&cur, &parent);
        } else {
            break;
        }
    }
    string_of_chars(&cur)
}

/// The result of `strip_both` starts with neither prefix.
proof fn lemma_strip_both_stripped(id: Seq<char>, root: Seq<char>, parent: Seq<char>)
    ensures
        !(root.len() > 0 && has_prefix(strip_both(id, root, parent), root)),
        !(parent.len() > 0 && has_prefix(strip_both(id, root, parent), parent)),
    decreases id.len(),
{
    if root.len() > 0 && has_prefix(id, root) {
        lemma_strip_both_stripped(id.skip(root.len() as int), root, parent);
    } else if parent.len() > 0 && has_prefix(id, parent) {
        lemma_strip_both_stripped(id.skip(parent.len() as int), root, parent);
    }
}

/// The result of `strip_all` does not start with the prefix.
proof fn lemma_strip_all_stripped(s: Seq<char>, p: Seq<char>)
    ensures
        !(p.len() > 0 && has_prefix(strip_all(s, p), p)),
    decreases s.len(),
{
    if p.len() > 0 && has_prefix(s, p) {
        lemma_strip_all_stripped(s.skip(p.len() as int), p);
    }
}

/// Normalization is idempotent: normalizing a normalized identifier changes
/// nothing.
pub proof fn lemma_normalize_idempotent(id: Seq<char>)
    ensures
        normalize(normalize(id)) == normalize(id),
{
    lemma_strip_both_stripped(id, repository_prefix(), resource_parent());
}

/// Taking the repository qualifier off is idempotent, so an identifier and its
/// path within the repository are fetched alike from either backend.
pub proof fn lemma_repository_path_idempotent(id: Seq<char>, loc: ResourceLocation)
    ensures
        repository_path(repository_path(id)) == repository_path(id),
        fetch_request_of(repository_path(id), loc) == fetch_request_of(id, loc),
{
    lemma_strip_all_stripped(id, repository_prefix());
}

/// Dispatches a resource identifier to the backend of `loc`.
pub fn fetch_resource(resource: &str, loc: &ResourceLocation) -> (r: FetchRequest)
    ensures
        r.spec_target() == fetch_request_of(resource@, *loc),
{
    match loc {
        ResourceLocation::Local => FetchRequest::LocalFile(fetch_resource_local(resource)),
        ResourceLocation::Remote => FetchRequest::RemoteFile(fetch_resource_remote(resource)),
    }
}

/// The path under the local resource root: no qualifier and no leading slash,
/// so that joining it to the root cannot replace the root.
pub fn fetch_resource_local(resource: &str) -> (r: String)
    ensures
        r@ == local_path(resource@),
{
    let s = chars_of(resource);
    let root = chars_of(REPOSITORY_PREFIX);
    let s = strip_all_chars(&s, &root);
    string_of_chars(&trim_slashes(&s))
}

/// `s` without its leading slashes.
pub fn trim_slashes(s: &[char]) -> (r: Vec<char>)
    ensures
        r@ == trim_leading_slashes(s@),
{
    let mut start: usize = 0;
    assert(s@.skip(0) =~= s@);
    while start < s.len() && s[start] == '/'
        invariant
            start <= s.len(),
            trim_leading_slashes(s@.skip(start as int)) == trim_leading_slashes(s@),
        decreases s.len() - start,
    {
        assert(s@.skip(start as int).drop_first() =~= s@.skip(start + 1));
        start += 1;
    }
    let mut out: Vec<char> = Vec::new();
    let mut i: usize = start;
    while i < s.len()
        invariant
            start <= i <= s.len(),
            out@ == s@.subrange(start as int, i as int),
        decreases s.len() - i,
    {
        out.push(s[i]);
        i += 1;
        assert(out@ =~= s@.subrange(start as int, i as int));
    }
    assert(out@ =~= s@.skip(start as int));
    out
}

/// The path within the repository, read at its main branch.
pub fn fetch_resource_remote(resource: &str) -> (r: String)
    ensures
        r@ == repository_path(resource@),
{
    let s = chars_of(resource);
    let root = chars_of(REPOSITORY_PREFIX);
    let s = strip_all_chars(&s, &root);
    string_of_chars(&s)
}

} // verus!
