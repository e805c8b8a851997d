use vstd::prelude::*;

use crate::text::{push_str, string_of_chars};

verus! {

/// The optional revision of a frozen document, as characters.
pub open spec fn commit_view(commit: Option<&str>) -> Option<Seq<char>> {
    match commit {
        Some(c) => Some(c@),
        None => None,
    }
}

/// The header of a frozen document: when it was frozen and, for a remote
/// source, at which revision.
pub open spec fn version_header(timestamp: Seq<char>, commit: Option<Seq<char>>) -> Seq<char> {
    match commit {
        None => "% Frozen version at "@ + timestamp + "\n\n"@,
        Some(h) => "% Frozen version at "@ + timestamp + "\n"@ + "% At commit version "@ + h
            + " \n\n"@,
    }
}

/// `contents_raw` under a header for `timestamp` and, where given, the
/// revision `commit`; the header stands once, in front.
pub fn add_version_metadata(contents_raw: &str, timestamp: &str, commit: Option<&str>) -> (r: String)
    ensures
        r@ == version_header(timestamp@, commit_view(commit)) + contents_raw@,
{
    let mut out: Vec<char> = Vec::new();
    push_str(&mut out, "% Frozen version at ");
    push_str(&mut out, timestamp);
    match commit {
        None => {
            push_str(&mut out, "\n\n");
        },
        Some(h) => {
            push_str(&mut out, "\n");
            push_str(&mut out, "% At commit version ");
            push_str(&mut out, h);
            push_str(&mut out, " \n\n");
        },
    }
    let ghost header = out@;
    push_str(&mut out, contents_raw);
    assert(header == version_header(timestamp@, commit_view(commit)));
    string_of_chars(&out)
}

} // verus!
