use vstd::prelude::*;
use vstd::string::StringSliceAdditionalSpecFns;

use sha2::{Digest, Sha256};

verus! {

/// The lowercase hex SHA-256 digest of `data`.
pub uninterp spec fn sha256_hex(data: Seq<u8>) -> Seq<char>;

/// How a cached copy stands against the canonical content.
#[derive(Clone, Copy, Debug, PartialEq, Eq, Structural)]
pub enum SyncVerdict {
    Absent,
    InSync,
    Stale,
}

/// A lowercase hex digit.
pub open spec fn is_lower_hex_digit(c: char) -> bool {
    ('0' <= c && c <= '9') || ('a' <= c && c <= 'f')
}

/// Sixty-four lowercase hex digits: a SHA-256 digest written out.
pub open spec fn is_hex_digest(s: Seq<char>) -> bool {
    s.len() == 64 && forall|k: int| 0 <= k < s.len() ==> is_lower_hex_digit(#[trigger] s[k])
}

/// The verdict for a cached copy (`None` where no file exists) against the
/// canonical bytes: equal digests mean the copy is in sync.
pub open spec fn verdict_of(cached: Option<Seq<u8>>, canonical: Seq<u8>) -> SyncVerdict {
    match cached {
        None => SyncVerdict::Absent,
        Some(c) => if sha256_hex(c) == sha256_hex(canonical) {
            SyncVerdict::InSync
        } else {
            SyncVerdict::Stale
        },
    }
}

/// The verdict for digests already computed.
pub open spec fn verdict_of_digests(cached: Option<Seq<char>>, canonical: Seq<char>) -> SyncVerdict {
    match cached {
        None => SyncVerdict::Absent,
        Some(c) => if c == canonical {
            SyncVerdict::InSync
        } else {
            SyncVerdict::Stale
        },
    }
}

/// Relies on sha2's `Sha256` (`new`, `update`, `finalize`) and generic-array's
/// `LowerHex`: the 32-byte digest of `data` as two lowercase hex digits per
/// byte, a function of `data` alone.
#[verifier::external_body]
fn get_hash_from_data(data: &[u8]) -> (r: String)
    ensures
        r@ == sha256_hex(data@),
        is_hex_digest(r@),
{
    let mut hasher = Sha256::new();
    hasher.update(data);
    let hash = hasher.finalize();
    format!("{:x}", hash)
}

/// The hex digest of `data`.
pub fn content_hash(data: &[u8]) -> (r: String)
    ensures
        r@ == sha256_hex(data@),
        is_hex_digest(r@),
{
    get_hash_from_data(data)
}

/// The verdict from the digest of the cached copy (`None` where it is absent)
/// and the digest of the canonical content.
pub fn verdict_from_digests(cached: Option<&String>, canonical: &String) -> (v: SyncVerdict)
    ensures
        v == verdict_of_digests(
            match cached {
                Some(c) => Some(c@),
                None => None,
            },
            canonical@,
        ),
{
    match cached {
        None => SyncVerdict::Absent,
        Some(c) => if *c == *canonical {
            SyncVerdict::InSync
        } else {
            SyncVerdict::Stale
        },
    }
}

/// Compares the bytes of the cached copy (`None` where no file exists) with the
/// canonical content by their digests.
pub fn sync_verdict(cached: Option<&[u8]>, canonical: &str) -> (v: SyncVerdict)
    ensures
        v == verdict_of(
            match cached {
                Some(c) => Some(c@),
                None => None,
            },
            canonical.spec_bytes(),
        ),
{
    let h2 = get_hash_from_data(canonical.as_bytes());
    match cached {
        None => verdict_from_digests(None, &h2),
        Some(c) => {
            let h1 = get_hash_from_data(c);
            verdict_from_digests(Some(&h1), &h2)
        },
    }
}

/// Whether the cached copy exists and has the digest of the canonical content.
pub fn check_resource(cached: Option<&[u8]>, remote_resource: &str) -> (r: bool)
    ensures
        r == (verdict_of(
            match cached {
                Some(c) => Some(c@),
                None => None,
            },
            remote_resource.spec_bytes(),
        ) == SyncVerdict::InSync),
{
    let v = sync_verdict(cached, remote_resource);
    v == SyncVerdict::InSync
}

/// A cached copy whose bytes are the canonical bytes is in sync, and a missing
/// one is absent.
pub proof fn lemma_verdict_reflexive(content: Seq<u8>)
    ensures
        verdict_of(Some(content), content) == SyncVerdict::InSync,
        verdict_of(None, content) == SyncVerdict::Absent,
{
}

/// A cached copy is stale exactly where its digest differs from that of the
/// canonical bytes.
pub proof fn lemma_verdict_stale(cached: Seq<u8>, canonical: Seq<u8>)
    ensures
        (verdict_of(Some(cached), canonical) == SyncVerdict::Stale) == (sha256_hex(cached)
            != sha256_hex(canonical)),
{
}

/// Hashing is deterministic: equal inputs give equal digests, on every call.
pub proof fn lemma_hash_deterministic(a: Seq<u8>, b: Seq<u8>)
    requires
        a == b,
    ensures
        sha256_hex(a) == sha256_hex(b),
{
}

} // verus!
