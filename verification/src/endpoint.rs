//! Endpoint resolution: normalizing a configured API base URL into a concrete
//! completions or models URL.
//!
//! After stripping trailing slashes, a base URL that already names the target
//! path segment is used as-is; one that ends in `/v1` or mentions `/v1beta`
//! or `/v2` gets the bare segment appended; any other base gets the default
//! `/v1` prefix plus the segment.

use vstd::prelude::*;

use crate::text::contains_spec;
use crate::text::contains_str;
use crate::text::ends_with_spec;
use crate::text::ends_with_str;
use crate::text::lemma_concat_ends_with;
use crate::text::lemma_ends_with_contains;
use crate::text::lemma_trim_end_slashes_identity;
use crate::text::lemma_trim_end_slashes_result;
use crate::text::trim_end_slashes;
use crate::text::trim_end_slashes_spec;

verus! {

/// Whether the version scheme of `base` is already explicit, so that the
/// target segment is appended without the default `/v1` prefix.
pub open spec fn has_version_marker(base: Seq<char>) -> bool {
    ends_with_spec(base, "/v1"@) || contains_spec(base, "/v1beta"@) || contains_spec(base, "/v2"@)
}

/// The resolved URL for a base and a target path segment.
pub open spec fn resolve_spec(base: Seq<char>, seg: Seq<char>) -> Seq<char> {
    let b = trim_end_slashes_spec(base);
    if contains_spec(b, seg) {
        b
    } else if has_version_marker(b) {
        b + seg
    } else {
        b + "/v1"@ + seg
    }
}

/// The fully resolved chat-completions URL for a base URL.
pub open spec fn completions_url_spec(base: Seq<char>) -> Seq<char> {
    resolve_spec(base, "/chat/completions"@)
}

/// The fully resolved models URL for a base URL.
pub open spec fn models_url_spec(base: Seq<char>) -> Seq<char> {
    resolve_spec(base, "/models"@)
}

fn resolve(base_url: &str, seg: &str) -> (r: String)
    ensures
        r@ == resolve_spec(base_url@, seg@),
{
    let base = trim_end_slashes(base_url);
    if contains_str(base, seg) {
        base.to_owned()
    } else if ends_with_str(base, "/v1") || contains_str(base, "/v1beta") || contains_str(
        base,
        "/v2",
    ) {
        let r = base.to_owned().concat(seg);
        r
    } else {
        let r = base.to_owned().concat("/v1").concat(seg);
        proof {
            assert(r@ =~= trim_end_slashes_spec(base_url@) + "/v1"@ + seg@);
        }
        r
    }
}

/// The chat-completions endpoint for a user-supplied base URL.
pub fn get_completions_url(base_url: &str) -> (r: String)
    ensures
        r@ == completions_url_spec(base_url@),
{
    resolve(base_url, "/chat/completions")
}

/// The models endpoint for a user-supplied base URL.
pub fn get_models_url(base_url: &str) -> (r: String)
    ensures
        r@ == models_url_spec(base_url@),
{
    resolve(base_url, "/models")
}

/// A base URL that already contains the target segment, and carries no
/// trailing slash for trimming to remove, resolves to itself.
pub proof fn lemma_resolve_identity(base: Seq<char>, seg: Seq<char>)
    requires
        contains_spec(base, seg),
        base.len() == 0 || base[base.len() - 1] != '/',
    ensures
        resolve_spec(base, seg) == base,
{
    lemma_trim_end_slashes_identity(base);
}

/// A base URL that ends in an explicit version marker, and does not already
/// contain the target segment, gets exactly the bare segment appended: no
/// second version prefix appears.
pub proof fn lemma_resolve_versioned_append(base: Seq<char>, seg: Seq<char>)
    requires
        !contains_spec(base, seg),
        ends_with_spec(base, "/v1"@) || ends_with_spec(base, "/v1beta"@) || ends_with_spec(
            base,
            "/v2"@,
        ),
        base.len() == 0 || base[base.len() - 1] != '/',
    ensures
        resolve_spec(base, seg) == base + seg,
{
    lemma_trim_end_slashes_identity(base);
    if ends_with_spec(base, "/v1beta"@) {
        lemma_ends_with_contains(base, "/v1beta"@);
    }
    if ends_with_spec(base, "/v2"@) {
        lemma_ends_with_contains(base, "/v2"@);
    }
}

/// Resolution is idempotent: resolving an already resolved URL changes
/// nothing, for any target segment that is nonempty and slash-free at its
/// end.
pub proof fn lemma_resolve_idempotent(base: Seq<char>, seg: Seq<char>)
    requires
        seg.len() > 0,
        seg[seg.len() - 1] != '/',
    ensures
        resolve_spec(resolve_spec(base, seg), seg) == resolve_spec(base, seg),
{
    let b = trim_end_slashes_spec(base);
    let r = resolve_spec(base, seg);
    lemma_trim_end_slashes_result(base);
    if contains_spec(b, seg) {
        // r == b: trimmed, and still contains the segment.
        lemma_trim_end_slashes_identity(r);
    } else {
        // r ends with seg, so r has no trailing slash and contains seg.
        if has_version_marker(b) {
            lemma_concat_ends_with(b, seg);
        } else {
            lemma_concat_ends_with(b + "/v1"@, seg);
            assert(b + "/v1"@ + seg == r);
        }
        assert(ends_with_spec(r, seg));
        assert(r[r.len() - 1] == seg[seg.len() - 1]) by {
            assert(r.subrange(r.len() - seg.len(), r.len() as int)[seg.len() - 1] == seg[seg.len()
                - 1]);
        }
        lemma_trim_end_slashes_identity(r);
        lemma_ends_with_contains(r, seg);
    }
}

} // verus!
