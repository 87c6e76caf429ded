//! The request resolver stage.
//!
//! On every inbound request the resolver reads the request's path, looks
//! it up in the mapping store and — when a mapping exists — substitutes
//! the stored real path for it, provided the substitute reassembles into
//! a well-formed target. On a miss, or when reassembly fails, the
//! original path is forwarded unchanged: the resolver is the one stage
//! of the pipeline that fails open, and it never surfaces an error.

use vstd::prelude::*;

use crate::store::MappingStore;
use crate::target::spec_parse_target;
use crate::target::spec_substitute;
use crate::target::substitute_target;

verus! {

/// What the resolver forwards for a request path under a given store
/// state: the stored real path when the path has a mapping and the real
/// path reassembles into a well-formed target, the original path in
/// every other case.
pub open spec fn spec_resolve(m: Map<Seq<char>, Seq<char>>, path: Seq<char>) -> Seq<char> {
    if m.contains_key(path) {
        spec_substitute(path, Some(m[path]))
    } else {
        path
    }
}

/// Resolve one inbound request path against the store. The store is only
/// read — resolving changes no mapping — and the function cannot fail:
/// every outcome is a path to forward.
pub fn resolve_request(store: &MappingStore, path: &String) -> (target: String)
    requires
        store.wf(),
    ensures
        target@ == spec_resolve(store@, path@),
{
    let looked_up = store.get(path);
    substitute_target(path, looked_up)
}

/// Passthrough on miss: a request whose path has no entry in the store is
/// forwarded with its path unchanged.
pub proof fn lemma_passthrough_on_miss(m: Map<Seq<char>, Seq<char>>, path: Seq<char>)
    requires
        !m.contains_key(path),
    ensures
        spec_resolve(m, path) == path,
{
}

/// Fail open on malformed targets: when the stored real path cannot be
/// reassembled into a well-formed target, the request keeps its original,
/// pre-substitution path — the client never sees an error for this case.
pub proof fn lemma_fail_open_on_malformed(m: Map<Seq<char>, Seq<char>>, path: Seq<char>)
    requires
        m.contains_key(path),
        spec_parse_target(m[path]) is None,
    ensures
        spec_resolve(m, path) == path,
{
}

/// Round trip: once a token minted for a real path is stored, a request
/// targeting the token resolves to exactly that real path before it is
/// forwarded — provided the real path reassembles into itself, as every
/// well-formed upstream path does.
pub proof fn lemma_round_trip(
    m: Map<Seq<char>, Seq<char>>,
    token: Seq<char>,
    real_path: Seq<char>,
)
    ensures
        spec_parse_target(real_path) == Some(real_path) ==> spec_resolve(
            m.insert(token, real_path),
            token,
        ) == real_path,
{
}

} // verus!
