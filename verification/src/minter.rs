//! The response minter stage.
//!
//! After the forwarding call returns, the minter asks the policy for a
//! fresh token for the real path the response exposes, records the
//! (token, real path) pair in the mapping store, and rewrites the
//! response body to surface the token in place of the real path, as an
//! absolute reference of the form `scheme://host<token>`. Reading the
//! upstream body is the embedding program's concern; if that read fails,
//! the request is terminated with a body-read failure — the minter never
//! falls back silently.

use vstd::prelude::*;

use crate::policy::mint_token;
use crate::policy::spec_mint;
use crate::store::MappingStore;

verus! {

/// The absolute reference the minter embeds for a token.
pub open spec fn spec_absolute_reference(token: Seq<char>) -> Seq<char> {
    "http://localhost"@ + token
}

/// Mint a token for `real_path` and record the mapping, overwriting any
/// real path previously stored under the same token. Minting itself never
/// touches the store; this composition of the two steps is the minter's.
pub fn mint_and_store(store: &mut MappingStore, real_path: &str) -> (token: String)
    requires
        old(store).wf(),
        real_path@.len() >= 1,
        real_path@[0] == '/',
    ensures
        final(store).wf(),
        token@ == spec_mint(real_path@),
        final(store)@ == old(store)@.insert(token@, real_path@),
{
    let token = mint_token(real_path);
    store.put(token.clone(), String::from_str(real_path));
    token
}

/// Rewrite a response body to surface `token`: the absolute reference
/// embedding the token is appended to the textual payload.
pub fn rewrite_body(body: &str, token: &str) -> (rewritten: String)
    ensures
        rewritten@ == body@ + spec_absolute_reference(token@),
{
    let mut rewritten = String::from_str(body);
    rewritten.append("http://localhost");
    rewritten.append(token);
    proof {
        assert(rewritten@ =~= body@ + spec_absolute_reference(token@));
    }
    rewritten
}

/// The whole minter stage on a completed response: mint a token for the
/// real path the response exposes, store the mapping, and hand back the
/// token together with the rewritten body.
pub fn mint_response(store: &mut MappingStore, real_path: &str, body: &str) -> (out: (
    String,
    String,
))
    requires
        old(store).wf(),
        real_path@.len() >= 1,
        real_path@[0] == '/',
    ensures
        final(store).wf(),
        out.0@ == spec_mint(real_path@),
        out.1@ == body@ + spec_absolute_reference(spec_mint(real_path@)),
        final(store)@ == old(store)@.insert(spec_mint(real_path@), real_path@),
{
    let token = mint_and_store(store, real_path);
    let rewritten = rewrite_body(body, token.as_str());
    (token, rewritten)
}

} // verus!
