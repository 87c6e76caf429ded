//! The token-minting policy.
//!
//! A policy turns a real upstream path into the opaque token shown to
//! clients. Policies are pluggable: the pipeline only sees the [`Dispatch`]
//! trait. The concrete policy provided here is a reversible character
//! transform — it keeps the leading slash and reverses the rest of the
//! path — so resolving a token is a plain store lookup and the transform
//! itself is its own inverse.

use vstd::prelude::*;

verus! {

/// The token minted for a real path by the reversal policy: the leading
/// slash is kept and the remaining characters are reversed.
pub open spec fn spec_mint(path: Seq<char>) -> Seq<char> {
    seq!['/'] + path.subrange(1, path.len() as int).reverse()
}

/// Mint a token for `path` with the reversal policy. Minting is a pure
/// function of the path; it never touches the mapping store.
pub fn mint_token(path: &str) -> (token: String)
    requires
        path@.len() >= 1,
        path@[0] == '/',
    ensures
        token@ == spec_mint(path@),
{
    let mut token = String::new();
    token.append("/");
    proof {
        reveal_strlit("/");
        assert(token@ =~= seq!['/'] + path@.subrange(path@.len() as int, path@.len() as int).reverse());
    }
    let n = path.unicode_len();
    let mut i: usize = n;
    while i > 1
        invariant
            1 <= i <= n,
            n == path@.len(),
            token@ == seq!['/'] + path@.subrange(i as int, n as int).reverse(),
        decreases i,
    {
        i = i - 1;
        let c = path.substring_char(i, i + 1);
        token.append(c);
        proof {
            assert(path@.subrange(i as int, n as int).reverse() =~= path@.subrange(
                i as int + 1,
                n as int,
            ).reverse() + path@.subrange(i as int, i as int + 1));
            assert(token@ =~= seq!['/'] + path@.subrange(i as int, n as int).reverse());
        }
    }
    proof {
        assert(token@ =~= spec_mint(path@));
    }
    token
}

/// The reversal policy is its own inverse: minting a token for a minted
/// token gives the original path back.
pub proof fn lemma_mint_involutive(path: Seq<char>)
    requires
        path.len() >= 1,
        path[0] == '/',
    ensures
        spec_mint(spec_mint(path)) == path,
{
    let n = path.len() as int;
    let token = spec_mint(path);
    assert(token.len() == n);
    assert(token.subrange(1, n) =~= path.subrange(1, n).reverse());
    assert(token.subrange(1, n).reverse() =~= path.subrange(1, n));
    assert(spec_mint(token) =~= path);
}

/// A pluggable substitution policy: given the path of a request, pick a
/// substitute target for it, or `None` to leave the request alone. The
/// pipeline is ignorant of which policy is installed; it relies only on
/// `spec_pick` describing what the installed policy picks.
pub trait Dispatch {
    /// What this policy picks for a given path.
    spec fn spec_pick(&self, path: Seq<char>) -> Option<Seq<char>>;

    /// Pick a substitute target for `path`, or `None` to leave the
    /// request alone.
    fn pick(&self, path: &str) -> (r: Option<String>)
        ensures
            r.deep_view() == self.spec_pick(path@),
    ;
}

/// The concrete reversal policy: paths are substituted by their minted
/// token; a path without a leading slash is left alone.
#[derive(Clone, Copy)]
pub struct ReversePolicy;

impl Dispatch for ReversePolicy {
    open spec fn spec_pick(&self, path: Seq<char>) -> Option<Seq<char>> {
        if path.len() >= 1 && path[0] == '/' {
            Some(spec_mint(path))
        } else {
            None
        }
    }

    fn pick(&self, path: &str) -> (r: Option<String>) {
        if path.unicode_len() >= 1 && path.get_char(0) == '/' {
            Some(mint_token(path))
        } else {
            None
        }
    }
}

} // verus!
