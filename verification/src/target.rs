//! Reassembly of rewritten request targets.
//!
//! After a stage substitutes a path, the substitute must still form a
//! well-formed origin-form request target. Validation is delegated to the
//! `http` crate's parser; a substitution whose target cannot be
//! reassembled is dropped and the original path is forwarded unchanged
//! (the pipeline fails open on malformed targets).

use vstd::prelude::*;

verus! {

/// The outcome of parsing a string as an origin-form request target:
/// `None` when the string is rejected, `Some(t)` when it is accepted and
/// yields the target `t`.
pub uninterp spec fn spec_parse_target(s: Seq<char>) -> Option<Seq<char>>;

/// Relies on `http::uri::PathAndQuery`'s `FromStr` implementation:
/// whether a string is accepted as a request target, and the target it
/// then carries (`as_str`), depend on the string's characters alone.
#[verifier::external_body]
fn parse_target(s: &str) -> (r: Option<String>)
    ensures
        (match r {
            Some(t) => spec_parse_target(s@) == Some(t@),
            None => spec_parse_target(s@) is None,
        }),
{
    match s.parse::<http::uri::PathAndQuery>() {
        Ok(pq) => Some(pq.as_str().to_string()),
        Err(_) => None,
    }
}

/// What a stage forwards after an attempted path substitution: the picked
/// replacement when it reassembles into a well-formed target, otherwise
/// the original path, unchanged.
pub open spec fn spec_substitute(original: Seq<char>, picked: Option<Seq<char>>) -> Seq<char> {
    match picked {
        Some(q) => match spec_parse_target(q) {
            Some(t) => t,
            None => original,
        },
        None => original,
    }
}

/// Apply a picked substitution to `original`. A malformed substitute is
/// swallowed silently: the caller gets the original path back and no
/// error ever surfaces from this stage.
pub fn substitute_target(original: &String, picked: Option<String>) -> (target: String)
    ensures
        target@ == spec_substitute(original@, picked.deep_view()),
{
    match picked {
        Some(q) => match parse_target(q.as_str()) {
            Some(t) => t,
            None => original.clone(),
        },
        None => original.clone(),
    }
}

} // verus!
