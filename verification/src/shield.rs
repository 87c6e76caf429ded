//! The path-substitution middleware.
//!
//! A [`Shield`] wraps an inner handler and, for each request, asks the
//! installed [`Dispatch`] policy for a substitute target. When the policy
//! picks one and it reassembles into a well-formed target, the request is
//! forwarded under the substitute; otherwise the request keeps its
//! original target. [`ShieldLayer`] is the corresponding layer: its one
//! operation wraps a handler without knowing anything else about it, so
//! independent stages compose in caller-specified order.

use vstd::prelude::*;

use crate::policy::Dispatch;
use crate::target::spec_substitute;
use crate::target::substitute_target;

verus! {

/// A middleware layer that installs the path-substitution stage with a
/// chosen policy around any handler it is given.
#[derive(Clone)]
pub struct ShieldLayer<D> {
    dispatcher: D,
}

impl<D> ShieldLayer<D> {
    /// The policy this layer installs.
    pub closed spec fn spec_dispatcher(&self) -> D {
        self.dispatcher
    }

    /// A layer installing `dispatcher`.
    pub fn new(dispatcher: D) -> (layer: Self)
        ensures
            layer.spec_dispatcher() == dispatcher,
    {
        ShieldLayer { dispatcher }
    }

    /// Wrap a handler: the layer's one composition operation. The layer
    /// is ignorant of what it wraps; it only installs its policy around
    /// the handler.
    pub fn layer<S>(self, inner: S) -> (service: Shield<S, D>)
        ensures
            service.spec_inner() == inner,
            service.spec_dispatcher() == self.spec_dispatcher(),
    {
        Shield { inner, dispatcher: self.dispatcher }
    }
}

/// The path-substitution stage wrapped around an inner handler.
#[derive(Clone)]
pub struct Shield<S, D> {
    inner: S,
    dispatcher: D,
}

impl<S, D> Shield<S, D> {
    /// The wrapped handler.
    pub closed spec fn spec_inner(&self) -> S {
        self.inner
    }

    /// The installed policy.
    pub closed spec fn spec_dispatcher(&self) -> D {
        self.dispatcher
    }

    /// A stage around `inner` that substitutes paths as `dispatcher`
    /// picks.
    pub fn new(inner: S, dispatcher: D) -> (service: Self)
        ensures
            service.spec_inner() == inner,
            service.spec_dispatcher() == dispatcher,
    {
        Shield { inner, dispatcher }
    }

    /// A shared borrow of the wrapped handler, to forward the rewritten
    /// request on.
    pub fn inner(&self) -> (inner: &S)
        ensures
            inner == self.spec_inner(),
    {
        &self.inner
    }
}

impl<S, D: Dispatch> Shield<S, D> {
    /// The request-rewriting step of this stage: the target the wrapped
    /// handler sees for a request whose path is `path`. The policy's pick
    /// is applied when it reassembles into a well-formed target; on no
    /// pick, or a malformed one, the original path stands and no error
    /// surfaces.
    pub fn rewrite_path(&self, path: &String) -> (target: String)
        ensures
            target@ == spec_substitute(path@, self.spec_dispatcher().spec_pick(path@)),
    {
        let picked = self.dispatcher.pick(path.as_str());
        substitute_target(path, picked)
    }
}

} // verus!
