//! A reverse-proxy rewriting pipeline that hides real upstream resource
//! paths behind opaque, dynamically minted path tokens.
//!
//! Inbound requests carrying a token are resolved back to the real path
//! before being forwarded; outbound responses are rewritten to embed
//! freshly minted tokens, and the token-to-path mapping is recorded for
//! future lookups. This crate holds the verified core of that pipeline:
//! the mapping store, the minting policy, the request-resolver and
//! response-minter stages, the path-rewriting middleware, and the
//! translation of failure kinds into client-visible statuses. Listener
//! setup, the forwarding transport and the asynchronous plumbing around
//! these stages are external collaborators.

pub mod error;
pub mod minter;
pub mod pipeline;
pub mod policy;
pub mod resolver;
pub mod shield;
pub mod store;
pub mod target;

pub use error::Error;
pub use policy::Dispatch;
pub use policy::ReversePolicy;
pub use shield::Shield;
pub use shield::ShieldLayer;
pub use store::MappingStore;
