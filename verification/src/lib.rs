//! An ownership-gated key/value store.
//!
//! Every stored entry binds a key to the identity that owns it. Only the
//! current owner may overwrite an entry; a key without an entry counts as
//! owned by the store's own contract identity and may be claimed by anyone.

pub mod contract;
pub mod env;
pub mod error;
pub mod identity;
pub mod laws;
pub mod signature;
pub mod store;

pub use contract::{ExampleContract, Ownership, SigStep};
pub use env::{Env, EnvView};
pub use error::GateError;
pub use identity::{bytes_equal, Identity, IdentityView, CONTRACT_MARK};
pub use signature::{Signature, SignatureView};
pub use store::Store;
