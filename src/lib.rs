//! An escrow registry for value and extension state addressed to a recipient
//! who is known only by a commitment to an email address.
//!
//! A depositor registers an unclaimed fund or an unclaimed state and pays for
//! the gas its claim will use. A relayer later claims it for the recipient
//! with a proof that the recipient controls the committed address, or once it
//! has expired, the depositor or a relayer voids it. The registry decides;
//! its collaborators (the relayer registry, the proof verifier, the asset
//! ledger and the extensions' callbacks) answer through plain values.

pub mod address;
pub mod defines;
pub mod error;
pub mod handler;
pub mod laws;
pub mod mail;
pub mod model;
pub mod policy;
pub mod types;

pub use address::Address;
pub use error::UnclaimsError;
pub use handler::UnclaimsHandler;
