//! The SuperInstance bottle protocol: a JSON envelope that carries a
//! base64-encoded MessagePack payload, with a ternary charge (`trits`)
//! whose sum every transformation must conserve.

pub mod bottle;
pub mod bottle_integration;
pub mod clock;
pub mod conservation;
pub mod encoding;
pub mod equality;
pub mod error;

pub use bottle::{Bottle, BottleHeader, Trit};
pub use conservation::{audit, audit_strict};
pub use error::BottleError;
