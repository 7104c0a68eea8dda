//! A typed persistence layer between application logic and an opaque
//! byte-keyed key/value store.
//!
//! Structured values are saved and loaded under either a compile-time-fixed
//! key (one slot per type) or a runtime-computed key (one slot per type per
//! identifier), with a deterministic binary encoding and a uniform error
//! surface.

pub mod address_store;
pub mod codec;
pub mod error;
pub mod prelude;
pub mod state;
pub mod storage;

pub use codec::Codec;
pub use codec::Unencodable;
pub use error::StdError;
pub use error::StdErrorExt;
pub use error::StdResult;
