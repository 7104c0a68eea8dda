//! One import for the whole storage surface.

pub use crate::address_store::CanonicalAddr;
pub use crate::address_store::ExecuteLoadWithStorage;
pub use crate::address_store::ExecuteSaveWithStorage;
pub use crate::address_store::LoadForAddress;
pub use crate::address_store::SaveForAddress;
pub use crate::codec::Codec;
pub use crate::error::StdError;
pub use crate::error::StdErrorExt;
pub use crate::error::StdResult;
pub use crate::storage::DynamicKey;
pub use crate::storage::DynamicLoad;
pub use crate::storage::DynamicSave;
pub use crate::storage::ReadonlyStorage;
pub use crate::storage::StaticKey;
pub use crate::storage::StaticLoad;
pub use crate::storage::StaticSave;
pub use crate::storage::StaticUpdate;
pub use crate::storage::Storage;
pub use crate::storage::Store;
