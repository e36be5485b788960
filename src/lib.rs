//! A registry that hands out sequential identifiers to newly created
//! records and binds each identifier, for good, to an owner, a name and an
//! image reference, all held in a key/value store.

pub mod key;
pub mod laws;
pub mod registry;
pub mod store;

pub use key::StoreKey;
pub use registry::{NFTContract, NftError, Record};
pub use store::{KvStore, StoreValue};
