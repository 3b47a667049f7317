pub mod hash;
pub mod keychain;
pub mod keys;
pub mod storage;
pub mod traits;
