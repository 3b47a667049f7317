//! A storage interface for values that are kept secret.

use vstd::prelude::*;
use crate::storage::workspace::WorkspaceError;

verus! {

/// Values that can be stored and loaded under a key through secure storage.
pub trait Secure {
    fn store<T>(&mut self, key: &str) -> Result<T, WorkspaceError>;

    fn load<T>(key: &str) -> Result<T, WorkspaceError>;
}

} // verus!
