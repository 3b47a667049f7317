use vstd::prelude::*;

verus! {

/// The messages of the debug window.
#[derive(Clone, Debug)]
pub enum DebugMessageKind {
    Log(String),
    Store(String, String),
}

} // verus!
