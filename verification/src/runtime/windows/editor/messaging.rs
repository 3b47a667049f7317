use vstd::prelude::*;

verus! {

/// The messages an editor window receives.
#[derive(Clone, Debug)]
pub enum EditorMessageKind {
    Tick,
    FileChanged(String),
}

} // verus!
