//! Small decisions shared by the editor and the prompt.
use vstd::prelude::*;

verus! {

/// Whether a request changed what a client sees.
#[derive(Debug, PartialEq, Eq, Structural, Clone, Copy)]
pub enum FrameSignal {
    Frame,
    Skip,
}

/// Which commands the command prompt offers: those for the whole buffer, or
/// those acting on a visual selection.
#[derive(Debug, PartialEq, Eq, Structural, Clone, Copy)]
pub enum CommandScope {
    Normal,
    Visual,
}

} // verus!
