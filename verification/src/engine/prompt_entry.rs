//! What the prompt lists: entries with a label, a detail and the mode they belong to.
use vstd::prelude::*;
use crate::engine::command_list::EntryView;
use crate::protocol::prompt_ui::PromptMode;

verus! {

/// An entry of a prompt list.
pub trait PromptEntry {
    /// The entry's label, detail and mode.
    spec fn entry(&self) -> EntryView;

    fn label(&self) -> (r: &str)
        ensures
            r@ == self.entry().0,
    ;

    fn detail(&self) -> (r: &str)
        ensures
            r@ == self.entry().1,
    ;

    fn mode(&self) -> (r: PromptMode)
        ensures
            r == self.entry().2,
    ;
}

} // verus!
