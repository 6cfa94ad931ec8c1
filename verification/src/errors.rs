//! Error taxonomy of the display engine. Every fallible operation of the
//! engine reports one of these variants; transport failures of the outside
//! collaborators are mapped to `Transport` at the boundary.

use vstd::prelude::*;

verus! {

#[derive(Clone, Copy, PartialEq, Eq, Structural, Debug)]
pub enum EngineError {
    /// Malformed identifier or empty text, raised before any store call.
    Validation,
    /// The record or link id does not exist in the store.
    NotFound,
    /// `(page-1)*limit >= total` with a non-empty result set, or a page
    /// beyond one on an empty result set.
    PageOutOfRange,
    /// The rendered body would exceed the chat surface's size cap.
    ContentTooLarge,
    /// The acting identity is not allowed to perform the interaction.
    PermissionDenied,
    /// A store or chat-surface call failed.
    Transport,
}

impl EngineError {
    pub open spec fn spec_notice(self) -> Seq<char> {
        match self {
            EngineError::Validation => "Invalid input."@,
            EngineError::NotFound => "No such record."@,
            EngineError::PageOutOfRange => (
                "Page number too high, consider calling `!bugs` and using the navigation arrows."@
            ),
            EngineError::ContentTooLarge => (
                "Too many bugs to display. Consider lowering the limit."@
            ),
            EngineError::PermissionDenied => (
                "You are not the original user of the command! Call `!bugs` yourself to use the buttons."@
            ),
            EngineError::Transport => "Something went wrong."@,
        }
    }

    /// Corrective text shown to the actor when the operation fails.
    pub fn notice(self) -> (r: &'static str)
        ensures
            r@ == self.spec_notice(),
    {
        match self {
            EngineError::Validation => "Invalid input.",
            EngineError::NotFound => "No such record.",
            EngineError::PageOutOfRange => {
                "Page number too high, consider calling `!bugs` and using the navigation arrows."
            },
            EngineError::ContentTooLarge => {
                "Too many bugs to display. Consider lowering the limit."
            },
            EngineError::PermissionDenied => {
                "You are not the original user of the command! Call `!bugs` yourself to use the buttons."
            },
            EngineError::Transport => "Something went wrong.",
        }
    }
}

} // verus!
