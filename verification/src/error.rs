//! The one failure the menu can report.

use vstd::prelude::*;
use vstd::string::StringExecFns;

verus! {

/// Why the menu could not be constructed. Construction happens once, at
/// startup, and a failure there is fatal to the shell.
#[derive(Debug, Clone, PartialEq, Eq)]
pub enum MenuConstructionError {
    /// Two leaf items of the tree carry the same identifier.
    DuplicateId(String),
    /// The host refused an item definition; the text is the host's own reason.
    HostRejected(String),
}

/// Mathematical model of a [`MenuConstructionError`].
pub enum MenuConstructionErrorView {
    DuplicateId(Seq<char>),
    HostRejected(Seq<char>),
}

impl View for MenuConstructionError {
    type V = MenuConstructionErrorView;

    open spec fn view(&self) -> MenuConstructionErrorView {
        match self {
            MenuConstructionError::DuplicateId(id) => MenuConstructionErrorView::DuplicateId(id@),
            MenuConstructionError::HostRejected(reason) => MenuConstructionErrorView::HostRejected(
                reason@,
            ),
        }
    }
}

/// The text that [`MenuConstructionError::message`] produces.
pub open spec fn message_text(error: MenuConstructionErrorView) -> Seq<char> {
    match error {
        MenuConstructionErrorView::DuplicateId(id) => "duplicate menu item id: "@ + id,
        MenuConstructionErrorView::HostRejected(reason) => "menu rejected by the host: "@ + reason,
    }
}

impl MenuConstructionError {
    /// A line of text for logs and for the abort message.
    pub fn message(&self) -> (text: String)
        ensures
            text@ == message_text(self@),
    {
        match self {
            MenuConstructionError::DuplicateId(id) => String::from_str(
                "duplicate menu item id: ",
            ).concat(id.as_str()),
            MenuConstructionError::HostRejected(reason) => String::from_str(
                "menu rejected by the host: ",
            ).concat(reason.as_str()),
        }
    }
}

} // verus!
