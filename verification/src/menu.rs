//! The modal action menu over the table.
//!
//! The menu is either closed or open over one target row. It is opened
//! only from a non-empty table, holds only the row index — never a copy
//! of the row — and is always closed again before a chosen action
//! executes.

use vstd::prelude::*;

verus! {

/// An action the operator can choose from the row menu.
#[derive(Copy, Clone, Debug, PartialEq, Eq, Structural)]
pub enum ImageTableRowAction {
    Delete,
}

/// The state of the modal row menu.
#[derive(Copy, Clone, Debug, PartialEq, Eq, Structural)]
pub enum MenuState {
    Closed,
    Open { target_row: usize },
}

/// One chosen action over one resource, consumed exactly once by the
/// dispatcher.
pub struct ActionRequest {
    pub resource_id: String,
    pub action_kind: ImageTableRowAction,
}

impl ImageTableRowAction {
    /// The text the menu shows for this action.
    pub fn label(&self) -> (r: &'static str)
        ensures
            r@ == seq!['D', 'e', 'l', 'e', 't', 'e'],
    {
        let r: &'static str = match *self {
            ImageTableRowAction::Delete => "Delete",
        };
        proof {
            reveal_strlit("Delete");
            assert(r@ =~= seq!['D', 'e', 'l', 'e', 't', 'e']);
        }
        r
    }
}

/// The fixed set of choices the menu offers: exactly the delete
/// action.
pub fn menu_choices() -> (r: Vec<ImageTableRowAction>)
    ensures
        r@ == seq![ImageTableRowAction::Delete],
{
    let mut choices = Vec::new();
    choices.push(ImageTableRowAction::Delete);
    proof {
        assert(choices@ =~= seq![ImageTableRowAction::Delete]);
    }
    choices
}

} // verus!
