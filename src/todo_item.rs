use vstd::prelude::*;

use crate::item_id::ItemId;

verus! {

/// One row of the list.
#[derive(Clone, Debug)]
pub struct TodoItem {
    pub done: bool,
    /// Whether the row shows an editor for its text rather than a label.
    pub currently_edited: bool,
    pub text: String,
    pub id: ItemId,
}

/// The item with its display mode switched, all else kept.
pub open spec fn toggled(t: TodoItem) -> TodoItem {
    TodoItem { currently_edited: !t.currently_edited, ..t }
}

impl TodoItem {
    /// A new item: not done, not being edited.
    pub fn new(text: String, id: ItemId) -> (r: TodoItem)
        ensures
            r.text == text,
            r.id == id,
            !r.done,
            !r.currently_edited,
    {
        TodoItem { done: false, currently_edited: false, text, id }
    }

    /// Switches the row between showing its text and editing it.
    pub fn toggle_edit(&mut self)
        ensures
            *final(self) == toggled(*old(self)),
    {
        self.currently_edited = !self.currently_edited;
    }

    /// The caption of the button that switches the display mode.
    pub fn edit_button_label(&self) -> (r: &'static str)
        ensures
            self.currently_edited ==> r@ == "Save"@,
            !self.currently_edited ==> r@ == "Edit"@,
    {
        if self.currently_edited {
            "Save"
        } else {
            "Edit"
        }
    }
}

/// Switching the display mode twice gives back the item as it was, with the
/// same text, done flag and identifier.
pub proof fn lemma_toggle_edit_twice(t: TodoItem)
    ensures
        toggled(toggled(t)) == t,
        toggled(t).text == t.text,
        toggled(t).done == t.done,
        toggled(t).id == t.id,
        toggled(t).currently_edited != t.currently_edited,
{
}

} // verus!
