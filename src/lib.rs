//! The state of a small todo list: its items, in display order, and the text
//! of the item about to be added.

mod app_data;
mod item_id;
mod todo_item;
mod todo_list;

pub use app_data::{is_add_of, lemma_add_appends_one, lemma_add_keeps_order, AppData};
pub use item_id::ItemId;
pub use todo_list::{
    has_id, ids_unique, is_first_match, lemma_delete_existing, lemma_delete_keeps_order,
    lemma_delete_missing, lemma_first_match_unique, lemma_remove_keeps_ids_unique, removal_index,
    same_relative_order, vector_items,
};
pub use todo_item::{lemma_toggle_edit_twice, toggled, TodoItem};
