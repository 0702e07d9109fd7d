use vstd::prelude::*;

verus! {

/// The intents a user action can raise against the store.  Each variant is
/// applied atomically by [`crate::model::ToDosModel::handle_message`].
#[derive(Debug, Clone)]
pub enum ToDosMsg {
    /// Commit the given text as a new entry (after trimming).
    AddToDo(String),
    /// Flip the completion flag of the entry with the given identifier.
    ToggleToDo(usize),
    /// Delete the entry with the given identifier.
    RemoveToDo(usize),
    /// Replace the uncommitted input buffer with the given text.
    UpdateToDo(String),
}

} // verus!
