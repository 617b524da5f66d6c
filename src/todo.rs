use vstd::prelude::*;

verus! {

/// One checklist entry. An entry owns its children, so the entries form a
/// finite tree by construction.
pub struct Todo {
    pub text: String,
    pub checked: bool,
    pub editing: bool,
    pub children: Vec<Todo>,
}

/// The ways an operation of the library can fail.
#[derive(Clone, Copy, Debug, PartialEq, Eq, Structural)]
pub enum StoreError {
    /// A position at or past the end of the store.
    OutOfRange,
    /// A file could not be created, read or written.
    IoError,
    /// A document is not well formed under the schema.
    DecodeError,
    /// A value could not be written in the document format.
    EncodeError,
}

/// A fresh entry: the given text, unchecked, not being edited, no children.
pub open spec fn is_fresh(t: Todo, text: Seq<char>) -> bool {
    &&& t.text@ == text
    &&& !t.checked
    &&& !t.editing
    &&& t.children@ == Seq::<Todo>::empty()
}

impl Todo {
    /// A new unchecked entry holding `text`.
    pub fn new(text: String) -> (r: Todo)
        ensures
            is_fresh(r, text@),
    {
        Todo { text, checked: false, editing: false, children: Vec::new() }
    }
}

} // verus!
