use vstd::prelude::*;
use crate::store::{
    flip_checked, flip_editing, lists_pairs, unchecked_in, visible_in, with_text, FilterMode,
    TodoList,
};
use crate::todo::{is_fresh, StoreError, Todo};

verus! {

/// The section of the application that is showing.
#[derive(Clone, Copy, Debug, PartialEq, Eq, Structural)]
pub enum Page {
    Todos,
    Notes,
    Calendar,
}

/// A user action, as the interface reports it.
#[derive(Clone, Debug)]
pub enum Signal {
    /// The text in the entry field changed.
    TextInputChanged(String),
    /// Add the entry field's text as a new item.
    Submit,
    /// Delete the item at a position.
    Delete(usize),
    /// Enter or leave in-place editing of the item at a position.
    Edit(usize),
    /// Check or uncheck the item at a position.
    Check(usize),
    /// The in-place text of the item at a position changed.
    TodoTextInputChanged(String, usize),
    /// Save the items to a file.
    Save,
    /// Load the items from a file.
    Load,
    OnModeAll,
    OnModeChecked,
    OnModeUnchecked,
    /// Delete every checked item.
    DeleteFinished,
}

/// Work that the session asks its caller to do after an update.
#[derive(Clone, Copy, Debug, PartialEq, Eq, Structural)]
pub enum Command {
    Nothing,
    /// Ask for a path, write the items there, then call `finish_save`.
    PickSavePath,
    /// Ask for a path, read items from it, then call `finish_load`.
    PickLoadPath,
}

/// The state of one session, as the contracts see it.
pub struct NoteBoxView {
    pub text: Seq<char>,
    pub todos: Seq<Todo>,
    pub save_path: Seq<char>,
    pub already_saved: bool,
    pub page: Page,
    pub filter: FilterMode,
}

/// One editing session: the entry field, the items, the file they belong
/// to, and the active filter.
pub struct NoteBox {
    text: String,
    todos: TodoList,
    save_path: String,
    already_saved: bool,
    page: Page,
    filter: FilterMode,
}

impl View for NoteBox {
    type V = NoteBoxView;

    closed spec fn view(&self) -> NoteBoxView {
        NoteBoxView {
            text: self.text@,
            todos: self.todos@,
            save_path: self.save_path@,
            already_saved: self.already_saved,
            page: self.page,
            filter: self.filter,
        }
    }
}

/// `n` is `o` with its items replaced by `todos`.
pub open spec fn with_todos(o: NoteBoxView, todos: Seq<Todo>) -> NoteBoxView {
    NoteBoxView { todos, ..o }
}

/// The outcome of an operation on the item at `i`: `changed` when `i` is a
/// position of `o`, else an out-of-range error and no change.
pub open spec fn at_position(
    o: NoteBoxView,
    i: usize,
    changed: Seq<Todo>,
    n: NoteBoxView,
    r: Result<Command, StoreError>,
) -> bool {
    if i < o.todos.len() {
        n == with_todos(o, changed) && r == Ok::<Command, StoreError>(Command::Nothing)
    } else {
        n == o && r == Err::<Command, StoreError>(StoreError::OutOfRange)
    }
}

/// What handling `m` does: from state `o` to state `n`, returning `r`.
pub open spec fn handles(o: NoteBoxView, m: Signal, n: NoteBoxView, r: Result<Command, StoreError>) -> bool {
    match m {
        Signal::TextInputChanged(s) => n == NoteBoxView { text: s@, ..o } && r == Ok::<
            Command,
            StoreError,
        >(Command::Nothing),
        Signal::Submit => {
            &&& n.todos.len() == o.todos.len() + 1
            &&& n.todos.drop_last() == o.todos
            &&& is_fresh(n.todos.last(), o.text)
            &&& n == NoteBoxView { text: Seq::<char>::empty(), todos: n.todos, ..o }
            &&& r == Ok::<Command, StoreError>(Command::Nothing)
        },
        Signal::Delete(i) => at_position(o, i, o.todos.remove(i as int), n, r),
        Signal::Edit(i) => at_position(o, i, o.todos.update(i as int, flip_editing(o.todos[i as int])), n, r),
        Signal::Check(i) => at_position(o, i, o.todos.update(i as int, flip_checked(o.todos[i as int])), n, r),
        Signal::TodoTextInputChanged(s, i) => at_position(
            o,
            i,
            o.todos.update(i as int, with_text(o.todos[i as int], s)),
            n,
            r,
        ),
        Signal::Save => n == o && r == Ok::<Command, StoreError>(Command::PickSavePath),
        Signal::Load => n == o && r == Ok::<Command, StoreError>(Command::PickLoadPath),
        Signal::OnModeAll => n == NoteBoxView { filter: FilterMode::All, ..o } && r == Ok::<
            Command,
            StoreError,
        >(Command::Nothing),
        Signal::OnModeChecked => n == NoteBoxView { filter: FilterMode::OnlyChecked, ..o } && r
            == Ok::<Command, StoreError>(Command::Nothing),
        Signal::OnModeUnchecked => n == NoteBoxView { filter: FilterMode::OnlyUnchecked, ..o }
            && r == Ok::<Command, StoreError>(Command::Nothing),
        Signal::DeleteFinished => n == with_todos(o, unchecked_in(o.todos)) && r
            == Ok::<Command, StoreError>(Command::Nothing),
    }
}

/// `Ok(())` becomes "nothing left to do"; an error stays as it is.
fn nothing_left(r: Result<(), StoreError>) -> (c: Result<Command, StoreError>)
    ensures
        r is Ok ==> c == Ok::<Command, StoreError>(Command::Nothing),
        r is Err ==> c == Err::<Command, StoreError>(r->Err_0),
{
    match r {
        Ok(()) => Ok(Command::Nothing),
        Err(e) => Err(e),
    }
}

impl NoteBox {
    /// A new session: empty entry field, no items, no file, the todo page,
    /// every item shown.
    pub fn new() -> (r: NoteBox)
        ensures
            r@ == (NoteBoxView {
                text: Seq::<char>::empty(),
                todos: Seq::<Todo>::empty(),
                save_path: Seq::<char>::empty(),
                already_saved: false,
                page: Page::Todos,
                filter: FilterMode::All,
            }),
    {
        NoteBox {
            text: String::new(),
            todos: TodoList::new(),
            save_path: String::new(),
            already_saved: false,
            page: Page::Todos,
            filter: FilterMode::All,
        }
    }

    /// Handles one user action on the todo page.
    pub fn update(&mut self, message: Signal) -> (r: Result<Command, StoreError>)
        ensures
            handles(old(self)@, message, final(self)@, r),
    {
        match message {
            Signal::TextInputChanged(s) => {
                self.text = s;
                Ok(Command::Nothing)
            },
            Signal::Submit => {
                let mut s = String::new();
                std::mem::swap(&mut self.text, &mut s);
                self.todos.append(s);
                Ok(Command::Nothing)
            },
            Signal::Delete(i) => nothing_left(self.todos.remove(i)),
            Signal::Edit(i) => nothing_left(self.todos.toggle_editing(i)),
            Signal::Check(i) => nothing_left(self.todos.toggle_checked(i)),
            Signal::TodoTextInputChanged(s, i) => nothing_left(self.todos.set_text(i, s)),
            Signal::Save => Ok(Command::PickSavePath),
            Signal::Load => Ok(Command::PickLoadPath),
            Signal::OnModeAll => {
                self.filter = FilterMode::All;
                Ok(Command::Nothing)
            },
            Signal::OnModeChecked => {
                self.filter = FilterMode::OnlyChecked;
                Ok(Command::Nothing)
            },
            Signal::OnModeUnchecked => {
                self.filter = FilterMode::OnlyUnchecked;
                Ok(Command::Nothing)
            },
            Signal::DeleteFinished => {
                self.todos.remove_checked();
                Ok(Command::Nothing)
            },
        }
    }

    /// Handles one user action when the todo page is showing; on any other
    /// page the action is ignored.
    pub fn update_controller(&mut self, message: Signal) -> (r: Result<Command, StoreError>)
        ensures
            old(self)@.page == Page::Todos ==> handles(old(self)@, message, final(self)@, r),
            old(self)@.page != Page::Todos ==> final(self)@ == old(self)@ && r == Ok::<
                Command,
                StoreError,
            >(Command::Nothing),
    {
        match self.page {
            Page::Todos => self.update(message),
            _ => Ok(Command::Nothing),
        }
    }

    /// Records the outcome of writing the items to `path`: on success the
    /// session belongs to `path`; on failure nothing changes and the error is
    /// handed back.
    pub fn finish_save(&mut self, path: String, outcome: Result<(), StoreError>) -> (r: Result<
        (),
        StoreError,
    >)
        ensures
            r == outcome,
            outcome is Ok ==> final(self)@ == (NoteBoxView {
                save_path: path@,
                already_saved: true,
                ..old(self)@
            }),
            outcome is Err ==> final(self)@ == old(self)@,
    {
        if outcome.is_ok() {
            self.save_path = path;
            self.already_saved = true;
        }
        outcome
    }

    /// Records the outcome of reading items from `path`: on success they
    /// replace the items as a whole and the session belongs to `path`; on
    /// failure nothing changes and the error is handed back.
    pub fn finish_load(&mut self, path: String, outcome: Result<Vec<Todo>, StoreError>) -> (r:
        Result<(), StoreError>)
        ensures
            outcome is Ok ==> r is Ok && final(self)@ == (NoteBoxView {
                todos: outcome->Ok_0@,
                save_path: path@,
                already_saved: true,
                ..old(self)@
            }),
            outcome is Err ==> r == Err::<(), StoreError>(outcome->Err_0) && final(self)@ == old(
                self,
            )@,
    {
        match outcome {
            Ok(items) => {
                self.todos = TodoList::from_vec(items);
                self.save_path = path;
                self.already_saved = true;
                Ok(())
            },
            Err(e) => Err(e),
        }
    }

    /// The entries shown under the active filter, each with its position
    /// among all the items.
    pub fn visible(&self) -> (r: Vec<(usize, &Todo)>)
        ensures
            lists_pairs(r@, visible_in(self@.todos, self@.filter)),
    {
        self.todos.visible(self.filter)
    }

    /// The text of the entry field.
    pub fn text(&self) -> (r: &String)
        ensures
            r@ == self@.text,
    {
        &self.text
    }

    /// The items.
    pub fn todos(&self) -> (r: &TodoList)
        ensures
            r@ == self@.todos,
    {
        &self.todos
    }

    /// The file the session was last saved to or loaded from.
    pub fn save_path(&self) -> (r: &String)
        ensures
            r@ == self@.save_path,
    {
        &self.save_path
    }

    /// Whether the session has been saved to or loaded from a file.
    pub fn already_saved(&self) -> (r: bool)
        ensures
            r == self@.already_saved,
    {
        self.already_saved
    }

    /// The page that is showing.
    pub fn page(&self) -> (r: Page)
        ensures
            r == self@.page,
    {
        self.page
    }

    /// The active filter.
    pub fn filter(&self) -> (r: FilterMode)
        ensures
            r == self@.filter,
    {
        self.filter
    }
}

} // verus!
