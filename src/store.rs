use vstd::prelude::*;
use crate::todo::{is_fresh, StoreError, Todo};

verus! {

/// Which entries a view shows.
#[derive(Clone, Copy, Debug, PartialEq, Eq, Structural)]
pub enum FilterMode {
    All,
    OnlyChecked,
    OnlyUnchecked,
}

/// Whether an entry is shown under `mode`.
pub open spec fn shows(mode: FilterMode, t: Todo) -> bool {
    match mode {
        FilterMode::All => true,
        FilterMode::OnlyChecked => t.checked,
        FilterMode::OnlyUnchecked => !t.checked,
    }
}

/// Each entry of `s` paired with its position, in order.
pub open spec fn positioned(s: Seq<Todo>) -> Seq<(int, Todo)> {
    Seq::new(s.len(), |i: int| (i, s[i]))
}

/// Whether a positioned entry is shown under `mode`.
pub open spec fn shows_pair(mode: FilterMode) -> spec_fn((int, Todo)) -> bool {
    |p: (int, Todo)| shows(mode, p.1)
}

/// The entries of `s` shown under `mode`, each with its position in `s`.
pub open spec fn visible_in(s: Seq<Todo>, mode: FilterMode) -> Seq<(int, Todo)> {
    positioned(s).filter(shows_pair(mode))
}

/// `r` lists the same positions and entries as `v`, in the same order.
pub open spec fn lists_pairs(r: Seq<(usize, &Todo)>, v: Seq<(int, Todo)>) -> bool {
    &&& r.len() == v.len()
    &&& forall|k: int| 0 <= k < r.len() ==> r[k].0 == v[k].0 && *r[k].1 == v[k].1
}

/// The entries of `s` that are not checked, in their order.
pub open spec fn unchecked_in(s: Seq<Todo>) -> Seq<Todo> {
    s.filter(|t: Todo| !t.checked)
}

/// `t` with its `checked` flag flipped.
pub open spec fn flip_checked(t: Todo) -> Todo {
    Todo { checked: !t.checked, ..t }
}

/// `t` with its `editing` flag flipped.
pub open spec fn flip_editing(t: Todo) -> Todo {
    Todo { editing: !t.editing, ..t }
}

/// `t` with its text replaced by `text`.
pub open spec fn with_text(t: Todo, text: String) -> Todo {
    Todo { text, ..t }
}

/// Removing the checked entries keeps every unchecked entry, keeps nothing
/// else, and never makes the store longer.
pub proof fn unchecked_in_keeps_exactly_unchecked(s: Seq<Todo>)
    ensures
        forall|i: int| 0 <= i < unchecked_in(s).len() ==> !(#[trigger] unchecked_in(s)[i]).checked,
        forall|i: int| 0 <= i < s.len() && !(#[trigger] s[i]).checked ==> unchecked_in(s).contains(s[i]),
        forall|t: Todo| #[trigger] unchecked_in(s).contains(t) ==> s.contains(t),
        unchecked_in(s).len() <= s.len(),
{
    broadcast use vstd::seq_lib::group_filter_ensures;
    let pred = |t: Todo| !t.checked;
    assert forall|i: int| 0 <= i < s.len() && !(#[trigger] s[i]).checked implies unchecked_in(s).contains(s[i]) by {
        s.lemma_filter_contains(pred, i);
    }
    assert forall|t: Todo| #[trigger] unchecked_in(s).contains(t) implies s.contains(t) by {
        s.lemma_filter_contains_rev(pred, t);
    }
}

/// Under the filter that shows everything, every entry is listed once, in
/// order, with its own position.
pub proof fn visible_all_lists_every_entry(s: Seq<Todo>)
    ensures
        visible_in(s, FilterMode::All) == positioned(s),
{
    filter_all_is_identity(positioned(s));
}

proof fn filter_all_is_identity(q: Seq<(int, Todo)>)
    ensures
        q.filter(shows_pair(FilterMode::All)) == q,
    decreases q.len(),
{
    reveal(Seq::filter);
    if q.len() > 0 {
        filter_all_is_identity(q.drop_last());
        assert(q.drop_last().push(q.last()) =~= q);
    }
}

/// An ordered store of entries, addressed by zero-based position.
pub struct TodoList {
    items: Vec<Todo>,
}

impl View for TodoList {
    type V = Seq<Todo>;

    closed spec fn view(&self) -> Seq<Todo> {
        self.items@
    }
}

impl TodoList {
    /// An empty store.
    pub fn new() -> (r: TodoList)
        ensures
            r@ == Seq::<Todo>::empty(),
    {
        TodoList { items: Vec::new() }
    }

    /// A store holding `items` in their order.
    pub fn from_vec(items: Vec<Todo>) -> (r: TodoList)
        ensures
            r@ == items@,
    {
        TodoList { items }
    }

    /// The entries, in order.
    pub fn items(&self) -> (r: &Vec<Todo>)
        ensures
            r@ == self@,
    {
        &self.items
    }

    /// The number of entries.
    pub fn len(&self) -> (r: usize)
        ensures
            r == self@.len(),
    {
        self.items.len()
    }

    /// The entry at `position`, if there is one.
    pub fn get(&self, position: usize) -> (r: Option<&Todo>)
        ensures
            position < self@.len() ==> r == Some(&self@[position as int]),
            position >= self@.len() ==> r.is_none(),
    {
        if position < self.items.len() {
            Some(&self.items[position])
        } else {
            None
        }
    }

    /// Adds a fresh entry holding `text` at the end.
    pub fn append(&mut self, text: String)
        ensures
            final(self)@.len() == old(self)@.len() + 1,
            final(self)@.drop_last() == old(self)@,
            is_fresh(final(self)@.last(), text@),
    {
        let t = Todo::new(text);
        self.items.push(t);
        assert(self@.drop_last() =~= old(self)@);
    }

    /// Deletes the entry at `position`; later entries move down by one.
    pub fn remove(&mut self, position: usize) -> (r: Result<(), StoreError>)
        ensures
            position < old(self)@.len() ==> r is Ok && final(self)@ == old(self)@.remove(
                position as int,
            ),
            position >= old(self)@.len() ==> r == Err::<(), StoreError>(StoreError::OutOfRange)
                && final(self)@ == old(self)@,
    {
        if position >= self.items.len() {
            return Err(StoreError::OutOfRange);
        }
        self.items.remove(position);
        Ok(())
    }

    /// Flips the `editing` flag of the entry at `position`.
    pub fn toggle_editing(&mut self, position: usize) -> (r: Result<(), StoreError>)
        ensures
            position < old(self)@.len() ==> r is Ok && final(self)@ == old(self)@.update(
                position as int,
                flip_editing(old(self)@[position as int]),
            ),
            position >= old(self)@.len() ==> r == Err::<(), StoreError>(StoreError::OutOfRange)
                && final(self)@ == old(self)@,
    {
        if position >= self.items.len() {
            return Err(StoreError::OutOfRange);
        }
        let flag = self.items[position].editing;
        self.items[position].editing = !flag;
        Ok(())
    }

    /// Flips the `checked` flag of the entry at `position`.
    pub fn toggle_checked(&mut self, position: usize) -> (r: Result<(), StoreError>)
        ensures
            position < old(self)@.len() ==> r is Ok && final(self)@ == old(self)@.update(
                position as int,
                flip_checked(old(self)@[position as int]),
            ),
            position >= old(self)@.len() ==> r == Err::<(), StoreError>(StoreError::OutOfRange)
                && final(self)@ == old(self)@,
    {
        if position >= self.items.len() {
            return Err(StoreError::OutOfRange);
        }
        let flag = self.items[position].checked;
        self.items[position].checked = !flag;
        Ok(())
    }

    /// Replaces the text of the entry at `position` with `text`.
    pub fn set_text(&mut self, position: usize, text: String) -> (r: Result<(), StoreError>)
        ensures
            position < old(self)@.len() ==> r is Ok && final(self)@ == old(self)@.update(
                position as int,
                with_text(old(self)@[position as int], text),
            ),
            position >= old(self)@.len() ==> r == Err::<(), StoreError>(StoreError::OutOfRange)
                && final(self)@ == old(self)@,
    {
        if position >= self.items.len() {
            return Err(StoreError::OutOfRange);
        }
        self.items[position].text = text;
        Ok(())
    }

    /// Deletes every checked entry in one pass; the others keep their order.
    pub fn remove_checked(&mut self)
        ensures
            final(self)@ == unchecked_in(old(self)@),
    {
        let mut rest: Vec<Todo> = Vec::new();
        std::mem::swap(&mut self.items, &mut rest);
        let ghost all = rest@;
        assert(all.subrange(0, 0) =~= Seq::<Todo>::empty());
        assert(all.subrange(0, all.len() as int) =~= all);
        while rest.len() > 0
            invariant
                rest@.len() <= all.len(),
                rest@ == all.subrange(all.len() - rest@.len(), all.len() as int),
                self.items@ == unchecked_in(all.subrange(0, all.len() - rest@.len())),
            decreases rest@.len(),
        {
            let ghost k = all.len() - rest@.len();
            let t = rest.remove(0);
            proof {
                assert(all.subrange(0, k + 1) =~= all.subrange(0, k).push(t));
                all.subrange(0, k).lemma_filter_push(t, |t: Todo| !t.checked);
                assert(rest@ =~= all.subrange(k + 1, all.len() as int));
            }
            if !t.checked {
                self.items.push(t);
            }
        }
    }

    /// The entries shown under `mode`, each with its position in this store,
    /// in store order.
    pub fn visible(&self, mode: FilterMode) -> (r: Vec<(usize, &Todo)>)
        ensures
            lists_pairs(r@, visible_in(self@, mode)),
    {
        let ghost s = self@;
        let mut r: Vec<(usize, &Todo)> = Vec::new();
        let n: usize = self.items.len();
        let mut i: usize = 0;
        assert(positioned(s).subrange(0, 0) =~= Seq::<(int, Todo)>::empty());
        while i < n
            invariant
                s == self@,
                n == s.len(),
                i <= n,
                lists_pairs(r@, positioned(s).subrange(0, i as int).filter(shows_pair(mode))),
            decreases n - i,
        {
            let t = &self.items[i];
            proof {
                assert(positioned(s).subrange(0, i + 1) =~= positioned(s).subrange(0, i as int).push(
                    (i as int, *t),
                ));
                positioned(s).subrange(0, i as int).lemma_filter_push((i as int, *t), shows_pair(mode));
            }
            let shown = match mode {
                FilterMode::All => true,
                FilterMode::OnlyChecked => t.checked,
                FilterMode::OnlyUnchecked => !t.checked,
            };
            let ghost before = r@;
            assert(shows_pair(mode)((i as int, *t)) == shows(mode, *t));
            if shown {
                r.push((i, t));
                assert(r@ =~= before.push((i, t)));
            }
            i = i + 1;
        }
        assert(positioned(s).subrange(0, n as int) =~= positioned(s));
        r
    }
}

} // verus!
