use notebox::store::{FilterMode, TodoList};
use notebox::todo::{StoreError, Todo};

fn item(text: &str, checked: bool) -> Todo {
    let mut t = Todo::new(text.to_string());
    t.checked = checked;
    t
}

fn list(items: &[(&str, bool)]) -> TodoList {
    TodoList::from_vec(items.iter().map(|(s, c)| item(s, *c)).collect())
}

fn texts(l: &TodoList) -> Vec<String> {
    l.items().iter().map(|t| t.text.clone()).collect()
}

#[test]
fn new_todo_is_fresh() {
    let t = Todo::new("milk".to_string());
    assert_eq!(t.text, "milk");
    assert!(!t.checked);
    assert!(!t.editing);
    assert!(t.children.is_empty());
}

#[test]
fn append_adds_fresh_item_at_end() {
    let mut l = list(&[("a", true)]);
    l.append("b".to_string());
    assert_eq!(l.len(), 2);
    let last = l.get(1).unwrap();
    assert_eq!(last.text, "b");
    assert!(!last.checked);
    assert!(!last.editing);
    assert!(last.children.is_empty());
    assert_eq!(texts(&l), vec!["a", "b"]);
}

#[test]
fn append_to_empty_store() {
    let mut l = TodoList::new();
    assert_eq!(l.len(), 0);
    l.append(String::new());
    assert_eq!(l.len(), 1);
    assert_eq!(l.get(0).unwrap().text, "");
}

#[test]
fn get_past_end_is_none() {
    let l = list(&[("a", false)]);
    assert!(l.get(1).is_none());
    assert!(l.get(usize::MAX).is_none());
}

#[test]
fn remove_bounds() {
    let mut l = list(&[("a", false), ("b", false), ("c", false)]);
    assert_eq!(l.remove(3), Err(StoreError::OutOfRange));
    assert_eq!(l.remove(4), Err(StoreError::OutOfRange));
    assert_eq!(texts(&l), vec!["a", "b", "c"]);
    assert_eq!(l.remove(2), Ok(()));
    assert_eq!(texts(&l), vec!["a", "b"]);
}

#[test]
fn remove_shifts_later_items_down() {
    let mut l = list(&[("a", false), ("b", false), ("c", false)]);
    assert_eq!(l.remove(0), Ok(()));
    assert_eq!(texts(&l), vec!["b", "c"]);
    assert_eq!(l.get(0).unwrap().text, "b");
}

#[test]
fn remove_on_empty_store_is_out_of_range() {
    let mut l = TodoList::new();
    assert_eq!(l.remove(0), Err(StoreError::OutOfRange));
    assert_eq!(l.len(), 0);
}

#[test]
fn toggle_editing_bounds() {
    let mut l = list(&[("a", false), ("b", false)]);
    assert_eq!(l.toggle_editing(2), Err(StoreError::OutOfRange));
    assert_eq!(l.toggle_editing(7), Err(StoreError::OutOfRange));
    assert!(!l.get(1).unwrap().editing);
    assert_eq!(l.toggle_editing(1), Ok(()));
    assert!(l.get(1).unwrap().editing);
    assert!(!l.get(0).unwrap().editing);
    assert_eq!(l.toggle_editing(1), Ok(()));
    assert!(!l.get(1).unwrap().editing);
}

#[test]
fn toggle_checked_bounds() {
    let mut l = list(&[("a", false), ("b", true)]);
    assert_eq!(l.toggle_checked(2), Err(StoreError::OutOfRange));
    assert_eq!(l.toggle_checked(3), Err(StoreError::OutOfRange));
    assert!(l.get(1).unwrap().checked);
    assert_eq!(l.toggle_checked(1), Ok(()));
    assert!(!l.get(1).unwrap().checked);
    assert!(!l.get(0).unwrap().checked);
    assert_eq!(l.get(1).unwrap().text, "b");
}

#[test]
fn set_text_bounds() {
    let mut l = list(&[("a", true), ("b", false)]);
    assert_eq!(l.set_text(2, "x".to_string()), Err(StoreError::OutOfRange));
    assert_eq!(l.set_text(9, "x".to_string()), Err(StoreError::OutOfRange));
    assert_eq!(texts(&l), vec!["a", "b"]);
    assert_eq!(l.set_text(1, "x".to_string()), Ok(()));
    assert_eq!(texts(&l), vec!["a", "x"]);
    assert!(!l.get(1).unwrap().checked);
    assert!(l.get(0).unwrap().checked);
}

#[test]
fn remove_checked_keeps_unchecked_in_order() {
    let mut l = list(&[("A", true), ("B", false), ("C", true), ("D", false)]);
    l.remove_checked();
    assert_eq!(texts(&l), vec!["B", "D"]);
}

#[test]
fn remove_checked_adjacent_checked_items() {
    let mut l = list(&[("A", true), ("B", true), ("C", true), ("D", false), ("E", true)]);
    l.remove_checked();
    assert_eq!(texts(&l), vec!["D"]);
}

#[test]
fn remove_checked_on_empty_and_all_unchecked() {
    let mut l = TodoList::new();
    l.remove_checked();
    assert_eq!(l.len(), 0);
    let mut m = list(&[("x", false), ("y", false)]);
    m.remove_checked();
    assert_eq!(texts(&m), vec!["x", "y"]);
}

#[test]
fn visible_only_checked() {
    let l = list(&[("A", true), ("B", false), ("C", true)]);
    let v = l.visible(FilterMode::OnlyChecked);
    let got: Vec<(usize, String)> = v.iter().map(|(i, t)| (*i, t.text.clone())).collect();
    assert_eq!(got, vec![(0, "A".to_string()), (2, "C".to_string())]);
}

#[test]
fn visible_only_unchecked() {
    let l = list(&[("A", true), ("B", false), ("C", true)]);
    let v = l.visible(FilterMode::OnlyUnchecked);
    let got: Vec<(usize, String)> = v.iter().map(|(i, t)| (*i, t.text.clone())).collect();
    assert_eq!(got, vec![(1, "B".to_string())]);
}

#[test]
fn visible_all() {
    let l = list(&[("A", true), ("B", false), ("C", true)]);
    let v = l.visible(FilterMode::All);
    let got: Vec<(usize, String, bool)> =
        v.iter().map(|(i, t)| (*i, t.text.clone(), t.checked)).collect();
    assert_eq!(
        got,
        vec![
            (0, "A".to_string(), true),
            (1, "B".to_string(), false),
            (2, "C".to_string(), true)
        ]
    );
}

#[test]
fn visible_on_empty_store() {
    let l = TodoList::new();
    assert!(l.visible(FilterMode::All).is_empty());
}

#[test]
fn nested_children_are_kept() {
    let mut parent = item("parent", false);
    parent.children.push(item("child", true));
    let mut l = TodoList::from_vec(vec![parent]);
    assert_eq!(l.toggle_checked(0), Ok(()));
    let p = l.get(0).unwrap();
    assert!(p.checked);
    assert_eq!(p.children.len(), 1);
    assert_eq!(p.children[0].text, "child");
    assert!(p.children[0].checked);
}
