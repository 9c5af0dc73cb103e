use myrica::backend::history::{History, HistoryAction};

fn push(history: &mut History, url: &str) {
    history.commit(HistoryAction::Push, String::from(url));
}

#[test]
fn pages_are_pushed_and_traversed() {
    let mut history = History::new();
    assert!(!history.can_go_back());
    assert!(!history.can_go_forward());
    push(&mut history, "a");
    push(&mut history, "b");
    push(&mut history, "c");
    assert_eq!(history.previous_page(), Some((1, &String::from("b"))));
    assert_eq!(history.next_page(), None);
    history.commit(HistoryAction::Traverse(1), String::from("b2"));
    assert_eq!(history.entries, ["a", "b2", "c"]);
    assert_eq!(history.index, Some(1));
    assert_eq!(history.next_page(), Some((2, &String::from("c"))));
    assert!(history.can_go_back());
    assert!(history.can_go_forward());
}

#[test]
fn a_new_page_forgets_what_was_ahead() {
    let mut history = History::new();
    push(&mut history, "a");
    push(&mut history, "b");
    history.commit(HistoryAction::Traverse(0), String::from("a"));
    push(&mut history, "c");
    assert_eq!(history.entries, ["a", "c"]);
    assert_eq!(history.index, Some(1));
}

#[test]
fn reloading_stays_in_place() {
    let mut history = History::new();
    history.commit(HistoryAction::Reload, String::from("a"));
    assert_eq!(history.entries, ["a"]);
    assert_eq!(history.index, Some(0));
    push(&mut history, "b");
    history.commit(HistoryAction::Reload, String::from("b2"));
    assert_eq!(history.entries, ["a", "b2"]);
    assert_eq!(history.index, Some(1));
}

#[test]
fn a_place_beyond_the_end_is_ignored() {
    let mut history = History::new();
    push(&mut history, "a");
    history.commit(HistoryAction::Traverse(9), String::from("z"));
    assert_eq!(history.entries, ["a"]);
    assert_eq!(history.index, Some(0));
}
