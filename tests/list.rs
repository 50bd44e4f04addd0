use arriva::event::Key;
use arriva::stateful_list::StatefulList;

fn three() -> StatefulList<u32> {
    StatefulList::with_items(vec![10, 20, 30])
}

#[test]
fn new_list_has_no_cursor() {
    let list = three();
    assert_eq!(list.selected(), None);
    assert_eq!(list.items(), &vec![10, 20, 30]);
}

#[test]
fn next_from_unset_selects_first() {
    let mut list = three();
    list.next();
    assert_eq!(list.selected(), Some(0));
}

#[test]
fn previous_from_unset_selects_first() {
    let mut list = three();
    list.previous();
    assert_eq!(list.selected(), Some(0));
}

#[test]
fn next_wraps_from_last_to_first() {
    let mut list = three();
    list.next();
    list.next();
    list.next();
    assert_eq!(list.selected(), Some(2));
    list.next();
    assert_eq!(list.selected(), Some(0));
}

#[test]
fn previous_wraps_from_first_to_last() {
    let mut list = three();
    list.next();
    list.previous();
    assert_eq!(list.selected(), Some(2));
    list.previous();
    assert_eq!(list.selected(), Some(1));
}

#[test]
fn next_n_times_returns_to_start() {
    let mut list = three();
    list.next();
    list.next();
    assert_eq!(list.selected(), Some(1));
    for _ in 0..3 {
        list.next();
    }
    assert_eq!(list.selected(), Some(1));
}

#[test]
fn previous_n_times_returns_to_start() {
    let mut list = three();
    list.next();
    list.next();
    for _ in 0..3 {
        list.previous();
    }
    assert_eq!(list.selected(), Some(1));
}

#[test]
fn single_item_list_stays_on_it() {
    let mut list = StatefulList::with_items(vec!['x']);
    list.next();
    list.next();
    assert_eq!(list.selected(), Some(0));
    list.previous();
    assert_eq!(list.selected(), Some(0));
}

#[test]
fn empty_list_never_gets_a_cursor() {
    let mut list: StatefulList<u32> = StatefulList::with_items(Vec::new());
    list.next();
    assert_eq!(list.selected(), None);
    list.previous();
    assert_eq!(list.selected(), None);
    assert_eq!(list.commit(), None);
}

#[test]
fn default_list_is_empty() {
    let list: StatefulList<u32> = StatefulList::default();
    assert!(list.items().is_empty());
    assert_eq!(list.selected(), None);
}

#[test]
fn commit_without_cursor_is_none() {
    let list = three();
    assert_eq!(list.commit(), None);
    assert_eq!(list.current(), None);
}

#[test]
fn commit_returns_item_under_cursor() {
    let mut list = three();
    list.next();
    list.next();
    assert_eq!(list.commit(), Some(20));
    assert_eq!(list.current(), Some(&20));
    assert_eq!(list.selected(), Some(1));
}

#[test]
fn handle_events_moves_and_commits() {
    let mut list = three();
    assert_eq!(list.handle_events(Key::Enter), None);
    assert_eq!(list.handle_events(Key::Down), None);
    assert_eq!(list.handle_events(Key::Down), None);
    assert_eq!(list.handle_events(Key::Up), None);
    assert_eq!(list.handle_events(Key::Other), None);
    assert_eq!(list.selected(), Some(0));
    assert_eq!(list.handle_events(Key::Enter), Some(10));
    assert_eq!(list.handle_events(Key::Quit), None);
    assert_eq!(list.selected(), Some(0));
}
