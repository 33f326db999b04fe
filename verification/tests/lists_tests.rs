use omagari::lists::{list_item_command, list_item_controls, ExprControl, ListCommand};

#[test]
fn remove_takes_the_item_out() {
    let mut v = vec![10, 20, 30];
    ListCommand::Remove(1).apply(&mut v);
    assert_eq!(v, vec![10, 30]);
}

#[test]
fn remove_first_and_last() {
    let mut v = vec!["a".to_string(), "b".to_string(), "c".to_string()];
    ListCommand::Remove(0).apply(&mut v);
    assert_eq!(v, vec!["b".to_string(), "c".to_string()]);
    ListCommand::Remove(1).apply(&mut v);
    assert_eq!(v, vec!["b".to_string()]);
}

#[test]
fn swap_exchanges_two_items() {
    let mut v = vec![1, 2, 3, 4];
    ListCommand::Swap((0, 3)).apply(&mut v);
    assert_eq!(v, vec![4, 2, 3, 1]);
    ListCommand::Swap((2, 1)).apply(&mut v);
    assert_eq!(v, vec![4, 3, 2, 1]);
}

#[test]
fn swap_with_itself_changes_nothing() {
    let mut v = vec![1, 2, 3];
    ListCommand::Swap((1, 1)).apply(&mut v);
    assert_eq!(v, vec![1, 2, 3]);
}

#[test]
fn swap_twice_restores() {
    let mut v = vec![5, 6, 7, 8];
    ListCommand::Swap((1, 3)).apply(&mut v);
    ListCommand::Swap((1, 3)).apply(&mut v);
    assert_eq!(v, vec![5, 6, 7, 8]);
}

#[test]
fn controls_of_first_middle_last() {
    let first = list_item_controls(0, 3);
    assert!(!first.up_enabled && first.down_enabled);
    let middle = list_item_controls(1, 3);
    assert!(middle.up_enabled && middle.down_enabled);
    let last = list_item_controls(2, 3);
    assert!(last.up_enabled && !last.down_enabled);
    let only = list_item_controls(0, 1);
    assert!(!only.up_enabled && !only.down_enabled);
}

#[test]
fn remove_button_wins() {
    assert_eq!(list_item_command(2, 4, true, true, true), Some(ListCommand::Remove(2)));
}

#[test]
fn up_and_down_buttons() {
    assert_eq!(list_item_command(2, 4, false, true, false), Some(ListCommand::Swap((2, 1))));
    assert_eq!(list_item_command(2, 4, false, false, true), Some(ListCommand::Swap((2, 3))));
    assert_eq!(list_item_command(2, 4, false, true, true), Some(ListCommand::Swap((2, 1))));
    assert_eq!(list_item_command(2, 4, false, false, false), None);
}

#[test]
fn disabled_buttons_do_nothing() {
    assert_eq!(list_item_command(0, 4, false, true, false), None);
    assert_eq!(list_item_command(3, 4, false, false, true), None);
    assert_eq!(list_item_command(0, 4, false, true, true), Some(ListCommand::Swap((0, 1))));
}

#[test]
fn up_then_down_restores() {
    let mut v = vec!['a', 'b', 'c'];
    let up = list_item_command(2, 3, false, true, false).unwrap();
    up.apply(&mut v);
    assert_eq!(v, vec!['a', 'c', 'b']);
    let down = list_item_command(1, 3, false, false, true).unwrap();
    down.apply(&mut v);
    assert_eq!(v, vec!['a', 'b', 'c']);
}

#[test]
fn expr_controls_are_distinct() {
    assert_ne!(ExprControl::Noop, ExprControl::Delete);
    assert_ne!(ExprControl::Delete, ExprControl::Copy);
}
