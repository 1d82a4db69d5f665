use firered::lifecycle::{Completable, Entity, Reset};
use firered::strings::{copy_groups, copy_lines, decimal_string};
use firered::text::{MessagePage, TextDisplay};

fn page(line: &str, wait: Option<u32>) -> MessagePage {
    MessagePage::new(vec![line.to_string()], wait)
}

#[test]
fn decimal_numerals() {
    assert_eq!(decimal_string(0), "0");
    assert_eq!(decimal_string(7), "7");
    assert_eq!(decimal_string(9), "9");
    assert_eq!(decimal_string(10), "10");
    assert_eq!(decimal_string(500), "500");
    assert_eq!(decimal_string(1234567890), "1234567890");
    assert_eq!(decimal_string(65535), "65535");
    assert_eq!(decimal_string(u64::MAX), "18446744073709551615");
}

#[test]
fn strings_are_copied() {
    let lines = vec!["one".to_string(), "two".to_string()];
    assert_eq!(copy_lines(&lines), lines);
    let groups = vec![lines.clone(), Vec::new(), vec!["three".to_string()]];
    assert_eq!(copy_groups(&groups), groups);
    assert_eq!(copy_lines(&Vec::new()), Vec::<String>::new());
}

#[test]
fn a_new_dialogue_is_blank() {
    let text = TextDisplay::new();
    assert!(!text.alive());
    assert_eq!(text.len(), 0);
    assert_eq!(text.current(), 0);
    assert!(!text.finished());
    assert!(!text.can_continue());
    assert!(text.page_lines(0).is_none());
}

#[test]
fn a_page_without_wait_is_left_on_confirm() {
    let mut text = TextDisplay::new();
    text.push(page("first", None));
    text.push(page("second", None));
    text.spawn();
    assert!(text.alive());
    assert!(text.can_continue());
    text.update(5000, false);
    assert_eq!(text.current(), 0);
    assert!(!text.finished());
    text.update(0, true);
    assert_eq!(text.current(), 1);
    assert!(!text.finished());
    text.update(16, false);
    assert_eq!(text.current(), 1);
    text.update(16, true);
    assert_eq!(text.current(), 1);
    assert!(text.finished());
    assert!(!text.can_continue());
    text.update(16, true);
    assert_eq!(text.current(), 1);
    assert!(text.finished());
}

#[test]
fn a_page_with_wait_is_left_in_time() {
    let mut text = TextDisplay::new();
    text.push(page("first", Some(500)));
    text.push(page("second", Some(0)));
    text.push(page("third", Some(100)));
    text.spawn();
    text.update(200, true);
    assert_eq!(text.current(), 0);
    text.update(299, false);
    assert_eq!(text.current(), 0);
    text.update(1, false);
    assert_eq!(text.current(), 1);
    text.update(0, false);
    assert_eq!(text.current(), 2);
    text.update(99, false);
    assert!(!text.finished());
    text.update(u32::MAX, false);
    assert!(text.finished());
}

#[test]
fn the_clock_of_a_page_does_not_run_over() {
    let mut text = TextDisplay::new();
    text.push(page("only", Some(u32::MAX)));
    text.spawn();
    text.update(u32::MAX - 1, false);
    assert!(!text.finished());
    text.update(u32::MAX, false);
    assert!(text.finished());
}

#[test]
fn a_dialogue_off_screen_stands_still() {
    let mut text = TextDisplay::new();
    text.push(page("first", Some(10)));
    text.push(page("second", None));
    text.update(1000, true);
    assert_eq!(text.current(), 0);
    assert!(!text.finished());
    text.spawn();
    text.update(10, false);
    assert_eq!(text.current(), 1);
    text.despawn();
    assert!(!text.alive());
    assert_eq!(text.current(), 1);
    assert_eq!(text.len(), 2);
    text.update(10, true);
    assert!(!text.finished());
}

#[test]
fn an_empty_dialogue_is_over_at_once() {
    let mut text = TextDisplay::new();
    text.spawn();
    assert!(!text.finished());
    text.update(0, false);
    assert!(text.finished());
}

#[test]
fn reset_spawn_and_clear() {
    let mut text = TextDisplay::new();
    text.push(page("first", None));
    text.push(page("second", None));
    text.spawn();
    text.update(1, true);
    text.update(1, true);
    assert!(text.finished());
    text.reset();
    assert!(!text.finished());
    assert_eq!(text.current(), 0);
    assert!(text.alive());
    assert_eq!(text.len(), 2);
    text.update(1, true);
    text.spawn();
    assert_eq!(text.current(), 0);
    text.clear();
    assert_eq!(text.len(), 0);
    assert!(text.alive());
    assert!(text.page_lines(0).is_none());
}

#[test]
fn pages_keep_their_lines() {
    let mut text = TextDisplay::new();
    text.push(MessagePage::new(vec!["a".to_string(), "b".to_string()], Some(3)));
    text.push(MessagePage::new(Vec::new(), None));
    assert_eq!(text.page_lines(0).unwrap(), vec!["a".to_string(), "b".to_string()]);
    assert_eq!(text.page_lines(1).unwrap(), Vec::<String>::new());
    assert!(text.page_lines(2).is_none());
    let page = MessagePage::new(vec!["x".to_string()], Some(7));
    assert_eq!(page.lines, vec!["x".to_string()]);
    assert_eq!(page.wait, Some(7));
}
