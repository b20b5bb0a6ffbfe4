//! Buffer mutation primitives: insertion, deletion, splitting, joining and
//! swapping, including the boundary cases.

use pico_term::buffer::{
    delete_before, insert_char, insert_tab, split_line_at, swap_with_next, swap_with_previous,
    EditorError,
};

fn line(s: &str) -> Vec<char> {
    s.chars().collect()
}

fn doc(lines: &[&str]) -> Vec<Vec<char>> {
    lines.iter().map(|s| line(s)).collect()
}

fn texts(lines: &Vec<Vec<char>>) -> Vec<String> {
    lines.iter().map(|l| l.iter().collect()).collect()
}

#[test]
fn insert_char_at_end_of_line() {
    // buffer ["abc"], cursor {line:0, col:3}, insert 'd'
    let mut lines = doc(&["abc"]);
    let r = insert_char(&mut lines, 0, 3, 'd');
    assert!(r.is_ok());
    assert_eq!(texts(&lines), vec!["abcd".to_string()]);
}

#[test]
fn insert_char_in_middle() {
    let mut lines = doc(&["ac"]);
    let r = insert_char(&mut lines, 0, 1, 'b');
    assert!(r.is_ok());
    assert_eq!(texts(&lines), vec!["abc".to_string()]);
}

#[test]
fn insert_char_beyond_line_is_refused() {
    let mut lines = doc(&["ab"]);
    let r = insert_char(&mut lines, 0, 3, 'x');
    assert_eq!(r, Err(EditorError::IndexOutOfRange));
    assert_eq!(texts(&lines), vec!["ab".to_string()]);
}

#[test]
fn delete_before_joins_lines() {
    // buffer ["ab", "cd"], cursor {line:1, col:0} -> ["abcd"], cursor {0, 2}
    let mut lines = doc(&["ab", "cd"]);
    let mut cur_line = 1usize;
    let mut cur_char = 0usize;
    let changed = delete_before(&mut lines, &mut cur_line, &mut cur_char);
    assert!(changed);
    assert_eq!(texts(&lines), vec!["abcd".to_string()]);
    assert_eq!((cur_line, cur_char), (0, 2));
}

#[test]
fn delete_before_removes_one_character() {
    let mut lines = doc(&["abc"]);
    let mut cur_line = 0usize;
    let mut cur_char = 2usize;
    let changed = delete_before(&mut lines, &mut cur_line, &mut cur_char);
    assert!(changed);
    assert_eq!(texts(&lines), vec!["ac".to_string()]);
    assert_eq!((cur_line, cur_char), (0, 1));
}

#[test]
fn delete_before_at_document_start_is_noop() {
    let mut lines = doc(&["abc"]);
    let mut cur_line = 0usize;
    let mut cur_char = 0usize;
    let changed = delete_before(&mut lines, &mut cur_line, &mut cur_char);
    assert!(!changed);
    assert_eq!(texts(&lines), vec!["abc".to_string()]);
    assert_eq!((cur_line, cur_char), (0, 0));
}

#[test]
fn split_line_moves_tail_below() {
    let mut lines = doc(&["hello world"]);
    let mut cur_line = 0usize;
    let mut cur_char = 5usize;
    split_line_at(&mut lines, &mut cur_line, &mut cur_char);
    assert_eq!(texts(&lines), vec!["hello".to_string(), " world".to_string()]);
    assert_eq!((cur_line, cur_char), (1, 0));
}

#[test]
fn split_at_line_end_makes_empty_line() {
    let mut lines = doc(&["ab"]);
    let mut cur_line = 0usize;
    let mut cur_char = 2usize;
    split_line_at(&mut lines, &mut cur_line, &mut cur_char);
    assert_eq!(texts(&lines), vec!["ab".to_string(), "".to_string()]);
    assert_eq!((cur_line, cur_char), (1, 0));
}

#[test]
fn split_then_delete_restores_line() {
    // the round-trip law on a concrete document, for several split columns
    for col in 0..=5usize {
        let mut lines = doc(&["onetwo", "rest"]);
        let mut cur_line = 0usize;
        let mut cur_char = col;
        split_line_at(&mut lines, &mut cur_line, &mut cur_char);
        let changed = delete_before(&mut lines, &mut cur_line, &mut cur_char);
        assert!(changed);
        assert_eq!(texts(&lines), vec!["onetwo".to_string(), "rest".to_string()]);
        assert_eq!((cur_line, cur_char), (0, col));
    }
}

#[test]
fn swap_with_previous_exchanges_lines() {
    let mut lines = doc(&["one", "two", "three"]);
    let changed = swap_with_previous(&mut lines, 1);
    assert!(changed);
    assert_eq!(
        texts(&lines),
        vec!["two".to_string(), "one".to_string(), "three".to_string()]
    );
}

#[test]
fn swap_with_previous_at_top_is_noop() {
    let mut lines = doc(&["one", "two"]);
    let changed = swap_with_previous(&mut lines, 0);
    assert!(!changed);
    assert_eq!(texts(&lines), vec!["one".to_string(), "two".to_string()]);
}

#[test]
fn swap_with_next_exchanges_lines() {
    let mut lines = doc(&["one", "two"]);
    let changed = swap_with_next(&mut lines, 0);
    assert!(changed);
    assert_eq!(texts(&lines), vec!["two".to_string(), "one".to_string()]);
}

#[test]
fn swap_with_next_at_bottom_is_noop() {
    let mut lines = doc(&["one", "two"]);
    let changed = swap_with_next(&mut lines, 1);
    assert!(!changed);
    assert_eq!(texts(&lines), vec!["one".to_string(), "two".to_string()]);
}

#[test]
fn insert_tab_adds_four_spaces() {
    let mut lines = doc(&["ab"]);
    insert_tab(&mut lines, 0, 1);
    assert_eq!(texts(&lines), vec!["a    b".to_string()]);
}

#[test]
fn insert_tab_on_empty_line() {
    let mut lines = doc(&[""]);
    insert_tab(&mut lines, 0, 0);
    assert_eq!(texts(&lines), vec!["    ".to_string()]);
}
