//! Tests of replaying update operations against a cached rendering.

use serde_json::Value;
use xi_client::replay::{replay, DisplayLine};
use xi_client::update::{Update, UpdateOp};

fn line(s: &str) -> DisplayLine {
    DisplayLine::Valid(Value::String(s.to_string()))
}

fn cache_abc() -> Vec<DisplayLine> {
    vec![line("A"), line("B"), line("C")]
}

#[test]
fn edit_in_middle_line_keeps_neighbours() {
    // One character changed in the middle line of three: the front-end
    // re-requests only that line while the neighbours stay as they are.
    let update = Update::new(
        vec![UpdateOp::skip(1), UpdateOp::invalidate(1), UpdateOp::skip(1)],
        false,
        vec![],
    );
    let out = replay(&update, &cache_abc()).expect("replay failed");
    assert_eq!(out, vec![line("A"), DisplayLine::Invalid, line("C")]);
}

#[test]
fn scroll_down_reuses_cached_lines() {
    // Scrolling down by one with no content change: the former top line
    // drops out, cached lines 1 and 2 move up, and the newly exposed
    // bottom line is not yet known.
    let update = Update::new(
        vec![UpdateOp::copy(2, 1), UpdateOp::invalidate(1)],
        true,
        vec![],
    );
    let out = replay(&update, &cache_abc()).expect("replay failed");
    assert_eq!(out, vec![line("B"), line("C"), DisplayLine::Invalid]);
}

#[test]
fn copy_of_zero_lines_is_a_no_op() {
    let update = Update::new(
        vec![UpdateOp::skip(1), UpdateOp::copy(0, 3), UpdateOp::skip(2)],
        true,
        vec![],
    );
    let out = replay(&update, &cache_abc()).expect("replay failed");
    assert_eq!(out, cache_abc());
}

#[test]
fn copy_of_zero_lines_on_empty_cache() {
    let update = Update::new(vec![UpdateOp::copy(0, 0)], true, vec![]);
    let out = replay(&update, &Vec::new()).expect("replay failed");
    assert_eq!(out, Vec::new());
}

#[test]
fn inserted_lines_appear_in_order() {
    let x = Value::String("x".to_string());
    let y = Value::String("y".to_string());
    let update = Update::new(
        vec![UpdateOp::insert(vec![x.clone(), y.clone()]), UpdateOp::skip(1)],
        false,
        vec![],
    );
    let out = replay(&update, &vec![line("A")]).expect("replay failed");
    assert_eq!(
        out,
        vec![DisplayLine::Valid(x), DisplayLine::Valid(y), line("A")]
    );
}

#[test]
fn output_length_is_walked_plus_inserted() {
    // Sum of n over Skip/Copy/Invalidate (1 + 2 + 1) plus inserted lines
    // (3) gives the number of displayed lines.
    let v = |s: &str| Value::String(s.to_string());
    let update = Update::new(
        vec![
            UpdateOp::skip(1),
            UpdateOp::invalidate(2),
            UpdateOp::insert(vec![v("x"), v("y"), v("z")]),
            UpdateOp::copy(1, 0),
        ],
        false,
        vec![],
    );
    let out = replay(&update, &cache_abc()).expect("replay failed");
    assert_eq!(out.len(), 7);
}

#[test]
fn skip_past_cache_end_fails() {
    let update = Update::new(vec![UpdateOp::skip(4)], true, vec![]);
    assert_eq!(replay(&update, &cache_abc()), None);
}

#[test]
fn copy_past_cache_end_fails() {
    let update = Update::new(vec![UpdateOp::copy(2, 2)], true, vec![]);
    assert_eq!(replay(&update, &cache_abc()), None);
}

#[test]
fn empty_update_yields_empty_rendering() {
    let update = Update::new(vec![], true, vec![]);
    let out = replay(&update, &cache_abc()).expect("replay failed");
    assert_eq!(out, Vec::new());
}
