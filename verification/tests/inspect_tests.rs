use guestlog::Channel;
use guestlog::inspect;
use guestlog::inspect2;
use guestlog::inspect3;
use guestlog::inspect_location;
use guestlog::render_fatal_line;
use guestlog::render_inspect_line;
use guestlog::render_location;

#[test]
fn inspection_preserves_the_value() {
    let mut channel = Channel::new();
    let x = inspect(&mut channel, true, "main.rs", 10, 5, "2 + 40", 2 + 40);
    assert_eq!(x, 42);
    let y = inspect(&mut channel, false, "main.rs", 11, 5, "2 + 40", 2 + 40);
    assert_eq!(y, 42);
    let s = inspect(&mut channel, true, "main.rs", 12, 5, "\"abc\"", "abc");
    assert_eq!(s, "abc");
}

#[test]
fn inspection_emits_the_exact_line() {
    let mut channel = Channel::new();
    let x = inspect(&mut channel, true, "main.rs", 10, 5, "2 + 40", 2 + 40);
    assert_eq!(x, 42);
    assert_eq!(channel.message_count(), 1);
    let line = String::from_utf8(channel.message_at(0).clone()).unwrap();
    assert_eq!(line, "[main.rs:10:5] 2 + 40 = 42");
}

#[test]
fn inspection_renders_values_with_debug_formatting() {
    let mut channel = Channel::new();
    inspect(&mut channel, true, "lib.rs", 7, 9, "name", "ada");
    let line = String::from_utf8(channel.message_at(0).clone()).unwrap();
    assert_eq!(line, format!("[lib.rs:7:9] name = {:#?}", "ada"));
    assert_eq!(line, "[lib.rs:7:9] name = \"ada\"");
}

#[test]
fn production_inspection_logs_nothing() {
    let mut channel = Channel::new();
    let x = inspect(&mut channel, false, "main.rs", 10, 5, "2 + 40", 2 + 40);
    assert_eq!(x, 42);
    assert_eq!(channel.message_count(), 0);
}

fn bump(counter: &mut u32) -> u32 {
    *counter += 1;
    *counter
}

#[test]
fn inspected_expression_is_evaluated_once() {
    let mut channel = Channel::new();
    let mut counter = 0u32;
    let seen = inspect(&mut channel, true, "main.rs", 4, 4, "bump(&mut counter)", bump(&mut counter));
    assert_eq!(counter, 1);
    assert_eq!(seen, 1);
}

#[test]
fn production_inspection_still_evaluates_once() {
    let mut channel = Channel::new();
    let mut counter = 0u32;
    let seen = inspect(&mut channel, false, "main.rs", 4, 4, "bump(&mut counter)", bump(&mut counter));
    assert_eq!(counter, 1);
    assert_eq!(seen, 1);
    assert_eq!(channel.message_count(), 0);
}

#[test]
fn triple_inspection_returns_the_ordered_triple() {
    let mut channel = Channel::new();
    let triple = inspect3(
        &mut channel,
        true,
        "main.rs",
        20,
        13,
        "1",
        1,
        "\"a\"",
        "a",
        "true",
        true,
    );
    assert_eq!(triple, (1, "a", true));
    assert_eq!(channel.message_count(), 3);
    let first = String::from_utf8(channel.message_at(0).clone()).unwrap();
    let second = String::from_utf8(channel.message_at(1).clone()).unwrap();
    let third = String::from_utf8(channel.message_at(2).clone()).unwrap();
    assert_eq!(first, "[main.rs:20:13] 1 = 1");
    assert_eq!(second, "[main.rs:20:13] \"a\" = \"a\"");
    assert_eq!(third, "[main.rs:20:13] true = true");
}

#[test]
fn pair_inspection_returns_the_ordered_pair() {
    let mut channel = Channel::new();
    let pair = inspect2(&mut channel, true, "main.rs", 21, 1, "8", 8, "'z'", 'z');
    assert_eq!(pair, (8, 'z'));
    assert_eq!(channel.message_count(), 2);
    let first = String::from_utf8(channel.message_at(0).clone()).unwrap();
    let second = String::from_utf8(channel.message_at(1).clone()).unwrap();
    assert_eq!(first, "[main.rs:21:1] 8 = 8");
    assert_eq!(second, "[main.rs:21:1] 'z' = 'z'");
}

#[test]
fn zero_expression_inspection_emits_the_stamp_alone() {
    let mut channel = Channel::new();
    inspect_location(&mut channel, true, "main.rs", 30, 9);
    assert_eq!(channel.message_count(), 1);
    let line = String::from_utf8(channel.message_at(0).clone()).unwrap();
    assert_eq!(line, "[main.rs:30:9]");
}

#[test]
fn production_zero_expression_inspection_emits_nothing() {
    let mut channel = Channel::new();
    inspect_location(&mut channel, false, "main.rs", 30, 9);
    assert_eq!(channel.message_count(), 0);
}

#[test]
fn location_stamp_renders_decimals_exactly() {
    let stamp = render_location("a.rs", 0, 7);
    assert_eq!(stamp, "[a.rs:0:7]");
    let wide = render_location("deep/nested/file.rs", 40591, 18446744073709551615);
    assert_eq!(wide, "[deep/nested/file.rs:40591:18446744073709551615]");
}

#[test]
fn inspect_line_renders_exactly() {
    let line = render_inspect_line("x.rs", 1, 2, "a + b", "3");
    assert_eq!(line, "[x.rs:1:2] a + b = 3");
}

#[test]
fn fatal_line_starts_with_program() {
    let line = render_fatal_line("panicked at 'oops'");
    assert_eq!(line, "program panicked at 'oops'");
}
