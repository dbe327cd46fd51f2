use panel_manager::layout::{MillerColumns, Span};
use panel_manager::path::shown_name;
use panel_manager::redraw::Redraw;
use panel_manager::text::{decimal_string, join, push_decimal, push_signed, push_two_digits, to_ascii_lower};

fn clean() -> Redraw {
    Redraw::new()
}

#[test]
fn nothing_dirty_at_first() {
    let r = Redraw::new();
    assert!(!r.any());
    assert_eq!(r, Redraw { left: false, center: false, right: false, console: false, log: false, header: false, footer: false });
}

#[test]
fn any_sees_each_flag() {
    assert!(Redraw { left: true, ..clean() }.any());
    assert!(Redraw { center: true, ..clean() }.any());
    assert!(Redraw { right: true, ..clean() }.any());
    assert!(Redraw { console: true, ..clean() }.any());
    assert!(Redraw { log: true, ..clean() }.any());
    assert!(Redraw { header: true, ..clean() }.any());
    assert!(Redraw { footer: true, ..clean() }.any());
}

#[test]
fn mark_joins_flags() {
    let mut r = Redraw { left: true, ..clean() };
    r.mark(Redraw { footer: true, log: true, ..clean() });
    assert_eq!(r, Redraw { left: true, footer: true, log: true, ..clean() });
    r.mark(clean());
    assert_eq!(r, Redraw { left: true, footer: true, log: true, ..clean() });
}

#[test]
fn layout_of_a_common_terminal() {
    let l = MillerColumns::from_size((80, 24));
    assert_eq!(l.left_x_range, Span { start: 0, end: 10 });
    assert_eq!(l.center_x_range, Span { start: 10, end: 40 });
    assert_eq!(l.right_x_range, Span { start: 40, end: 80 });
    assert_eq!(l.y_range, Span { start: 1, end: 23 });
    assert_eq!(l.width(), 80);
    assert_eq!(l.height(), 22);
    assert_eq!(l.footer(), 23);
}

#[test]
fn layout_of_tiny_terminals() {
    let l = MillerColumns::from_size((1, 1));
    assert_eq!(l.left_x_range, Span { start: 0, end: 0 });
    assert_eq!(l.center_x_range, Span { start: 0, end: 0 });
    assert_eq!(l.right_x_range, Span { start: 0, end: 1 });
    assert_eq!(l.y_range, Span { start: 1, end: 1 });
    assert_eq!(l.height(), 0);
    assert_eq!(l.footer(), 0);
    let z = MillerColumns::from_size((0, 0));
    assert_eq!(z.right_x_range, Span { start: 0, end: 0 });
    assert_eq!(z.footer(), 0);
    assert_eq!(z.height(), 0);
}

#[test]
fn layout_columns_cover_the_width() {
    for width in [1u16, 2, 7, 8, 9, 79, 80, 81, 255, 1000, u16::MAX] {
        for height in [1u16, 2, 3, 24, u16::MAX] {
            let l = MillerColumns::from_size((width, height));
            assert_eq!(l.left_x_range.start, 0);
            assert_eq!(l.left_x_range.end, l.center_x_range.start);
            assert_eq!(l.center_x_range.end, l.right_x_range.start);
            assert_eq!(l.right_x_range.end, width);
            assert!(l.left_x_range.start <= l.left_x_range.end);
            assert!(l.center_x_range.start <= l.center_x_range.end);
            assert!(l.right_x_range.start <= l.right_x_range.end);
            assert!(l.y_range.start <= l.y_range.end);
            assert_eq!(l.left_x_range.len() + l.center_x_range.len() + l.right_x_range.len(), width);
            assert_eq!(l.footer(), height - 1);
        }
    }
}

#[test]
fn rows_above_the_log() {
    let l = MillerColumns::from_size((80, 24));
    assert_eq!(l.rows_above_log(5), Span { start: 1, end: 18 });
    assert_eq!(l.rows_above_log(0), Span { start: 1, end: 23 });
    assert_eq!(l.rows_above_log(23), Span { start: 1, end: 0 });
    assert_eq!(l.rows_above_log(1000), Span { start: 1, end: 0 });
    assert_eq!(Span { start: 1, end: 0 }.len(), 0);
}

#[test]
fn decimal_notation() {
    assert_eq!(decimal_string(0), "0");
    assert_eq!(decimal_string(7), "7");
    assert_eq!(decimal_string(10), "10");
    assert_eq!(decimal_string(1234567890), "1234567890");
    assert_eq!(decimal_string(u64::MAX), "18446744073709551615");
    let mut s = String::from("n=");
    push_decimal(&mut s, 42);
    assert_eq!(s, "n=42");
}

#[test]
fn two_digits_and_signs() {
    let mut s = String::new();
    push_two_digits(&mut s, 0);
    s.push(' ');
    push_two_digits(&mut s, 9);
    s.push(' ');
    push_two_digits(&mut s, 10);
    s.push(' ');
    push_two_digits(&mut s, 255);
    assert_eq!(s, "00 09 10 255");
    let mut t = String::new();
    push_signed(&mut t, -5);
    t.push(' ');
    push_signed(&mut t, 2024);
    t.push(' ');
    push_signed(&mut t, i32::MIN);
    t.push(' ');
    push_signed(&mut t, 0);
    assert_eq!(t, "-5 2024 -2147483648 0");
}

#[test]
fn ascii_lowercase_of_characters() {
    assert_eq!(to_ascii_lower('A'), 'a');
    assert_eq!(to_ascii_lower('Z'), 'z');
    assert_eq!(to_ascii_lower('m'), 'm');
    assert_eq!(to_ascii_lower('@'), '@');
    assert_eq!(to_ascii_lower('['), '[');
    assert_eq!(to_ascii_lower('Ä'), 'Ä');
    assert_eq!(to_ascii_lower('5'), '5');
}

#[test]
fn joining_texts() {
    let v = vec!["a".to_string(), "b".to_string(), "c".to_string()];
    assert_eq!(join(&v, "\n"), "a\nb\nc");
    assert_eq!(join(&vec!["only".to_string()], ", "), "only");
    assert_eq!(join(&Vec::new(), ", "), "");
}

#[test]
fn names_of_paths() {
    assert_eq!(shown_name("/tmp/demo/a.txt"), "a.txt");
    assert_eq!(shown_name("/tmp/demo/"), "demo");
    assert_eq!(shown_name("/"), "/");
    assert_eq!(shown_name(".."), "..");
    assert_eq!(shown_name("plain"), "plain");
}
