use slicer::text::{join, render_int};

#[test]
fn render_int_small_values() {
    assert_eq!(render_int(0), "0");
    assert_eq!(render_int(7), "7");
    assert_eq!(render_int(10), "10");
    assert_eq!(render_int(45), "45");
    assert_eq!(render_int(100), "100");
    assert_eq!(render_int(1009), "1009");
}

#[test]
fn render_int_negative_values() {
    assert_eq!(render_int(-1), "-1");
    assert_eq!(render_int(-45), "-45");
    assert_eq!(render_int(-120), "-120");
}

#[test]
fn render_int_at_the_limits() {
    assert_eq!(render_int(i32::MAX), "2147483647");
    assert_eq!(render_int(i32::MIN), "-2147483648");
}

#[test]
fn render_int_agrees_with_the_standard_rendering() {
    let mut n: i32 = -50_000;
    while n <= 50_000 {
        assert_eq!(render_int(n), format!("{}", n));
        n += 37;
    }
}

#[test]
fn join_of_nothing_is_empty() {
    assert_eq!(join(&vec![]), "");
}

#[test]
fn join_of_one_token_is_the_token() {
    assert_eq!(join(&vec!["-g".to_string()]), "-g");
}

#[test]
fn join_puts_one_space_between_neighbours() {
    let tokens = vec!["-g".to_string(), "--perimeters 2".to_string(), "model".to_string()];
    assert_eq!(join(&tokens), "-g --perimeters 2 model");
}

#[test]
fn join_keeps_empty_tokens() {
    let tokens = vec!["a".to_string(), String::new(), "b".to_string()];
    assert_eq!(join(&tokens), "a  b");
}
