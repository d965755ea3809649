use json_bridge::text::same_text;

fn add_numbers(a: i32, b: i32) -> i32 {
    a + b
}

fn divide_numbers(a: f64, b: f64) -> Result<f64, String> {
    if b == 0.0 {
        Err("Cannot divide by zero".to_string())
    } else {
        Ok(a / b)
    }
}

#[test]
fn test_add_numbers() {
    assert_eq!(add_numbers(2, 3), 5);
}

#[test]
fn test_divide_numbers() {
    assert_eq!(divide_numbers(10.0, 2.0), Ok(5.0));
    assert!(divide_numbers(10.0, 0.0).is_err());
}

#[test]
fn same_text_compares_byte_for_byte() {
    assert!(same_text("", ""));
    assert!(same_text("state", "state"));
    assert!(!same_text("state", "statf"));
    assert!(!same_text("state", "stat"));
    assert!(!same_text("", " "));
    assert!(same_text("h\u{e9}llo \u{1f600}", "h\u{e9}llo \u{1f600}"));
    assert!(!same_text("h\u{e9}llo", "he\u{301}llo"));
}
