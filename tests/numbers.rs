use messages_actix::numbers::{decimal_text, generate_sequence, output_sequence, print};

#[test]
fn gnerate_sequence_should_work() {
    let result = generate_sequence(3);
    assert_eq!(result, &[1, 2, 3]);
}

#[test]
fn generate_sequence_of_zero_is_empty() {
    assert!(generate_sequence(0).is_empty());
}

#[test]
fn generate_sequence_at_largest_bound() {
    let result = generate_sequence(255);
    assert_eq!(result.len(), 255);
    for (i, n) in result.iter().enumerate() {
        assert_eq!(*n as usize, i + 1);
    }
}

#[test]
fn decimal_text_of_each_width() {
    assert_eq!(decimal_text(0), "0");
    assert_eq!(decimal_text(7), "7");
    assert_eq!(decimal_text(10), "10");
    assert_eq!(decimal_text(42), "42");
    assert_eq!(decimal_text(100), "100");
    assert_eq!(decimal_text(255), "255");
}

#[test]
fn decimal_text_matches_display() {
    for n in 0..=255u8 {
        assert_eq!(decimal_text(n), n.to_string());
    }
}

#[test]
fn output_sequence_one_line_per_element_in_order() {
    let lines = output_sequence(&[30, 2, 100]);
    assert_eq!(lines, vec!["30".to_string(), "2".to_string(), "100".to_string()]);
    assert!(output_sequence(&[]).is_empty());
}

#[test]
fn print_lines_of_generated_sequence() {
    assert_eq!(print(3), vec!["1".to_string(), "2".to_string(), "3".to_string()]);
    assert!(print(0).is_empty());
    let lines = print(12);
    assert_eq!(lines.len(), 12);
    assert_eq!(lines[11], "12");
}
