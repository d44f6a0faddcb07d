use bc::normalize::handle_output;

fn chars(s: &str) -> Vec<char> {
    s.chars().collect()
}

#[test]
fn strips_final_terminator() {
    assert_eq!(handle_output(&chars("8\n")), chars("8"));
}

#[test]
fn already_normalized_round_trip() {
    let plain = "123456789";
    let mut raw = chars(plain);
    raw.push('\n');
    assert_eq!(handle_output(&raw), chars(plain));
}

#[test]
fn rejoins_one_marker() {
    assert_eq!(handle_output(&chars("12345\\\n67890\n")), chars("1234567890"));
}

#[test]
fn rejoins_many_markers() {
    assert_eq!(handle_output(&chars("11\\\n22\\\n33\\\n44\n")), chars("11223344"));
}

#[test]
fn rejoins_marker_at_the_start() {
    assert_eq!(handle_output(&chars("\\\n99\n")), chars("99"));
}

#[test]
fn keeps_everything_else() {
    assert_eq!(handle_output(&chars("a b\\c\nd\n")), chars("a b\\c\nd"));
}
