use calldata_interpreter::plain::check_plain_interface_text;

#[test]
fn usual_interface_text_is_plain() {
    let text = r#"[
  {"inputs": [{"internalType": "struct A.B[]", "name": "x", "type": "tuple[]", "components": []}],
   "name": "f", "outputs": [], "type": "function"},
  [1, 2, 3], "uint8[3][]", ["a"], "(uint8,(bool,address)[2])" ]"#;
    assert!(check_plain_interface_text(text));
    assert!(check_plain_interface_text(""));
    assert!(check_plain_interface_text("]]]"));
    assert!(check_plain_interface_text("no strings at all"));
}

#[test]
fn what_stands_outside_the_strings_is_not_looked_at() {
    assert!(check_plain_interface_text("\u{e9}\\]) [\"a\"] \u{e9}]"));
    assert!(check_plain_interface_text(&" ".repeat(10000)));
    assert!(check_plain_interface_text("] \"a[]\" ]"));
}

#[test]
fn strings_that_end_in_no_bracket_are_handed_on_as_they_are() {
    assert!(check_plain_interface_text("[\"\u{e9}\"]"));
    assert!(check_plain_interface_text("[\"a]b\"]"));
    assert!(check_plain_interface_text("[\"]a\"]"));
    assert!(check_plain_interface_text("[\"a\\nb\"]"));
    assert!(check_plain_interface_text("[\"a]\\n\"]"));
    assert!(check_plain_interface_text("[\"a\\\"]\\\"b\"]"));
    assert!(check_plain_interface_text(&format!("[\"{}\"]", "a".repeat(5000))));
    assert!(check_plain_interface_text("[\"\"]"));
}

#[test]
fn closing_bracket_needs_its_opening_one() {
    assert!(check_plain_interface_text("[\"a[]\"]"));
    assert!(check_plain_interface_text("[\"a[12]\"]"));
    assert!(check_plain_interface_text("[\"a[1][]\"]"));
    assert!(check_plain_interface_text("[\"a[[1]\"]"));
    assert!(!check_plain_interface_text("[\"a]\"]"));
    assert!(!check_plain_interface_text("[\"1]\"]"));
    assert!(!check_plain_interface_text("[\"]\"]"));
    assert!(!check_plain_interface_text("[\"a[b]\"]"));
    assert!(!check_plain_interface_text("[\"a]b[]\"]"));
    assert!(!check_plain_interface_text("[\"(a])\"]"));
    assert!(check_plain_interface_text("[\"(a[])\"]"));
    assert!(!check_plain_interface_text("[\"[\", \"]\"]"));
}

#[test]
fn strings_that_end_in_a_bracket_hold_plain_characters_only() {
    assert!(!check_plain_interface_text("[\"\u{e9}[]\"]"));
    assert!(!check_plain_interface_text("[\"\u{e9})\"]"));
    assert!(check_plain_interface_text("[\"a\\n[]\"]"));
    assert!(check_plain_interface_text("[\"a\\\\)\"]"));
    assert!(check_plain_interface_text("[\"a\\\"[2]\"]"));
    assert!(!check_plain_interface_text("[\"a[\\n]\"]"));
    assert!(!check_plain_interface_text("[\"a\\u0007[]\"]"));
    assert!(!check_plain_interface_text("[\"a\\\\u[]\"]"));
    assert!(check_plain_interface_text("[\"\u{7f}[]\"]"));
    assert!(!check_plain_interface_text("[\"\u{80}[]\"]"));
}

#[test]
fn strings_that_may_end_in_an_escaped_bracket_are_not_plain() {
    assert!(!check_plain_interface_text("[\"\\u005d\"]"));
    assert!(!check_plain_interface_text("[\"a\\u0029\"]"));
    assert!(!check_plain_interface_text("[\"a\\u0041\"]"));
    assert!(check_plain_interface_text("[\"a\\u0041b\"]"));
    assert!(check_plain_interface_text("[\"u0041\"]"));
}

#[test]
fn strings_that_end_in_a_bracket_are_not_overlong() {
    let fits = format!("[\"{}[]\"]", "a".repeat(254));
    assert!(check_plain_interface_text(&fits));
    let long = format!("[\"{}[]\"]", "a".repeat(255));
    assert!(!check_plain_interface_text(&long));
    let other = format!("[\"{}\", \"{}[]\"]", "a".repeat(5000), "b".repeat(10));
    assert!(check_plain_interface_text(&other));
}

#[test]
fn escaped_quote_does_not_end_a_string() {
    assert!(!check_plain_interface_text("[\"a\\\"]\"]"));
    assert!(check_plain_interface_text("[\"a\\\"[]\"]"));
    assert!(check_plain_interface_text("[\"a\\\\\", \"b[]\"]"));
    assert!(!check_plain_interface_text("[\"a\\\\\", \"b]\"]"));
}
