use desktop_runtime::calculator::{
    expression_text, push_history, MAX_HISTORY_ITEMS,
    backspace, input_decimal, input_digit, keyboard_action, status_text, toggle_sign, BinaryOp,
    CalcAction, UnaryOp, MAX_ENTRY_DIGITS,
};

#[test]
fn keyboard_action_maps_supported_keys() {
    assert_eq!(keyboard_action("0"), Some(CalcAction::Digit('0')));
    assert_eq!(
        keyboard_action("+"),
        Some(CalcAction::Binary(BinaryOp::Add))
    );
    assert_eq!(
        keyboard_action("*"),
        Some(CalcAction::Binary(BinaryOp::Multiply))
    );
    assert_eq!(keyboard_action("Enter"), Some(CalcAction::Equals));
    assert_eq!(keyboard_action("Backspace"), Some(CalcAction::Backspace));
    assert_eq!(keyboard_action("Delete"), Some(CalcAction::ClearEntry));
    assert_eq!(keyboard_action("Escape"), Some(CalcAction::ClearAll));
    assert_eq!(
        keyboard_action("F9"),
        Some(CalcAction::Unary(UnaryOp::ToggleSign))
    );
    assert_eq!(keyboard_action("nope"), None);
}

#[test]
fn keyboard_aliases_for_decimal_and_multiply() {
    assert_eq!(keyboard_action(","), Some(CalcAction::Decimal));
    assert_eq!(keyboard_action("."), Some(CalcAction::Decimal));
    assert_eq!(keyboard_action("x"), Some(CalcAction::Binary(BinaryOp::Multiply)));
    assert_eq!(keyboard_action("X"), Some(CalcAction::Binary(BinaryOp::Multiply)));
    assert_eq!(keyboard_action("%"), Some(CalcAction::Unary(UnaryOp::Percent)));
    assert_eq!(keyboard_action("="), Some(CalcAction::Equals));
    assert_eq!(keyboard_action("7"), Some(CalcAction::Digit('7')));
    assert_eq!(keyboard_action("77"), None);
    assert_eq!(keyboard_action(""), None);
}

#[test]
fn operator_symbols() {
    assert_eq!(BinaryOp::Add.symbol(), "+");
    assert_eq!(BinaryOp::Subtract.symbol(), "-");
    assert_eq!(BinaryOp::Multiply.symbol(), "*");
    assert_eq!(BinaryOp::Divide.symbol(), "/");
}

#[test]
fn digit_entry_replaces_leading_zero_and_caps_digits() {
    assert_eq!(input_digit("0", false, '0'), ("0".to_string(), true));
    assert_eq!(input_digit("0", false, '5'), ("5".to_string(), true));
    assert_eq!(input_digit("-0", false, '5'), ("-5".to_string(), true));
    assert_eq!(input_digit("12", false, '3'), ("123".to_string(), true));
    assert_eq!(input_digit("123", true, '4'), ("4".to_string(), true));
    let full = "9".repeat(MAX_ENTRY_DIGITS);
    assert_eq!(input_digit(&full, false, '9'), (full.clone(), false));
    assert_eq!(full.len(), 16);
}

#[test]
fn decimal_point_is_added_once() {
    assert_eq!(input_decimal("1", false), ("1.".to_string(), true));
    assert_eq!(input_decimal("1.", false), ("1.".to_string(), false));
    assert_eq!(input_decimal("42", true), ("0.".to_string(), true));
}

#[test]
fn backspace_rules() {
    assert_eq!(backspace("12", false), "1");
    assert_eq!(backspace("1", false), "0");
    assert_eq!(backspace("-5", false), "0");
    assert_eq!(backspace("123", true), "0");
    assert_eq!(backspace("1.", false), "1");
}

#[test]
fn sign_toggle_rules() {
    assert_eq!(toggle_sign("0"), None);
    assert_eq!(toggle_sign("0."), None);
    assert_eq!(toggle_sign("12"), Some("-12".to_string()));
    assert_eq!(toggle_sign("-12"), Some("12".to_string()));
    let once = toggle_sign("3.5").unwrap();
    assert_eq!(toggle_sign(&once), Some("3.5".to_string()));
}

#[test]
fn status_line_priority() {
    assert_eq!(status_text(true, true), "Error");
    assert_eq!(status_text(false, true), "Pending operation");
    assert_eq!(status_text(false, false), "Ready");
}

#[test]
fn history_tape_keeps_newest_entries() {
    let mut tape: Vec<u32> = Vec::new();
    for n in 0..(MAX_HISTORY_ITEMS as u32 + 5) {
        push_history(&mut tape, n);
    }
    assert_eq!(tape.len(), MAX_HISTORY_ITEMS);
    assert_eq!(tape[0], 5);
    assert_eq!(*tape.last().unwrap(), MAX_HISTORY_ITEMS as u32 + 4);
    let mut long: Vec<u32> = (0..30).collect();
    push_history(&mut long, 99);
    assert_eq!(long.len(), 24);
    assert_eq!(long[0], 7);
    assert_eq!(long[23], 99);
}

#[test]
fn expression_line_texts() {
    assert_eq!(expression_text(Some(("12", BinaryOp::Add)), true, "0", None), "12 +");
    assert_eq!(
        expression_text(Some(("12", BinaryOp::Multiply)), false, "3", Some(("1 + 1", "2"))),
        "12 * 3"
    );
    assert_eq!(expression_text(None, false, "3", Some(("1 + 1", "2"))), "Last: 1 + 1 = 2");
    assert_eq!(
        expression_text(None, false, "0", None),
        "Standard mode (XP) | keyboard shortcuts enabled"
    );
}
