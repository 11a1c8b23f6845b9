use scaffold::cli::{
    check_name, confirm_proceeds, is_space, parse_args, preflight, PreflightError, MAX_NAME_LEN,
};

fn argv(items: &[&str]) -> Vec<String> {
    items.iter().map(|s| s.to_string()).collect()
}

#[test]
fn parse_args_accepts_one_positional_argument() {
    let r = parse_args(&argv(&["prog", "demo"]));
    assert_eq!(r, Some("demo".to_string()));
}

#[test]
fn parse_args_rejects_zero_positional_arguments() {
    assert_eq!(parse_args(&argv(&["prog"])), None);
}

#[test]
fn parse_args_rejects_two_positional_arguments() {
    assert_eq!(parse_args(&argv(&["prog", "a", "b"])), None);
}

#[test]
fn parse_args_rejects_empty_argument_list() {
    assert_eq!(parse_args(&argv(&[])), None);
}

#[test]
fn max_name_len_is_twenty_five() {
    assert_eq!(MAX_NAME_LEN, 25);
}

#[test]
fn name_of_one_char_passes() {
    assert!(check_name("a"));
}

#[test]
fn name_of_twenty_five_chars_passes() {
    let name = "a".repeat(25);
    assert!(check_name(&name));
}

#[test]
fn name_of_twenty_six_chars_fails() {
    let name = "a".repeat(26);
    assert!(!check_name(&name));
}

#[test]
fn preflight_accepts_a_short_name() {
    let r = preflight(&argv(&["prog", "demo"]));
    assert_eq!(r, Ok("demo".to_string()));
}

#[test]
fn preflight_refuses_wrong_argument_count() {
    assert_eq!(preflight(&argv(&["prog"])), Err(PreflightError::WrongArgCount));
    assert_eq!(preflight(&argv(&["prog", "a", "b"])), Err(PreflightError::WrongArgCount));
}

#[test]
fn preflight_refuses_a_long_name() {
    let name = "b".repeat(26);
    assert_eq!(
        preflight(&argv(&["prog", &name])),
        Err(PreflightError::NameTooLong),
    );
}

#[test]
fn empty_confirmation_proceeds() {
    assert!(confirm_proceeds(""));
}

#[test]
fn blank_confirmation_proceeds() {
    assert!(confirm_proceeds("  \t\n"));
}

#[test]
fn lowercase_yes_proceeds() {
    assert!(confirm_proceeds("y\n"));
    assert!(confirm_proceeds("yes\n"));
}

#[test]
fn uppercase_yes_proceeds() {
    assert!(confirm_proceeds("Y\n"));
    assert!(confirm_proceeds("YES\n"));
}

#[test]
fn word_containing_y_proceeds() {
    assert!(confirm_proceeds(" maybe \n"));
}

#[test]
fn negative_answer_aborts() {
    assert!(!confirm_proceeds("n\n"));
    assert!(!confirm_proceeds("no\n"));
    assert!(!confirm_proceeds("q\n"));
}

#[test]
fn is_space_matches_common_whitespace() {
    assert!(is_space(' '));
    assert!(is_space('\t'));
    assert!(is_space('\n'));
    assert!(is_space('\r'));
    assert!(is_space('\u{a0}'));
    assert!(!is_space('y'));
    assert!(!is_space('-'));
}
