use passman::prompt::{is_affirmative, prompt_user_input, prompt_yes_no, YES};

#[test]
fn yes_no_collapse() {
    assert!(prompt_yes_no("y"));
    assert!(prompt_yes_no("Y"));
    assert!(!prompt_yes_no("n"));
    assert!(!prompt_yes_no(""));
    assert!(!prompt_yes_no("yes"));
    assert!(!prompt_yes_no("Y "));
    assert!(!prompt_yes_no("no"));
    assert!(!prompt_yes_no("garbage"));
}

#[test]
fn a_line_that_says_yes_with_space_around_it() {
    assert!(prompt_yes_no(&prompt_user_input("Y \n")));
    assert!(prompt_yes_no(&prompt_user_input("  y\r\n")));
    assert!(!prompt_yes_no(&prompt_user_input("y y\n")));
}

#[test]
fn affirmative_is_the_one_letter() {
    assert_eq!(YES, "y");
    assert!(is_affirmative("y"));
    assert!(!is_affirmative("Y"));
    assert!(!is_affirmative("yes"));
    assert!(!is_affirmative(""));
}

#[test]
fn a_reply_is_the_line_without_the_space_around_it() {
    assert_eq!(prompt_user_input("github\n"), "github");
    assert_eq!(prompt_user_input("  alice smith \t\r\n"), "alice smith");
    assert_eq!(prompt_user_input("\n"), "");
    assert_eq!(prompt_user_input(""), "");
    assert_eq!(prompt_user_input("   "), "");
    assert_eq!(prompt_user_input("\u{3000}p w\u{a0}"), "p w");
    assert_eq!(prompt_user_input("plain"), "plain");
}
