use tmpl::prompt::{interpret, prompt, prompt_yn_with_io, read_word};

#[test]
fn y() {
    let input = vec!["y\n".to_string()];
    let mut writer = String::new();
    let result = prompt_yn_with_io("Test?", false, &input, &mut writer);
    assert!(result, "Expected true but got false");
}

#[test]
fn n() {
    let input = vec!["n\n".to_string()];
    let mut writer = String::new();
    let result = prompt_yn_with_io("Test?", true, &input, &mut writer);
    assert!(!result, "Expected false but got true");
}

#[test]
fn yes() {
    let input = vec!["yes\n".to_string()];
    let mut writer = String::new();
    let result = prompt_yn_with_io("Test?", false, &input, &mut writer);
    assert!(result, "Expected true but got false");
}

#[test]
fn no() {
    let input = vec!["no\n".to_string()];
    let mut writer = String::new();
    let result = prompt_yn_with_io("Test?", true, &input, &mut writer);
    assert!(!result, "Expected false but got true");
}

#[test]
fn the_question_shows_which_answer_is_the_default() {
    assert_eq!(prompt("Remove x", false), "Remove x (y/N): ");
    assert_eq!(prompt("Remove x", true), "Remove x (Y/n): ");
}

#[test]
fn an_empty_reply_is_the_default() {
    assert_eq!(interpret("\n", true), Some(true));
    assert_eq!(interpret("\n", false), Some(false));
    assert_eq!(interpret("", true), Some(true));
    assert_eq!(interpret("   \t\r\n", false), Some(false));
}

#[test]
fn case_and_white_space_do_not_count() {
    assert_eq!(interpret("  YES \n", false), Some(true));
    assert_eq!(interpret("Y", false), Some(true));
    assert_eq!(interpret("No\r\n", true), Some(false));
    assert_eq!(interpret("\tN\n", true), Some(false));
}

#[test]
fn anything_else_asks_again() {
    assert_eq!(interpret("maybe\n", true), None);
    assert_eq!(interpret("yess\n", true), None);
    assert_eq!(interpret("y n\n", false), None);
    assert_eq!(interpret("ok\n", false), None);
}

#[test]
fn the_question_is_put_until_a_reply_answers_it() {
    let input = vec![
        "what\n".to_string(),
        "hm\n".to_string(),
        "no\n".to_string(),
        "yes\n".to_string(),
    ];
    let mut writer = String::from("> ");

    let result = prompt_yn_with_io("Sure?", true, &input, &mut writer);

    assert!(!result);
    assert_eq!(writer, "> Sure? (Y/n): Sure? (Y/n): Sure? (Y/n): ");
}

#[test]
fn the_end_of_the_input_is_the_default() {
    let mut writer = String::new();
    assert!(prompt_yn_with_io("Sure?", true, &vec![], &mut writer));
    assert_eq!(writer, "Sure? (Y/n): ");

    let mut writer = String::new();
    let input = vec!["x\n".to_string()];
    assert!(!prompt_yn_with_io("Sure?", false, &input, &mut writer));
    assert_eq!(writer, "Sure? (y/N): Sure? (y/N): ");
}

#[test]
fn a_word_is_read_as_it_stands() {
    assert_eq!(read_word("y", false), Some(true));
    assert_eq!(read_word("yes", false), Some(true));
    assert_eq!(read_word("n", true), Some(false));
    assert_eq!(read_word("no", true), Some(false));
    assert_eq!(read_word("", true), Some(true));
    assert_eq!(read_word("", false), Some(false));
    // a word is taken as it is: nothing is trimmed or lowered here
    assert_eq!(read_word("Y", false), None);
    assert_eq!(read_word(" y", false), None);
    assert_eq!(read_word("nope", true), None);
}
