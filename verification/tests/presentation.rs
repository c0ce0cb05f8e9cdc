use tt::present::{closing_lines, menu, read_choice, summary_lines, Choice};
use tt::reply::CommandSuggestion;

#[test]
fn a_suggestion_is_shown_under_two_coloured_labels() {
    let suggestion = CommandSuggestion {
        description: "Lists files".to_string(),
        command: "ls -la".to_string(),
    };
    assert_eq!(
        summary_lines(&suggestion),
        vec![
            "".to_string(),
            "\u{1b}[1;32mSummary:\u{1b}[0m".to_string(),
            "  Lists files".to_string(),
            "".to_string(),
            "\u{1b}[1;33mCommand:\u{1b}[0m".to_string(),
            "  ls -la".to_string(),
            "".to_string(),
        ]
    );
}

#[test]
fn an_empty_suggestion_still_has_seven_lines() {
    let suggestion = CommandSuggestion { description: String::new(), command: String::new() };
    let lines = summary_lines(&suggestion);
    assert_eq!(lines.len(), 7);
    assert_eq!(lines[2], "  ");
    assert_eq!(lines[5], "  ");
}

#[test]
fn the_menu_has_two_options_in_order() {
    let menu = menu();
    assert_eq!(menu.message, "Choose an option:");
    assert_eq!(menu.help, "Use arrow keys to navigate");
    assert_eq!(menu.options, vec!["Execute command".to_string(), "Exit".to_string()]);
}

#[test]
fn a_choice_is_read_from_the_text_of_its_option() {
    assert_eq!(read_choice("Execute command"), Some(Choice::Execute));
    assert_eq!(read_choice("Exit"), Some(Choice::Exit));
    assert_eq!(read_choice("Request edit suggestion"), None);
    assert_eq!(read_choice("exit"), None);
    assert_eq!(read_choice("Exit "), None);
    assert_eq!(read_choice(""), None);
}

#[test]
fn every_option_of_the_menu_is_a_choice() {
    let choices: Vec<Option<Choice>> =
        menu().options.iter().map(|option| read_choice(option)).collect();
    assert_eq!(choices, vec![Some(Choice::Execute), Some(Choice::Exit)]);
}

#[test]
fn execute_closes_with_a_notice_that_nothing_was_run() {
    assert_eq!(
        closing_lines(Choice::Execute),
        vec![
            "Executing command...".to_string(),
            "Command execution is not implemented; nothing was run.".to_string(),
        ]
    );
}

#[test]
fn exit_closes_with_one_line() {
    assert_eq!(closing_lines(Choice::Exit), vec!["Exiting...".to_string()]);
}
