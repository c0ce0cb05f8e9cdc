use tt::request::HostContext;
use tt::status::{show_status, status_report};
use tt::system_info::{
    find_process, get_os_info, get_shell_info, host_context, os_info_from, shell_name,
    ProcessEntry,
};
use tt::text::{as_slice, known_or};

fn entry(pid: u32, parent: Option<u32>, name: &str) -> ProcessEntry {
    ProcessEntry { pid, parent, name: name.to_string() }
}

fn table() -> Vec<ProcessEntry> {
    vec![
        entry(1, None, "init"),
        entry(40, Some(1), "sshd"),
        entry(77, Some(40), "zsh"),
        entry(900, Some(77), "tt"),
        entry(901, Some(5000), "orphan"),
    ]
}

#[test]
fn known_or_keeps_what_is_known() {
    assert_eq!(known_or(Some("Linux".to_string()), "Unknown"), "Linux");
    assert_eq!(known_or(Some(String::new()), "Unknown"), "");
    assert_eq!(known_or(None, "Unknown"), "Unknown");
}

#[test]
fn as_slice_borrows_the_text() {
    assert_eq!(as_slice(&Some("abc".to_string())), Some("abc"));
    assert_eq!(as_slice(&None), None);
}

#[test]
fn os_info_defaults_each_part_to_unknown() {
    assert_eq!(
        os_info_from(Some("Ubuntu".to_string()), Some("22.04".to_string())),
        ("Ubuntu".to_string(), "22.04".to_string())
    );
    assert_eq!(
        os_info_from(None, Some("22.04".to_string())),
        ("Unknown".to_string(), "22.04".to_string())
    );
    assert_eq!(
        os_info_from(Some("Ubuntu".to_string()), None),
        ("Ubuntu".to_string(), "Unknown".to_string())
    );
    assert_eq!(os_info_from(None, None), ("Unknown".to_string(), "Unknown".to_string()));
}

#[test]
fn find_process_gives_the_first_position() {
    let table = table();
    assert_eq!(find_process(&table, 1), Some(0));
    assert_eq!(find_process(&table, 77), Some(2));
    assert_eq!(find_process(&table, 901), Some(4));
    assert_eq!(find_process(&table, 2), None);
    assert_eq!(find_process(&Vec::new(), 1), None);
    let doubled = vec![entry(5, None, "a"), entry(6, None, "b"), entry(5, None, "c")];
    assert_eq!(find_process(&doubled, 5), Some(0));
}

#[test]
fn the_shell_is_the_parent_of_the_current_process() {
    assert_eq!(shell_name(Some(900), &table()), "zsh");
    assert_eq!(shell_name(Some(77), &table()), "sshd");
    assert_eq!(shell_name(Some(40), &table()), "init");
}

#[test]
fn the_shell_is_unknown_without_a_current_process() {
    assert_eq!(shell_name(None, &table()), "Unknown shell");
    assert_eq!(shell_name(Some(12345), &table()), "Unknown shell");
    assert_eq!(shell_name(Some(900), &Vec::new()), "Unknown shell");
}

#[test]
fn the_shell_is_unknown_without_a_parent() {
    assert_eq!(shell_name(Some(1), &table()), "Unknown shell");
    assert_eq!(shell_name(Some(901), &table()), "Unknown shell");
}

#[test]
fn a_process_that_is_its_own_parent_names_itself() {
    let table = vec![entry(3, Some(3), "loop")];
    assert_eq!(shell_name(Some(3), &table), "loop");
}

#[test]
fn the_machine_answers_without_failing() {
    let (name, version) = get_os_info();
    assert!(!name.is_empty());
    assert!(!version.is_empty());
    assert!(!get_shell_info().is_empty());
    let context = host_context();
    assert!(!context.os_name.is_empty());
    assert!(!context.os_version.is_empty());
    assert!(!context.shell.is_empty());
}

#[test]
fn the_status_report_has_five_lines() {
    let host = HostContext {
        os_name: "Ubuntu".to_string(),
        os_version: "22.04".to_string(),
        shell: "bash".to_string(),
    };
    assert_eq!(
        status_report(&host, None),
        vec![
            "".to_string(),
            "OS: Ubuntu 22.04".to_string(),
            "Shell: bash".to_string(),
            "OpenAI API Key Configured: No".to_string(),
            "".to_string(),
        ]
    );
    assert_eq!(
        status_report(&host, Some("{\"openai_api_key\":\"sk\"}"))[3],
        "OpenAI API Key Configured: Yes"
    );
    assert_eq!(
        status_report(&host, Some("{\"openai_api_key\":\"\"}"))[3],
        "OpenAI API Key Configured: No"
    );
}

#[test]
fn the_status_of_this_machine_tells_of_the_key() {
    let without = show_status(None);
    assert_eq!(without.len(), 5);
    assert_eq!(without[0], "");
    assert!(without[1].starts_with("OS: "));
    assert!(without[2].starts_with("Shell: "));
    assert_eq!(without[3], "OpenAI API Key Configured: No");
    assert_eq!(without[4], "");
    let with = show_status(Some("{\"openai_api_key\":\"sk-test123\"}"));
    assert_eq!(with[3], "OpenAI API Key Configured: Yes");
}

#[test]
fn configuring_an_empty_directory_then_asking_for_the_status() {
    let before: Option<&str> = None;
    assert_eq!(show_status(before)[3], "OpenAI API Key Configured: No");
    let written = tt::config::configure_openai(before, "sk-test123").unwrap();
    let stored: serde_json::Value = serde_json::from_str(&written).unwrap();
    let mut expected = serde_json::Map::new();
    expected.insert(
        "openai_api_key".to_string(),
        serde_json::Value::String("sk-test123".to_string()),
    );
    assert_eq!(stored, serde_json::Value::Object(expected));
    assert_eq!(show_status(Some(&written))[3], "OpenAI API Key Configured: Yes");
}
