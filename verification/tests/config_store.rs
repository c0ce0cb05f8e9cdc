use tt::config::{
    configure_openai, finish_write, get, is_key_configured, load, lookup, APP_DIR, FILE_NAME,
    OPENAI_API_KEY,
};
use tt::failure::Failure;

fn config_json(text: &str) -> serde_json::Value {
    serde_json::from_str(text).unwrap()
}

#[test]
fn names_of_the_store() {
    assert_eq!(APP_DIR, "tt");
    assert_eq!(FILE_NAME, "config.json");
    assert_eq!(OPENAI_API_KEY, "openai_api_key");
}

#[test]
fn get_without_a_file_is_not_configured() {
    assert_eq!(get(None, "openai_api_key"), None);
}

#[test]
fn get_from_text_that_is_not_json_is_not_configured() {
    assert_eq!(get(Some("this is not json"), "openai_api_key"), None);
    assert_eq!(get(Some(""), "openai_api_key"), None);
    assert_eq!(get(Some("{\"openai_api_key\": "), "openai_api_key"), None);
}

#[test]
fn get_from_json_without_the_key_is_not_configured() {
    assert_eq!(get(Some("{}"), "openai_api_key"), None);
    assert_eq!(get(Some("{\"other\":\"value\"}"), "openai_api_key"), None);
}

#[test]
fn get_from_json_that_is_no_object_is_not_configured() {
    assert_eq!(get(Some("[\"openai_api_key\"]"), "openai_api_key"), None);
    assert_eq!(get(Some("\"openai_api_key\""), "openai_api_key"), None);
    assert_eq!(get(Some("null"), "openai_api_key"), None);
}

#[test]
fn get_of_an_empty_value_is_not_configured() {
    assert_eq!(get(Some("{\"openai_api_key\":\"\"}"), "openai_api_key"), None);
}

#[test]
fn get_of_a_value_that_is_no_string_is_not_configured() {
    assert_eq!(get(Some("{\"openai_api_key\":42}"), "openai_api_key"), None);
    assert_eq!(get(Some("{\"openai_api_key\":null}"), "openai_api_key"), None);
    assert_eq!(get(Some("{\"openai_api_key\":[\"sk\"]}"), "openai_api_key"), None);
    assert_eq!(get(Some("{\"openai_api_key\":{\"k\":\"sk\"}}"), "openai_api_key"), None);
}

#[test]
fn get_returns_the_stored_value() {
    let content = "{\"openai_api_key\":\"sk-abc\",\"other\":\"x\"}";
    assert_eq!(get(Some(content), "openai_api_key"), Some("sk-abc".to_string()));
    assert_eq!(get(Some(content), "other"), Some("x".to_string()));
}

#[test]
fn lookup_reads_a_parsed_document() {
    let document = config_json("{\"a\":\"1\",\"b\":\"\",\"c\":3}");
    assert_eq!(lookup(&document, "a"), Some("1".to_string()));
    assert_eq!(lookup(&document, "b"), None);
    assert_eq!(lookup(&document, "c"), None);
    assert_eq!(lookup(&document, "d"), None);
}

#[test]
fn load_takes_an_object_as_it_is() {
    assert_eq!(load(Some("{\"a\":\"1\",\"n\":[1,2]}")), config_json("{\"a\":\"1\",\"n\":[1,2]}"));
}

#[test]
fn load_starts_empty_without_an_object() {
    assert_eq!(load(None), config_json("{}"));
    assert_eq!(load(Some("garbage")), config_json("{}"));
    assert_eq!(load(Some("[1,2,3]")), config_json("{}"));
    assert_eq!(load(Some("\"text\"")), config_json("{}"));
}

#[test]
fn set_writes_pretty_printed_json() {
    let written = tt::config::set(None, "openai_api_key", "sk-test123").unwrap();
    assert_eq!(written, "{\n  \"openai_api_key\": \"sk-test123\"\n}");
}

#[test]
fn set_then_get_returns_the_value() {
    let written = tt::config::set(None, "openai_api_key", "X").unwrap();
    assert_eq!(get(Some(&written), "openai_api_key"), Some("X".to_string()));
    let odd = "quote \" backslash \\ newline \n tab \t unicode \u{e9}\u{4e2d}";
    let written = tt::config::set(Some(&written), "other", odd).unwrap();
    assert_eq!(get(Some(&written), "other"), Some(odd.to_string()));
    assert_eq!(get(Some(&written), "openai_api_key"), Some("X".to_string()));
}

#[test]
fn set_of_an_empty_value_reads_back_as_not_configured() {
    let written = tt::config::set(None, "openai_api_key", "").unwrap();
    assert_eq!(written, "{\n  \"openai_api_key\": \"\"\n}");
    assert_eq!(get(Some(&written), "openai_api_key"), None);
}

#[test]
fn set_twice_leaves_the_file_as_set_once() {
    let once = tt::config::set(None, "openai_api_key", "X").unwrap();
    let twice = tt::config::set(Some(&once), "openai_api_key", "X").unwrap();
    assert_eq!(once, twice);
    let existing = "{\"zeta\":1,\"alpha\":{\"deep\":[true,null]}}";
    let once = tt::config::set(Some(existing), "openai_api_key", "X").unwrap();
    let twice = tt::config::set(Some(&once), "openai_api_key", "X").unwrap();
    assert_eq!(once, twice);
}

#[test]
fn set_keeps_the_other_members() {
    let existing = "{\"theme\":\"dark\",\"retries\":5,\"nested\":{\"a\":[1,2]}}";
    let written = tt::config::set(Some(existing), "openai_api_key", "sk-1").unwrap();
    let expected =
        config_json("{\"theme\":\"dark\",\"retries\":5,\"nested\":{\"a\":[1,2]},\"openai_api_key\":\"sk-1\"}");
    assert_eq!(config_json(&written), expected);
    assert_eq!(get(Some(&written), "theme"), Some("dark".to_string()));
}

#[test]
fn set_replaces_the_value_of_the_key() {
    let existing = "{\"openai_api_key\":\"old\",\"theme\":\"dark\"}";
    let written = tt::config::set(Some(existing), "openai_api_key", "new").unwrap();
    assert_eq!(config_json(&written), config_json("{\"openai_api_key\":\"new\",\"theme\":\"dark\"}"));
    assert_eq!(written, "{\n  \"openai_api_key\": \"new\",\n  \"theme\": \"dark\"\n}");
}

#[test]
fn set_starts_from_nothing_where_the_file_holds_no_object() {
    let fresh = tt::config::set(None, "openai_api_key", "sk").unwrap();
    assert_eq!(tt::config::set(Some("not json at all"), "openai_api_key", "sk").unwrap(), fresh);
    assert_eq!(tt::config::set(Some("[1,2,3]"), "openai_api_key", "sk").unwrap(), fresh);
    assert_eq!(tt::config::set(Some("17"), "openai_api_key", "sk").unwrap(), fresh);
}

#[test]
fn configure_openai_stores_the_key_under_its_name() {
    let written = configure_openai(None, "sk-test123").unwrap();
    assert_eq!(config_json(&written), config_json("{\"openai_api_key\":\"sk-test123\"}"));
    assert_eq!(get(Some(&written), OPENAI_API_KEY), Some("sk-test123".to_string()));
    let kept = configure_openai(Some("{\"theme\":\"dark\"}"), "sk-2").unwrap();
    assert_eq!(config_json(&kept), config_json("{\"theme\":\"dark\",\"openai_api_key\":\"sk-2\"}"));
}

#[test]
fn is_key_configured_says_yes_or_no() {
    assert_eq!(is_key_configured(None, "openai_api_key"), "No");
    assert_eq!(is_key_configured(Some("nonsense"), "openai_api_key"), "No");
    assert_eq!(is_key_configured(Some("{}"), "openai_api_key"), "No");
    assert_eq!(is_key_configured(Some("{\"openai_api_key\":\"\"}"), "openai_api_key"), "No");
    assert_eq!(is_key_configured(Some("{\"openai_api_key\":7}"), "openai_api_key"), "No");
    assert_eq!(is_key_configured(Some("{\"openai_api_key\":\"sk\"}"), "openai_api_key"), "Yes");
}

#[test]
fn finish_write_passes_the_text_on_or_fails() {
    assert_eq!(finish_write(Some("{}".to_string())), Ok("{}".to_string()));
    assert_eq!(
        finish_write(None),
        Err(Failure::ConfigIoFailure { cause: "the configuration could not be encoded".to_string() })
    );
}

#[test]
fn a_key_with_a_quote_and_a_backslash_is_escaped_in_the_file() {
    let key = "a\"b\\c";
    let written = configure_openai(None, key).unwrap();
    assert_eq!(written, "{\n  \"openai_api_key\": \"a\\\"b\\\\c\"\n}");
    assert_eq!(get(Some(&written), OPENAI_API_KEY), Some(key.to_string()));
    assert_eq!(is_key_configured(Some(&written), OPENAI_API_KEY), "Yes");
}

#[test]
fn no_content_makes_the_write_fail() {
    let contents = [
        "",
        "not json",
        "{",
        "null",
        "[[[[[[]]]]]]",
        "{\"openai_api_key\":{\"nested\":[1.5e300,-0.0,true,null]}}",
        "{\"a\":1e-7,\"b\":18446744073709551615,\"c\":-9223372036854775808}",
        "{\"\":\"\",\"\\u0000\":\"\\ud83d\\ude00\"}",
    ];
    for content in contents {
        let written = configure_openai(Some(content), "sk-test123");
        assert!(written.is_ok());
        let text = written.unwrap();
        assert_eq!(get(Some(&text), OPENAI_API_KEY), Some("sk-test123".to_string()));
        assert_eq!(configure_openai(Some(&text), "sk-test123"), Ok(text));
    }
    assert!(configure_openai(None, "").is_ok());
}
