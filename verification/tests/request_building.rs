use tt::request::{build_request, chat_message, request_body, system_prompt, HostContext};

fn ubuntu() -> HostContext {
    HostContext {
        os_name: "Ubuntu".to_string(),
        os_version: "22.04".to_string(),
        shell: "bash".to_string(),
    }
}

fn request_json(text: &str) -> serde_json::Value {
    serde_json::from_str(text).unwrap()
}

const UBUNTU_PROMPT: &str = "You are a helpful command assistant.\n\nCurrent User:\nOS : Ubuntu\nOS Version : 22.04\nShell : bash\nAlways respond in JSON format with the following structure:\n{\n    \"description\": \"Description about the command and user's input response\",\n    \"command\": \"The actual command to execute\"\n}\nEnsure the response is valid JSON and contains both fields.";

#[test]
fn the_prompt_names_the_host() {
    assert_eq!(system_prompt(&ubuntu()), UBUNTU_PROMPT);
}

#[test]
fn the_prompt_takes_unknown_hosts_as_they_are() {
    let host = HostContext {
        os_name: "Unknown".to_string(),
        os_version: "Unknown".to_string(),
        shell: "Unknown shell".to_string(),
    };
    let prompt = system_prompt(&host);
    assert!(prompt.starts_with(
        "You are a helpful command assistant.\n\nCurrent User:\nOS : Unknown\nOS Version : Unknown\nShell : Unknown shell\nAlways respond in JSON format"
    ));
    assert!(prompt.ends_with("Ensure the response is valid JSON and contains both fields."));
}

#[test]
fn a_chat_message_has_a_role_and_a_content() {
    assert_eq!(
        chat_message("user", "list files"),
        request_json("{\"role\":\"user\",\"content\":\"list files\"}")
    );
    assert_eq!(chat_message("", ""), request_json("{\"role\":\"\",\"content\":\"\"}"));
}

#[test]
fn the_body_holds_the_model_and_two_messages() {
    let body = request_body(&ubuntu(), "show \"hidden\" files\nplease");
    let mut system = serde_json::Map::new();
    system.insert("role".to_string(), serde_json::Value::String("system".to_string()));
    system.insert("content".to_string(), serde_json::Value::String(UBUNTU_PROMPT.to_string()));
    let mut user = serde_json::Map::new();
    user.insert("role".to_string(), serde_json::Value::String("user".to_string()));
    user.insert(
        "content".to_string(),
        serde_json::Value::String("show \"hidden\" files\nplease".to_string()),
    );
    let mut expected = serde_json::Map::new();
    expected.insert("model".to_string(), serde_json::Value::String("gpt-4o-mini".to_string()));
    expected.insert(
        "messages".to_string(),
        serde_json::Value::Array(vec![
            serde_json::Value::Object(system),
            serde_json::Value::Object(user),
        ]),
    );
    assert_eq!(body, serde_json::Value::Object(expected));
}

#[test]
fn the_request_goes_to_the_chat_completion_endpoint() {
    let request = build_request("sk-test123", &ubuntu(), "list files");
    assert_eq!(request.url, "https://api.openai.com/v1/chat/completions");
    assert_eq!(request.authorization, "Bearer sk-test123");
    assert_eq!(request.content_type, "application/json");
    assert_eq!(request.body, request_body(&ubuntu(), "list files"));
    assert_eq!(request.body["messages"][1]["content"], "list files");
    assert_eq!(request.body["messages"][0]["role"], "system");
    assert_eq!(request.body["model"], "gpt-4o-mini");
}
