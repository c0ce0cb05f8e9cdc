//! The one request the tool sends: a chat completion that asks the model for
//! a command suggestion, described for the machine the user sits at.

use crate::json::{array_value, empty_object, json_model, object_insert, string_value, JsonModel};
use vstd::prelude::*;

verus! {

/// What is known of the user's machine when a question is asked.
#[derive(Debug, PartialEq, Eq)]
pub struct HostContext {
    pub os_name: String,
    pub os_version: String,
    pub shell: String,
}

/// A [`HostContext`] with its texts as sequences of characters.
pub struct HostContextView {
    pub os_name: Seq<char>,
    pub os_version: Seq<char>,
    pub shell: Seq<char>,
}

impl View for HostContext {
    type V = HostContextView;

    open spec fn view(&self) -> HostContextView {
        HostContextView { os_name: self.os_name@, os_version: self.os_version@, shell: self.shell@ }
    }
}

/// An HTTP POST, ready to be sent: where it goes, its two headers and the JSON
/// document that is its body.
#[derive(Debug, PartialEq, Eq)]
pub struct HttpRequest {
    pub url: String,
    pub authorization: String,
    pub content_type: String,
    pub body: serde_json::Value,
}

/// An [`HttpRequest`] with its texts as sequences of characters and its body
/// by content.
pub struct HttpRequestView {
    pub url: Seq<char>,
    pub authorization: Seq<char>,
    pub content_type: Seq<char>,
    pub body: JsonModel,
}

impl View for HttpRequest {
    type V = HttpRequestView;

    open spec fn view(&self) -> HttpRequestView {
        HttpRequestView {
            url: self.url@,
            authorization: self.authorization@,
            content_type: self.content_type@,
            body: json_model(self.body),
        }
    }
}

/// The instruction given to the model: who it is, what machine the user is
/// on, and the shape its answer must have.
pub open spec fn prompt_text(host: HostContextView) -> Seq<char> {
    "You are a helpful command assistant.\n\nCurrent User:\nOS : "@ + host.os_name
        + "\nOS Version : "@ + host.os_version + "\nShell : "@ + host.shell
        + "\nAlways respond in JSON format with the following structure:\n{\n    \"description\": \"Description about the command and user's input response\",\n    \"command\": \"The actual command to execute\"\n}\nEnsure the response is valid JSON and contains both fields."@
}

/// One chat message: who speaks and what is said.
pub open spec fn message_model(role: Seq<char>, content: Seq<char>) -> JsonModel {
    JsonModel::Object(
        Map::<Seq<char>, JsonModel>::empty().insert("role"@, JsonModel::Text(role)).insert(
            "content"@,
            JsonModel::Text(content),
        ),
    )
}

/// The request body: the model's name, then the instruction as the system's
/// message and the question, unchanged, as the user's.
pub open spec fn body_model(host: HostContextView, query: Seq<char>) -> JsonModel {
    JsonModel::Object(
        Map::<Seq<char>, JsonModel>::empty().insert(
            "model"@,
            JsonModel::Text("gpt-4o-mini"@),
        ).insert(
            "messages"@,
            JsonModel::List(
                seq![
                    message_model("system"@, prompt_text(host)),
                    message_model("user"@, query),
                ],
            ),
        ),
    )
}

/// The whole request for a question asked with the key `api_key`.
pub open spec fn request_model(
    api_key: Seq<char>,
    host: HostContextView,
    query: Seq<char>,
) -> HttpRequestView {
    HttpRequestView {
        url: "https://api.openai.com/v1/chat/completions"@,
        authorization: "Bearer "@ + api_key,
        content_type: "application/json"@,
        body: body_model(host, query),
    }
}

/// Writes the instruction for the model.
pub fn system_prompt(host: &HostContext) -> (prompt: String)
    ensures
        prompt@ == prompt_text(host@),
{
    let mut prompt = String::from_str(
        "You are a helpful command assistant.\n\nCurrent User:\nOS : ",
    );
    prompt.append(host.os_name.as_str());
    prompt.append("\nOS Version : ");
    prompt.append(host.os_version.as_str());
    prompt.append("\nShell : ");
    prompt.append(host.shell.as_str());
    prompt.append(
        "\nAlways respond in JSON format with the following structure:\n{\n    \"description\": \"Description about the command and user's input response\",\n    \"command\": \"The actual command to execute\"\n}\nEnsure the response is valid JSON and contains both fields.",
    );
    prompt
}

/// Builds one chat message.
pub fn chat_message(role: &str, content: &str) -> (message: serde_json::Value)
    ensures
        json_model(message) == message_model(role@, content@),
{
    let mut message = empty_object();
    object_insert(&mut message, String::from_str("role"), string_value(role.to_owned()));
    object_insert(&mut message, String::from_str("content"), string_value(content.to_owned()));
    message
}

/// Builds the request body for a question.
pub fn request_body(host: &HostContext, query: &str) -> (body: serde_json::Value)
    ensures
        json_model(body) == body_model(host@, query@),
{
    let prompt = system_prompt(host);
    let mut messages: Vec<serde_json::Value> = Vec::new();
    messages.push(chat_message("system", prompt.as_str()));
    messages.push(chat_message("user", query));
    let ghost listed = messages@.map_values(|item| json_model(item));
    assert(listed =~= seq![
        message_model("system"@, prompt_text(host@)),
        message_model("user"@, query@),
    ]);
    let mut body = empty_object();
    object_insert(&mut body, String::from_str("model"), string_value(String::from_str("gpt-4o-mini")));
    object_insert(&mut body, String::from_str("messages"), array_value(messages));
    body
}

/// Builds the request for a question: the chat-completion endpoint, the key
/// as bearer credential, a JSON content type and the body of
/// [`request_body`].
pub fn build_request(api_key: &str, host: &HostContext, query: &str) -> (request: HttpRequest)
    ensures
        request@ == request_model(api_key@, host@, query@),
{
    let mut authorization = String::from_str("Bearer ");
    authorization.append(api_key);
    HttpRequest {
        url: String::from_str("https://api.openai.com/v1/chat/completions"),
        authorization,
        content_type: String::from_str("application/json"),
        body: request_body(host, query),
    }
}

} // verus!
