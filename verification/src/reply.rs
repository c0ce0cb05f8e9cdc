//! Reading the server's answer: first the HTTP response, then the JSON
//! envelope around the model's words, then the suggestion inside them.

use crate::failure::{Failure, FailureView};
use crate::json::{as_text, is_object, item, json_model, member, parse_json, parsed_json, JsonModel};
use vstd::prelude::*;

verus! {

/// A shell command proposed by the model, with an explanation of what it does.
#[derive(Debug, PartialEq, Eq)]
pub struct CommandSuggestion {
    pub description: String,
    pub command: String,
}

/// A [`CommandSuggestion`] with its texts as sequences of characters.
pub struct CommandSuggestionView {
    pub description: Seq<char>,
    pub command: Seq<char>,
}

impl View for CommandSuggestion {
    type V = CommandSuggestionView;

    open spec fn view(&self) -> CommandSuggestionView {
        CommandSuggestionView { description: self.description@, command: self.command@ }
    }
}

/// Whether an HTTP status code reports success: the codes from 200 to 299.
pub open spec fn is_success_status(status: u16) -> bool {
    200 <= status <= 299
}

/// Whether an HTTP status code reports success.
pub fn is_success(status: u16) -> (success: bool)
    ensures
        success == is_success_status(status),
{
    200 <= status && status <= 299
}

/// The text at `choices[0].message.content` of a response envelope, where
/// every step of that path exists and the end of it is a string.
pub open spec fn first_choice_content(envelope: JsonModel) -> Option<Seq<char>> {
    match envelope.member("choices"@) {
        Some(choices) => match choices.item(0) {
            Some(choice) => match choice.member("message"@) {
                Some(message) => message.text_member("content"@),
                None => None,
            },
            None => None,
        },
        None => None,
    }
}

/// The model's words in a response envelope, or a fixed placeholder where the
/// envelope does not hold them.
pub open spec fn reply_content(envelope: JsonModel) -> Seq<char> {
    match first_choice_content(envelope) {
        Some(content) => content,
        None => "No response received"@,
    }
}

/// Finds the model's words in a response envelope. An envelope of any other
/// shape is no failure: the placeholder `No response received` stands in.
pub fn extract_content(envelope: &serde_json::Value) -> (content: String)
    ensures
        content@ == reply_content(json_model(*envelope)),
{
    let found = match member(envelope, "choices") {
        Some(choices) => match item(choices, 0) {
            Some(choice) => match member(choice, "message") {
                Some(message) => match member(message, "content") {
                    Some(content) => as_text(content),
                    None => None,
                },
                None => None,
            },
            None => None,
        },
        None => None,
    };
    match found {
        Some(content) => content.to_owned(),
        None => String::from_str("No response received"),
    }
}

/// What a response means for the question asked: the model's words, or the
/// failure to report.
///
/// A status other than success is a network failure that carries the body as
/// it came, whatever the body holds. A successful response whose body is not
/// JSON is a network failure too, with the decoder's message.
pub open spec fn received(status: u16, body: Seq<char>) -> Result<Seq<char>, FailureView> {
    if !is_success_status(status) {
        Err(FailureView::NetworkFailure { detail: body })
    } else {
        match parsed_json(body) {
            Ok(envelope) => Ok(reply_content(envelope)),
            Err(message) => Err(
                FailureView::NetworkFailure { detail: "error decoding response body: "@ + message },
            ),
        }
    }
}

/// Takes in an HTTP response: looks at the status first, then opens the
/// envelope.
pub fn receive_response(status: u16, body: &str) -> (outcome: Result<String, Failure>)
    ensures
        match outcome {
            Ok(content) => received(status, body@) == Ok::<Seq<char>, FailureView>(content@),
            Err(failure) => received(status, body@) == Err::<Seq<char>, FailureView>(failure@),
        },
        !is_success_status(status) ==> (outcome matches Err(Failure::NetworkFailure { detail })
            && detail@ == body@),
{
    if !is_success(status) {
        return Err(Failure::NetworkFailure { detail: body.to_owned() });
    }
    match parse_json(body) {
        Ok(envelope) => Ok(extract_content(&envelope)),
        Err(message) => {
            let mut detail = String::from_str("error decoding response body: ");
            detail.append(message.as_str());
            Err(Failure::NetworkFailure { detail })
        },
    }
}

/// The suggestion held by a JSON document, or the reason why it holds none.
///
/// The document must be an object whose members `description` and `command`
/// are both strings; other members are ignored.
pub open spec fn suggestion_in(document: JsonModel) -> Result<CommandSuggestionView, Seq<char>> {
    if !(document is Object) {
        Err("expected a JSON object"@)
    } else {
        match document.member("description"@) {
            None => Err("missing field `description`"@),
            Some(first) => match first.text() {
                None => Err("field `description` is not a string"@),
                Some(description) => match document.member("command"@) {
                    None => Err("missing field `command`"@),
                    Some(second) => match second.text() {
                        None => Err("field `command` is not a string"@),
                        Some(command) => Ok(CommandSuggestionView { description, command }),
                    },
                },
            },
        }
    }
}

/// Reads the suggestion out of a parsed document, or says why there is none.
pub fn read_suggestion(document: &serde_json::Value) -> (outcome: Result<
    CommandSuggestion,
    String,
>)
    ensures
        match outcome {
            Ok(suggestion) => suggestion_in(json_model(*document)) == Ok::<
                CommandSuggestionView,
                Seq<char>,
            >(suggestion@),
            Err(reason) => suggestion_in(json_model(*document)) == Err::<
                CommandSuggestionView,
                Seq<char>,
            >(reason@),
        },
{
    if !is_object(document) {
        return Err(String::from_str("expected a JSON object"));
    }
    let description = match member(document, "description") {
        None => { return Err(String::from_str("missing field `description`")); },
        Some(first) => match as_text(first) {
            None => { return Err(String::from_str("field `description` is not a string")); },
            Some(text) => text.to_owned(),
        },
    };
    let command = match member(document, "command") {
        None => { return Err(String::from_str("missing field `command`")); },
        Some(second) => match as_text(second) {
            None => { return Err(String::from_str("field `command` is not a string")); },
            Some(text) => text.to_owned(),
        },
    };
    Ok(CommandSuggestion { description, command })
}

/// What the model's words amount to: a suggestion, or a malformed reply that
/// carries the reason and the words as they came.
pub open spec fn understood(content: Seq<char>) -> Result<CommandSuggestionView, FailureView> {
    match parsed_json(content) {
        Err(message) => Err(FailureView::MalformedModelReply { reason: message, raw: content }),
        Ok(document) => match suggestion_in(document) {
            Ok(suggestion) => Ok(suggestion),
            Err(reason) => Err(FailureView::MalformedModelReply { reason, raw: content }),
        },
    }
}

/// Reads the model's words as a command suggestion.
///
/// Every failure is a malformed reply whose `raw` is `content`, unchanged.
pub fn parse_suggestion(content: &str) -> (outcome: Result<CommandSuggestion, Failure>)
    ensures
        match outcome {
            Ok(suggestion) => understood(content@) == Ok::<CommandSuggestionView, FailureView>(
                suggestion@,
            ),
            Err(failure) => understood(content@) == Err::<CommandSuggestionView, FailureView>(
                failure@,
            ),
        },
        outcome is Err ==> (outcome matches Err(Failure::MalformedModelReply { raw, .. })
            && raw@ == content@),
        parsed_json(content@) is Err ==> outcome is Err,
{
    match parse_json(content) {
        Err(message) => Err(
            Failure::MalformedModelReply { reason: message, raw: content.to_owned() },
        ),
        Ok(document) => match read_suggestion(&document) {
            Ok(suggestion) => Ok(suggestion),
            Err(reason) => Err(Failure::MalformedModelReply { reason, raw: content.to_owned() }),
        },
    }
}

} // verus!
