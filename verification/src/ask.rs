//! Asking the model, as a state machine.
//!
//! One question walks through the states of [`AskState`] in order. Each step
//! needs something from outside: the configuration file, the host's
//! description, the network, the terminal. The machine never does that work.
//! It names it as an [`AskAction`]; the caller performs the action, reports
//! what came of it as an [`AskEvent`], and [`step`] decides what follows.
//!
//! Any step can end in `Failed`. There is no retry: a failed question stays
//! failed, whatever is reported afterwards.

use crate::config::{get, stored_value, OPENAI_API_KEY};
use crate::failure::{Failure, FailureView};
use crate::json::parsed_json;
use crate::present::{
    choice_of, closing_lines, closing_text, menu, menu_model, read_choice, summary_lines,
    summary_text, Choice, Menu, MenuView,
};
use crate::reply::{
    is_success_status, parse_suggestion, receive_response, received, understood,
    CommandSuggestion, CommandSuggestionView,
};
use crate::request::{build_request, request_model, HostContext, HostContextView, HttpRequest,
    HttpRequestView};
use crate::text::{as_slice, text_view};
use vstd::prelude::*;

verus! {

/// How far a question has come.
#[derive(Debug, PartialEq, Eq)]
pub enum AskState {
    /// Nothing has happened yet.
    Idle { query: String },
    /// The API key has been read from the configuration.
    KeyLoaded { query: String, api_key: String },
    /// The host is described and the request is built.
    ContextGathered,
    /// The request is on its way.
    RequestSent,
    /// A successful response has come in; `content` is what the model said.
    ResponseReceived { content: String },
    /// The model's words have been read as a suggestion.
    Parsed { suggestion: CommandSuggestion },
    /// The suggestion is on the screen.
    Presented { suggestion: CommandSuggestion },
    /// The user chose to run the command.
    ExecuteChosen { suggestion: CommandSuggestion },
    /// The user chose to leave.
    ExitChosen,
    /// The question failed.
    Failed { failure: Failure },
}

/// What the caller reports back to the machine.
#[derive(Debug, PartialEq, Eq)]
pub enum AskEvent {
    /// The configuration file was looked at; `content` is `None` where it is
    /// missing or cannot be read.
    ConfigRead { content: Option<String> },
    /// The host has been described.
    HostKnown { host: HostContext },
    /// The request went out and a response has begun to arrive.
    RequestDispatched,
    /// The response is complete.
    ResponseArrived { status: u16, body: String },
    /// The request or the response was lost on the way.
    TransportFailed { message: String },
    /// Nothing was to be done outside; the machine may go on.
    Proceed,
    /// The lines handed out were printed.
    Displayed,
    /// The user selected the option with this text.
    Selected { option: String },
}

/// What the machine asks the caller to do next.
#[derive(Debug, PartialEq, Eq)]
pub enum AskAction {
    /// Read the configuration file and report `ConfigRead`.
    ReadConfig,
    /// Describe the host and report `HostKnown`.
    GatherContext,
    /// Send the request and report `RequestDispatched` or `TransportFailed`.
    Send { request: HttpRequest },
    /// Read the response and report `ResponseArrived` or `TransportFailed`.
    AwaitResponse,
    /// Report `Proceed`.
    Continue,
    /// Print the lines and report `Displayed`.
    Show { lines: Vec<String> },
    /// Put the menu to the user, wait for one selection and report
    /// `Selected`.
    Ask { menu: Menu },
    /// Print the lines and end with success.
    Finish { lines: Vec<String> },
    /// End with the failure.
    Abort { failure: Failure },
    /// The event did not belong to the state, which is unchanged: there is
    /// nothing new to do.
    Unexpected,
}

/// An [`AskState`] by content.
pub enum AskStateView {
    Idle { query: Seq<char> },
    KeyLoaded { query: Seq<char>, api_key: Seq<char> },
    ContextGathered,
    RequestSent,
    ResponseReceived { content: Seq<char> },
    Parsed { suggestion: CommandSuggestionView },
    Presented { suggestion: CommandSuggestionView },
    ExecuteChosen { suggestion: CommandSuggestionView },
    ExitChosen,
    Failed { failure: FailureView },
}

/// An [`AskEvent`] by content.
pub enum AskEventView {
    ConfigRead { content: Option<Seq<char>> },
    HostKnown { host: HostContextView },
    RequestDispatched,
    ResponseArrived { status: u16, body: Seq<char> },
    TransportFailed { message: Seq<char> },
    Proceed,
    Displayed,
    Selected { option: Seq<char> },
}

/// An [`AskAction`] by content.
pub enum AskActionView {
    ReadConfig,
    GatherContext,
    Send { request: HttpRequestView },
    AwaitResponse,
    Continue,
    Show { lines: Seq<Seq<char>> },
    Ask { menu: MenuView },
    Finish { lines: Seq<Seq<char>> },
    Abort { failure: FailureView },
    Unexpected,
}

impl View for AskState {
    type V = AskStateView;

    open spec fn view(&self) -> AskStateView {
        match *self {
            AskState::Idle { query } => AskStateView::Idle { query: query@ },
            AskState::KeyLoaded { query, api_key } => AskStateView::KeyLoaded {
                query: query@,
                api_key: api_key@,
            },
            AskState::ContextGathered => AskStateView::ContextGathered,
            AskState::RequestSent => AskStateView::RequestSent,
            AskState::ResponseReceived { content } => AskStateView::ResponseReceived {
                content: content@,
            },
            AskState::Parsed { suggestion } => AskStateView::Parsed { suggestion: suggestion@ },
            AskState::Presented { suggestion } => AskStateView::Presented {
                suggestion: suggestion@,
            },
            AskState::ExecuteChosen { suggestion } => AskStateView::ExecuteChosen {
                suggestion: suggestion@,
            },
            AskState::ExitChosen => AskStateView::ExitChosen,
            AskState::Failed { failure } => AskStateView::Failed { failure: failure@ },
        }
    }
}

impl View for AskEvent {
    type V = AskEventView;

    open spec fn view(&self) -> AskEventView {
        match *self {
            AskEvent::ConfigRead { content } => AskEventView::ConfigRead {
                content: text_view(content),
            },
            AskEvent::HostKnown { host } => AskEventView::HostKnown { host: host@ },
            AskEvent::RequestDispatched => AskEventView::RequestDispatched,
            AskEvent::ResponseArrived { status, body } => AskEventView::ResponseArrived {
                status,
                body: body@,
            },
            AskEvent::TransportFailed { message } => AskEventView::TransportFailed {
                message: message@,
            },
            AskEvent::Proceed => AskEventView::Proceed,
            AskEvent::Displayed => AskEventView::Displayed,
            AskEvent::Selected { option } => AskEventView::Selected { option: option@ },
        }
    }
}

impl View for AskAction {
    type V = AskActionView;

    open spec fn view(&self) -> AskActionView {
        match *self {
            AskAction::ReadConfig => AskActionView::ReadConfig,
            AskAction::GatherContext => AskActionView::GatherContext,
            AskAction::Send { request } => AskActionView::Send { request: request@ },
            AskAction::AwaitResponse => AskActionView::AwaitResponse,
            AskAction::Continue => AskActionView::Continue,
            AskAction::Show { lines } => AskActionView::Show { lines: lines.deep_view() },
            AskAction::Ask { menu } => AskActionView::Ask { menu: menu@ },
            AskAction::Finish { lines } => AskActionView::Finish { lines: lines.deep_view() },
            AskAction::Abort { failure } => AskActionView::Abort { failure: failure@ },
            AskAction::Unexpected => AskActionView::Unexpected,
        }
    }
}

impl AskStateView {
    /// Whether the question has come to an end, one way or the other.
    pub open spec fn is_terminal(self) -> bool {
        self is ExecuteChosen || self is ExitChosen || self is Failed
    }
}

/// The end of a question in failure.
pub open spec fn failed(failure: FailureView) -> (AskStateView, AskActionView) {
    (AskStateView::Failed { failure }, AskActionView::Abort { failure })
}

/// The state that follows `state` on `event`, and what is to be done next.
///
/// An event that the state does not wait for changes nothing.
pub open spec fn next(state: AskStateView, event: AskEventView) -> (AskStateView, AskActionView) {
    match (state, event) {
        (AskStateView::Idle { query }, AskEventView::ConfigRead { content }) => match stored_value(
            content,
            OPENAI_API_KEY@,
        ) {
            Some(api_key) => (
                AskStateView::KeyLoaded { query, api_key },
                AskActionView::GatherContext,
            ),
            None => failed(FailureView::CredentialMissing),
        },
        (AskStateView::KeyLoaded { query, api_key }, AskEventView::HostKnown { host }) => (
            AskStateView::ContextGathered,
            AskActionView::Send { request: request_model(api_key, host, query) },
        ),
        (AskStateView::ContextGathered, AskEventView::RequestDispatched) => (
            AskStateView::RequestSent,
            AskActionView::AwaitResponse,
        ),
        (AskStateView::ContextGathered, AskEventView::TransportFailed { message }) => failed(
            FailureView::NetworkFailure { detail: message },
        ),
        (AskStateView::RequestSent, AskEventView::TransportFailed { message }) => failed(
            FailureView::NetworkFailure { detail: message },
        ),
        (AskStateView::RequestSent, AskEventView::ResponseArrived { status, body }) => match received(
            status,
            body,
        ) {
            Ok(content) => (AskStateView::ResponseReceived { content }, AskActionView::Continue),
            Err(failure) => failed(failure),
        },
        (AskStateView::ResponseReceived { content }, AskEventView::Proceed) => match understood(
            content,
        ) {
            Ok(suggestion) => (
                AskStateView::Parsed { suggestion },
                AskActionView::Show { lines: summary_text(suggestion) },
            ),
            Err(failure) => failed(failure),
        },
        (AskStateView::Parsed { suggestion }, AskEventView::Displayed) => (
            AskStateView::Presented { suggestion },
            AskActionView::Ask { menu: menu_model() },
        ),
        (AskStateView::Presented { suggestion }, AskEventView::Selected { option }) => match choice_of(
            option,
        ) {
            Some(Choice::Execute) => (
                AskStateView::ExecuteChosen { suggestion },
                AskActionView::Finish { lines: closing_text(Choice::Execute) },
            ),
            Some(Choice::Exit) => (
                AskStateView::ExitChosen,
                AskActionView::Finish { lines: closing_text(Choice::Exit) },
            ),
            None => (state, AskActionView::Unexpected),
        },
        _ => (state, AskActionView::Unexpected),
    }
}

/// Begins a question: nothing has happened yet, and the configuration is to
/// be read.
pub fn start(query: String) -> (begun: (AskState, AskAction))
    ensures
        begun.0@ == (AskStateView::Idle { query: query@ }),
        begun.1@ == AskActionView::ReadConfig,
{
    (AskState::Idle { query }, AskAction::ReadConfig)
}

/// Ends a question in failure.
fn fail(failure: Failure) -> (ended: (AskState, AskAction))
    ensures
        (ended.0@, ended.1@) == failed(failure@),
{
    let copy = failure.duplicate();
    (AskState::Failed { failure }, AskAction::Abort { failure: copy })
}

/// Takes the machine one step on: from `state`, on `event`, to the state that
/// follows, with the action the caller is to perform next.
pub fn step(state: AskState, event: AskEvent) -> (moved: (AskState, AskAction))
    ensures
        (moved.0@, moved.1@) == next(state@, event@),
{
    match state {
        AskState::Idle { query } => match event {
            AskEvent::ConfigRead { content } => {
                match get(as_slice(&content), OPENAI_API_KEY) {
                    Some(api_key) => (AskState::KeyLoaded { query, api_key }, AskAction::GatherContext),
                    None => fail(Failure::CredentialMissing),
                }
            },
            _ => (AskState::Idle { query }, AskAction::Unexpected),
        },
        AskState::KeyLoaded { query, api_key } => match event {
            AskEvent::HostKnown { host } => {
                let request = build_request(api_key.as_str(), &host, query.as_str());
                (AskState::ContextGathered, AskAction::Send { request })
            },
            _ => (AskState::KeyLoaded { query, api_key }, AskAction::Unexpected),
        },
        AskState::ContextGathered => match event {
            AskEvent::RequestDispatched => (AskState::RequestSent, AskAction::AwaitResponse),
            AskEvent::TransportFailed { message } => fail(
                Failure::NetworkFailure { detail: message },
            ),
            _ => (AskState::ContextGathered, AskAction::Unexpected),
        },
        AskState::RequestSent => match event {
            AskEvent::TransportFailed { message } => fail(
                Failure::NetworkFailure { detail: message },
            ),
            AskEvent::ResponseArrived { status, body } => match receive_response(
                status,
                body.as_str(),
            ) {
                Ok(content) => (AskState::ResponseReceived { content }, AskAction::Continue),
                Err(failure) => fail(failure),
            },
            _ => (AskState::RequestSent, AskAction::Unexpected),
        },
        AskState::ResponseReceived { content } => match event {
            AskEvent::Proceed => match parse_suggestion(content.as_str()) {
                Ok(suggestion) => {
                    let lines = summary_lines(&suggestion);
                    (AskState::Parsed { suggestion }, AskAction::Show { lines })
                },
                Err(failure) => fail(failure),
            },
            _ => (AskState::ResponseReceived { content }, AskAction::Unexpected),
        },
        AskState::Parsed { suggestion } => match event {
            AskEvent::Displayed => (
                AskState::Presented { suggestion },
                AskAction::Ask { menu: menu() },
            ),
            _ => (AskState::Parsed { suggestion }, AskAction::Unexpected),
        },
        AskState::Presented { suggestion } => match event {
            AskEvent::Selected { option } => match read_choice(option.as_str()) {
                Some(Choice::Execute) => (
                    AskState::ExecuteChosen { suggestion },
                    AskAction::Finish { lines: closing_lines(Choice::Execute) },
                ),
                Some(Choice::Exit) => (
                    AskState::ExitChosen,
                    AskAction::Finish { lines: closing_lines(Choice::Exit) },
                ),
                None => (AskState::Presented { suggestion }, AskAction::Unexpected),
            },
            _ => (AskState::Presented { suggestion }, AskAction::Unexpected),
        },
        AskState::ExecuteChosen { suggestion } => (
            AskState::ExecuteChosen { suggestion },
            AskAction::Unexpected,
        ),
        AskState::ExitChosen => (AskState::ExitChosen, AskAction::Unexpected),
        AskState::Failed { failure } => (AskState::Failed { failure }, AskAction::Unexpected),
    }
}

/// A response with a status other than success fails the question: the
/// failure is a network failure that carries the body as it came, and the
/// body is not looked into.
pub proof fn lemma_bad_status_fails(status: u16, body: Seq<char>)
    requires
        !is_success_status(status),
    ensures
        next(AskStateView::RequestSent, AskEventView::ResponseArrived { status, body }) == failed(
            FailureView::NetworkFailure { detail: body },
        ),
{
}

/// A question that has ended stays where it is: no event moves it, and
/// nothing more is asked of the caller. So nothing follows a failure.
pub proof fn lemma_ended_stays(state: AskStateView, event: AskEventView)
    requires
        state.is_terminal(),
    ensures
        next(state, event) == (state, AskActionView::Unexpected),
{
}

/// The only way into `Parsed` is from `ResponseReceived`: a suggestion is
/// read from nothing but the content of a response that came with a status of
/// success.
pub proof fn lemma_parsed_follows_response(state: AskStateView, event: AskEventView)
    requires
        next(state, event).0 is Parsed,
        !(state is Parsed),
    ensures
        state is ResponseReceived,
        event is Proceed,
{
}

/// The only way into `ResponseReceived` is a response with a status of
/// success, reported while the request is out.
pub proof fn lemma_response_received_needs_success(state: AskStateView, event: AskEventView)
    requires
        next(state, event).0 is ResponseReceived,
        !(state is ResponseReceived),
    ensures
        state is RequestSent,
        event matches AskEventView::ResponseArrived { status, .. } && is_success_status(status),
{
}

/// Words of the model that are not JSON fail the question as a malformed
/// reply, which carries the parser's message and the words as they came.
pub proof fn lemma_invalid_json_is_malformed(content: Seq<char>)
    ensures
        parsed_json(content) matches Err(reason) ==> next(
            AskStateView::ResponseReceived { content },
            AskEventView::Proceed,
        ) == failed(FailureView::MalformedModelReply { reason, raw: content }),
{
}

/// Without a key in the configuration the question fails before anything is
/// sent: the caller is asked to abort, not to gather context or to send.
pub proof fn lemma_no_key_fails_first(query: Seq<char>, content: Option<Seq<char>>)
    ensures
        stored_value(content, OPENAI_API_KEY@) is None ==> next(
            AskStateView::Idle { query },
            AskEventView::ConfigRead { content },
        ) == failed(FailureView::CredentialMissing),
{
}

} // verus!
