//! The ways an operation of the tool can fail, and how each is reported.

use vstd::prelude::*;

verus! {

/// A failure that ends the current subcommand.
#[derive(Debug, PartialEq, Eq)]
pub enum Failure {
    /// No API key is stored in the configuration file.
    CredentialMissing,
    /// The configuration file could not be read, written or encoded.
    ConfigIoFailure { cause: String },
    /// The per-user configuration directory could not be determined.
    ConfigDirUnresolvable,
    /// The request did not get through, or the server answered with a status
    /// other than success; `detail` is the response body where there is one.
    NetworkFailure { detail: String },
    /// The model's answer is not the JSON object that was asked for; `raw` is
    /// the answer as it came.
    MalformedModelReply { reason: String, raw: String },
}

/// A [`Failure`] with its texts as sequences of characters.
pub enum FailureView {
    CredentialMissing,
    ConfigIoFailure { cause: Seq<char> },
    ConfigDirUnresolvable,
    NetworkFailure { detail: Seq<char> },
    MalformedModelReply { reason: Seq<char>, raw: Seq<char> },
}

impl View for Failure {
    type V = FailureView;

    open spec fn view(&self) -> FailureView {
        match *self {
            Failure::CredentialMissing => FailureView::CredentialMissing,
            Failure::ConfigIoFailure { cause } => FailureView::ConfigIoFailure { cause: cause@ },
            Failure::ConfigDirUnresolvable => FailureView::ConfigDirUnresolvable,
            Failure::NetworkFailure { detail } => FailureView::NetworkFailure { detail: detail@ },
            Failure::MalformedModelReply { reason, raw } => FailureView::MalformedModelReply {
                reason: reason@,
                raw: raw@,
            },
        }
    }
}

impl FailureView {
    /// The line shown to the user for this failure.
    pub open spec fn message(self) -> Seq<char> {
        match self {
            FailureView::CredentialMissing => "OpenAI API key not configured"@,
            FailureView::ConfigIoFailure { cause } => "Failed to access config file: "@ + cause,
            FailureView::ConfigDirUnresolvable => "Failed to get config directory"@,
            FailureView::NetworkFailure { detail } => "OpenAI API error: "@ + detail,
            FailureView::MalformedModelReply { reason, raw } => "Failed to parse JSON response: "@
                + reason + "\nRaw response: "@ + raw,
        }
    }
}

impl Failure {
    /// The line shown to the user for this failure.
    pub fn message(&self) -> (text: String)
        ensures
            text@ == self@.message(),
    {
        match self {
            Failure::CredentialMissing => String::from_str("OpenAI API key not configured"),
            Failure::ConfigIoFailure { cause } => {
                let mut text = String::from_str("Failed to access config file: ");
                text.append(cause.as_str());
                text
            },
            Failure::ConfigDirUnresolvable => String::from_str("Failed to get config directory"),
            Failure::NetworkFailure { detail } => {
                let mut text = String::from_str("OpenAI API error: ");
                text.append(detail.as_str());
                text
            },
            Failure::MalformedModelReply { reason, raw } => {
                let mut text = String::from_str("Failed to parse JSON response: ");
                text.append(reason.as_str());
                text.append("\nRaw response: ");
                text.append(raw.as_str());
                text
            },
        }
    }

    /// A copy of this failure.
    pub fn duplicate(&self) -> (copy: Failure)
        ensures
            copy@ == self@,
    {
        match self {
            Failure::CredentialMissing => Failure::CredentialMissing,
            Failure::ConfigIoFailure { cause } => Failure::ConfigIoFailure { cause: cause.clone() },
            Failure::ConfigDirUnresolvable => Failure::ConfigDirUnresolvable,
            Failure::NetworkFailure { detail } => Failure::NetworkFailure { detail: detail.clone() },
            Failure::MalformedModelReply { reason, raw } => Failure::MalformedModelReply {
                reason: reason.clone(),
                raw: raw.clone(),
            },
        }
    }
}

/// The message of a malformed reply ends with the model's answer, character
/// for character, whatever the reason given for rejecting it.
pub proof fn lemma_malformed_message_ends_with_raw(reason: Seq<char>, raw: Seq<char>)
    ensures
        ({
            let message = (FailureView::MalformedModelReply { reason, raw }).message();
            &&& message.len() >= raw.len()
            &&& message.subrange(message.len() - raw.len(), message.len() as int) == raw
        }),
{
    let message = (FailureView::MalformedModelReply { reason, raw }).message();
    assert(message.subrange(message.len() - raw.len(), message.len() as int) =~= raw);
}

/// The message of a network failure ends with the response body, character
/// for character.
pub proof fn lemma_network_message_ends_with_detail(detail: Seq<char>)
    ensures
        ({
            let message = (FailureView::NetworkFailure { detail }).message();
            &&& message.len() >= detail.len()
            &&& message.subrange(message.len() - detail.len(), message.len() as int) == detail
        }),
{
    let message = (FailureView::NetworkFailure { detail }).message();
    assert(message.subrange(message.len() - detail.len(), message.len() as int) =~= detail);
}

} // verus!
