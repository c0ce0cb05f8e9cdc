//! The status report: the machine, the shell, and whether an API key is
//! configured.

use crate::config::{is_key_configured, stored_value, OPENAI_API_KEY};
use crate::request::{HostContext, HostContextView};
use crate::system_info::host_context;
use crate::text::slice_view;
use vstd::prelude::*;

verus! {

/// The word for whether the API key is configured in a configuration file.
pub open spec fn key_answer(content: Option<Seq<char>>) -> Seq<char> {
    if stored_value(content, OPENAI_API_KEY@) is Some {
        "Yes"@
    } else {
        "No"@
    }
}

/// The lines of the status report: a blank line, the operating system's name
/// and version, the shell, whether the API key is configured, a blank line.
pub open spec fn status_text(host: HostContextView, configured: Seq<char>) -> Seq<Seq<char>> {
    seq![
        Seq::<char>::empty(),
        "OS: "@ + host.os_name + " "@ + host.os_version,
        "Shell: "@ + host.shell,
        "OpenAI API Key Configured: "@ + configured,
        Seq::<char>::empty(),
    ]
}

/// Writes the status report for a host and the content of the configuration
/// file, one string for each line.
pub fn status_report(host: &HostContext, config_content: Option<&str>) -> (lines: Vec<String>)
    ensures
        lines.deep_view() == status_text(host@, key_answer(slice_view(config_content))),
{
    let mut system = String::from_str("OS: ");
    system.append(host.os_name.as_str());
    system.append(" ");
    system.append(host.os_version.as_str());
    let mut shell = String::from_str("Shell: ");
    shell.append(host.shell.as_str());
    let mut key = String::from_str("OpenAI API Key Configured: ");
    key.append(is_key_configured(config_content, OPENAI_API_KEY).as_str());
    let mut lines: Vec<String> = Vec::new();
    lines.push(String::new());
    lines.push(system);
    lines.push(shell);
    lines.push(key);
    lines.push(String::new());
    assert(lines.deep_view() =~= status_text(host@, key_answer(slice_view(config_content))));
    lines
}

/// Writes the status report for this machine, as it describes itself at the
/// moment of the call: the report of [`status_report`] for the host that
/// [`host_context`] finds. What the report says of the API key depends on the
/// configuration file alone.
pub fn show_status(config_content: Option<&str>) -> (lines: Vec<String>)
    ensures
        exists|host: HostContextView|
            lines.deep_view() == #[trigger] status_text(
                host,
                key_answer(slice_view(config_content)),
            ),
        lines.len() == 5,
        lines[0]@.len() == 0,
        lines[3]@ == "OpenAI API Key Configured: "@ + key_answer(slice_view(config_content)),
        lines[4]@.len() == 0,
{
    let host = host_context();
    let lines = status_report(&host, config_content);
    proof {
        let text = status_text(host@, key_answer(slice_view(config_content)));
        assert(lines.deep_view().len() == 5);
        assert(lines.deep_view()[0] == text[0]);
        assert(lines.deep_view()[3] == text[3]);
        assert(lines.deep_view()[4] == text[4]);
    }
    lines
}

} // verus!
