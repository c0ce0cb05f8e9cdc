//! What the machine says about itself: the operating system's name and
//! version, and the name of the shell the tool was started from.
//!
//! The questions are put to `sysinfo`; the answers depend on the machine, so
//! nothing is claimed about them. What is done with an answer, and with the
//! lack of one, is decided here.

use crate::request::{HostContext, HostContextView};
use crate::text::{known_or, text_or, text_view};
use vstd::prelude::*;

verus! {

/// `sysinfo::System`, taken as it is: a view of the running system that is
/// handed to the functions below and never looked into.
#[verifier::external_type_specification]
#[verifier::external_body]
pub struct ExSystem(sysinfo::System);

/// One process of a snapshot of the process table.
#[derive(Debug, PartialEq, Eq)]
pub struct ProcessEntry {
    pub pid: u32,
    /// The process that started this one, where that is known.
    pub parent: Option<u32>,
    pub name: String,
}

/// A [`ProcessEntry`] with its name as a sequence of characters.
pub struct ProcessView {
    pub pid: u32,
    pub parent: Option<u32>,
    pub name: Seq<char>,
}

impl DeepView for ProcessEntry {
    type V = ProcessView;

    open spec fn deep_view(&self) -> ProcessView {
        ProcessView { pid: self.pid, parent: self.parent, name: self.name@ }
    }
}

/// `sysinfo::System::new_with_specifics`, asked for the process list and
/// nothing else: a view of the system as it is at the moment of the call.
#[verifier::external_body]
fn load_system() -> sysinfo::System {
    sysinfo::SystemExt::new_with_specifics(
        sysinfo::RefreshKind::new().with_processes(sysinfo::ProcessRefreshKind::new()),
    )
}

/// `sysinfo::SystemExt::name`: the operating system's name, where the system
/// tells it.
#[verifier::external_body]
fn system_name(system: &sysinfo::System) -> Option<String> {
    sysinfo::SystemExt::name(system)
}

/// `sysinfo::SystemExt::os_version`: the operating system's version, where
/// the system tells it.
#[verifier::external_body]
fn system_os_version(system: &sysinfo::System) -> Option<String> {
    sysinfo::SystemExt::os_version(system)
}

/// `sysinfo::get_current_pid`: the number of this process, where it can be
/// had.
#[verifier::external_body]
fn current_pid() -> Option<u32> {
    sysinfo::get_current_pid().ok().map(sysinfo::PidExt::as_u32)
}

/// `sysinfo::SystemExt::processes`: the processes the system view holds, each
/// with its number, its parent's number (`ProcessExt::parent`) and its name
/// (`ProcessExt::name`), in no particular order.
#[verifier::external_body]
fn process_entries(system: &sysinfo::System) -> Vec<ProcessEntry> {
    sysinfo::SystemExt::processes(system).iter().map(
        |(pid, process)|
            ProcessEntry {
                pid: sysinfo::PidExt::as_u32(*pid),
                parent: sysinfo::ProcessExt::parent(process).map(sysinfo::PidExt::as_u32),
                name: sysinfo::ProcessExt::name(process).to_string(),
            },
    ).collect()
}

/// A part of the operating system's description: what the system told, or
/// `Unknown` where it told nothing.
pub open spec fn os_text(told: Option<Seq<char>>) -> Seq<char> {
    text_or(told, "Unknown"@)
}

/// The operating system's name and version as they are reported, with
/// `Unknown` in place of each one that the system did not tell.
pub fn os_info_from(name: Option<String>, version: Option<String>) -> (info: (String, String))
    ensures
        info.0@ == os_text(text_view(name)),
        info.1@ == os_text(text_view(version)),
{
    (known_or(name, "Unknown"), known_or(version, "Unknown"))
}

/// The position of the first entry with the number `pid`.
pub open spec fn position_of(table: Seq<ProcessView>, pid: u32) -> Option<int>
    decreases table.len(),
{
    if table.len() == 0 {
        None
    } else if table[0].pid == pid {
        Some(0)
    } else {
        match position_of(table.drop_first(), pid) {
            Some(rest) => Some(rest + 1),
            None => None,
        }
    }
}

/// The first entry with the number `pid`.
pub open spec fn entry_of(table: Seq<ProcessView>, pid: u32) -> Option<ProcessView> {
    match position_of(table, pid) {
        Some(position) => Some(table[position]),
        None => None,
    }
}

/// What [`position_of`] finds is an entry with that number, with no such
/// entry before it; where it finds nothing, the table holds none.
pub proof fn lemma_position_of(table: Seq<ProcessView>, pid: u32)
    ensures
        match position_of(table, pid) {
            Some(position) => {
                &&& 0 <= position < table.len()
                &&& table[position].pid == pid
                &&& forall|earlier: int| 0 <= earlier < position ==> table[earlier].pid != pid
            },
            None => forall|index: int| 0 <= index < table.len() ==> table[index].pid != pid,
        },
    decreases table.len(),
{
    if table.len() > 0 && table[0].pid != pid {
        let rest = table.drop_first();
        lemma_position_of(rest, pid);
        match position_of(rest, pid) {
            Some(position) => {
                assert forall|earlier: int| 0 <= earlier < position + 1 implies table[earlier].pid
                    != pid by {
                    if earlier > 0 {
                        assert(table[earlier] == rest[earlier - 1]);
                    }
                }
            },
            None => {
                assert forall|index: int| 0 <= index < table.len() implies table[index].pid
                    != pid by {
                    if index > 0 {
                        assert(table[index] == rest[index - 1]);
                    }
                }
            },
        }
    }
}

/// An entry with the number `pid` that has no such entry before it is the one
/// [`position_of`] finds.
pub proof fn lemma_first_match_is_position(table: Seq<ProcessView>, pid: u32, position: int)
    requires
        0 <= position < table.len(),
        table[position].pid == pid,
        forall|earlier: int| 0 <= earlier < position ==> table[earlier].pid != pid,
    ensures
        position_of(table, pid) == Some(position),
{
    lemma_position_of(table, pid);
}

/// No entry with the number `pid`: [`position_of`] finds nothing.
pub proof fn lemma_no_match_is_none(table: Seq<ProcessView>, pid: u32)
    requires
        forall|index: int| 0 <= index < table.len() ==> table[index].pid != pid,
    ensures
        position_of(table, pid) is None,
{
    lemma_position_of(table, pid);
}

/// Finds the first entry with the number `pid`.
pub fn find_process(table: &Vec<ProcessEntry>, pid: u32) -> (found: Option<usize>)
    ensures
        match found {
            Some(position) => position_of(table.deep_view(), pid) == Some(position as int),
            None => position_of(table.deep_view(), pid) is None,
        },
        found matches Some(position) ==> position < table.len(),
{
    let mut index: usize = 0;
    while index < table.len()
        invariant
            index <= table.len(),
            forall|earlier: int|
                0 <= earlier < index ==> (#[trigger] table.deep_view()[earlier]).pid != pid,
        decreases table.len() - index,
    {
        if table[index].pid == pid {
            proof {
                assert(table.deep_view()[index as int].pid == pid);
                lemma_first_match_is_position(table.deep_view(), pid, index as int);
            }
            return Some(index);
        }
        assert(table.deep_view()[index as int].pid != pid);
        index += 1;
    }
    proof {
        lemma_no_match_is_none(table.deep_view(), pid);
    }
    None
}

/// The name of the process that started the process `current`: the name of
/// the entry whose number is the `parent` of the entry for `current`. There
/// is none where `current` is unknown, has no entry or no known parent, or
/// where the parent has no entry.
pub open spec fn parent_name(current: Option<u32>, table: Seq<ProcessView>) -> Option<Seq<char>> {
    match current {
        None => None,
        Some(pid) => match entry_of(table, pid) {
            None => None,
            Some(process) => match process.parent {
                None => None,
                Some(parent) => match entry_of(table, parent) {
                    None => None,
                    Some(shell) => Some(shell.name),
                },
            },
        },
    }
}

/// The shell's name for a current process and a process table: the name of
/// the process that started the current one, or `Unknown shell` where that
/// cannot be told.
pub open spec fn shell_text(current: Option<u32>, table: Seq<ProcessView>) -> Seq<char> {
    text_or(parent_name(current, table), "Unknown shell"@)
}

/// The host context made of the system's answers.
pub open spec fn host_model(
    name: Option<Seq<char>>,
    version: Option<Seq<char>>,
    current: Option<u32>,
    table: Seq<ProcessView>,
) -> HostContextView {
    HostContextView {
        os_name: os_text(name),
        os_version: os_text(version),
        shell: shell_text(current, table),
    }
}

/// The shell's name for a snapshot of the process table: the name of the
/// process that started `current`, or `Unknown shell` where that cannot be
/// told.
pub fn shell_name(current: Option<u32>, table: &Vec<ProcessEntry>) -> (name: String)
    ensures
        name@ == shell_text(current, table.deep_view()),
{
    let parent = match current {
        None => None,
        Some(pid) => match find_process(table, pid) {
            None => None,
            Some(position) => {
                assert(table.deep_view()[position as int].parent == table[position as int].parent);
                table[position].parent
            },
        },
    };
    let found = match parent {
        None => None,
        Some(pid) => find_process(table, pid),
    };
    match found {
        None => String::from_str("Unknown shell"),
        Some(position) => {
            assert(table.deep_view()[position as int].name == table[position as int].name@);
            table[position].name.clone()
        },
    }
}

/// Asks the system for its name and version. Each is `Unknown` where the
/// system does not tell it; there is no failure.
///
/// What the system answers is not known before the call, so the contract
/// says only how the result is made of the answers, by [`os_info_from`].
pub fn get_os_info() -> (info: (String, String))
    ensures
        exists|name: Option<Seq<char>>, version: Option<Seq<char>>|
            info.0@ == #[trigger] os_text(name) && info.1@ == #[trigger] os_text(version),
{
    let system = load_system();
    let name = system_name(&system);
    let version = system_os_version(&system);
    let ghost told = (text_view(name), text_view(version));
    let info = os_info_from(name, version);
    assert(info.0@ == os_text(told.0) && info.1@ == os_text(told.1));
    info
}

/// Asks the system for the name of the process that started this one, which
/// is the shell where the tool is called from one. It is `Unknown shell`
/// where the current process, its parent or the parent's name cannot be
/// determined; there is no failure.
///
/// The process table is not known before the call, so the contract says only
/// how the result is made of it, by [`shell_name`].
pub fn get_shell_info() -> (name: String)
    ensures
        exists|current: Option<u32>, table: Seq<ProcessView>|
            name@ == #[trigger] shell_text(current, table),
{
    let system = load_system();
    let table = process_entries(&system);
    let current = current_pid();
    let name = shell_name(current, &table);
    assert(name@ == shell_text(current, table.deep_view()));
    name
}

/// Gathers the host context for a question: what [`get_os_info`] and
/// [`get_shell_info`] answer at the moment of the call.
pub fn host_context() -> (context: HostContext)
    ensures
        exists|
            name: Option<Seq<char>>,
            version: Option<Seq<char>>,
            current: Option<u32>,
            table: Seq<ProcessView>,
        |
            context@ == #[trigger] host_model(name, version, current, table),
{
    let (os_name, os_version) = get_os_info();
    let shell = get_shell_info();
    proof {
        let (name, version) = choose|name: Option<Seq<char>>, version: Option<Seq<char>>|
            os_name@ == #[trigger] os_text(name) && os_version@ == #[trigger] os_text(version);
        let (current, table) = choose|current: Option<u32>, table: Seq<ProcessView>|
            shell@ == #[trigger] shell_text(current, table);
        assert(HostContextView { os_name: os_name@, os_version: os_version@, shell: shell@ }
            == host_model(name, version, current, table));
    }
    HostContext { os_name, os_version, shell }
}

} // verus!
