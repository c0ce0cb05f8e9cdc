//! What the user gets to see: the suggestion under two coloured labels, the
//! menu that follows it, and the closing notice for each choice.

use crate::reply::{CommandSuggestion, CommandSuggestionView};
use vstd::prelude::*;

verus! {

/// The colours used for labels.
#[derive(Clone, Copy, PartialEq, Eq, Structural, Debug)]
pub enum LabelColour {
    Green,
    Yellow,
}

/// A text in bold type and the given colour, for an ANSI terminal: the escape
/// sequence that switches both on, the text, and the sequence that resets.
pub open spec fn bold_label(colour: LabelColour, text: Seq<char>) -> Seq<char> {
    (match colour {
        LabelColour::Green => "\x1B[1;32m"@,
        LabelColour::Yellow => "\x1B[1;33m"@,
    }) + text + "\x1B[0m"@
}

/// `ansi_term::Colour::bold`, `Style::paint` and the painted string's
/// `Display`: the text between the escape sequence for bold type in the
/// colour (`ESC [ 1 ; 32 m` for green, `33` for yellow) and the reset
/// sequence `ESC [ 0 m`.
#[verifier::external_body]
fn paint_bold(colour: LabelColour, text: &str) -> (painted: String)
    ensures
        painted@ == bold_label(colour, text@),
{
    let colour = match colour {
        LabelColour::Green => ansi_term::Colour::Green,
        LabelColour::Yellow => ansi_term::Colour::Yellow,
    };
    colour.bold().paint(text).to_string()
}

/// The lines that show a suggestion: a blank line, the label `Summary:` in
/// green, the description indented by two spaces, a blank line, the label
/// `Command:` in yellow, the command indented likewise, a blank line.
pub open spec fn summary_text(suggestion: CommandSuggestionView) -> Seq<Seq<char>> {
    seq![
        Seq::<char>::empty(),
        bold_label(LabelColour::Green, "Summary:"@),
        "  "@ + suggestion.description,
        Seq::<char>::empty(),
        bold_label(LabelColour::Yellow, "Command:"@),
        "  "@ + suggestion.command,
        Seq::<char>::empty(),
    ]
}

/// Lays out a suggestion for the terminal, one string for each line.
pub fn summary_lines(suggestion: &CommandSuggestion) -> (lines: Vec<String>)
    ensures
        lines.deep_view() == summary_text(suggestion@),
{
    let mut description = String::from_str("  ");
    description.append(suggestion.description.as_str());
    let mut command = String::from_str("  ");
    command.append(suggestion.command.as_str());
    let mut lines: Vec<String> = Vec::new();
    lines.push(String::new());
    lines.push(paint_bold(LabelColour::Green, "Summary:"));
    lines.push(description);
    lines.push(String::new());
    lines.push(paint_bold(LabelColour::Yellow, "Command:"));
    lines.push(command);
    lines.push(String::new());
    assert(lines.deep_view() =~= summary_text(suggestion@));
    lines
}

/// The question put to the user once a suggestion is on the screen.
#[derive(Debug, PartialEq, Eq)]
pub struct Menu {
    pub message: String,
    pub help: String,
    pub options: Vec<String>,
}

/// A [`Menu`] with its texts as sequences of characters.
pub struct MenuView {
    pub message: Seq<char>,
    pub help: Seq<char>,
    pub options: Seq<Seq<char>>,
}

impl View for Menu {
    type V = MenuView;

    open spec fn view(&self) -> MenuView {
        MenuView { message: self.message@, help: self.help@, options: self.options.deep_view() }
    }
}

/// The menu of the tool: two options, `Execute command` first, `Exit` second.
pub open spec fn menu_model() -> MenuView {
    MenuView {
        message: "Choose an option:"@,
        help: "Use arrow keys to navigate"@,
        options: seq!["Execute command"@, "Exit"@],
    }
}

/// Builds the menu.
pub fn menu() -> (menu: Menu)
    ensures
        menu@ == menu_model(),
{
    let mut options: Vec<String> = Vec::new();
    options.push(String::from_str("Execute command"));
    options.push(String::from_str("Exit"));
    assert(options.deep_view() =~= seq!["Execute command"@, "Exit"@]);
    Menu {
        message: String::from_str("Choose an option:"),
        help: String::from_str("Use arrow keys to navigate"),
        options,
    }
}

/// What the user picked from the menu.
#[derive(Clone, Copy, PartialEq, Eq, Structural, Debug)]
pub enum Choice {
    Execute,
    Exit,
}

/// The choice that an option's text stands for; a text that is no option of
/// the menu stands for none.
pub open spec fn choice_of(selected: Seq<char>) -> Option<Choice> {
    if selected == "Execute command"@ {
        Some(Choice::Execute)
    } else if selected == "Exit"@ {
        Some(Choice::Exit)
    } else {
        None
    }
}

/// Reads the option the user selected.
pub fn read_choice(selected: &str) -> (choice: Option<Choice>)
    ensures
        choice == choice_of(selected@),
{
    let selected = selected.to_owned();
    if selected == String::from_str("Execute command") {
        Some(Choice::Execute)
    } else if selected == String::from_str("Exit") {
        Some(Choice::Exit)
    } else {
        None
    }
}

/// The closing lines for a choice. Running the suggested command is not
/// implemented: choosing it prints a notice that says so and runs nothing.
pub open spec fn closing_text(choice: Choice) -> Seq<Seq<char>> {
    match choice {
        Choice::Execute => seq![
            "Executing command..."@,
            "Command execution is not implemented; nothing was run."@,
        ],
        Choice::Exit => seq!["Exiting..."@],
    }
}

/// Writes the closing lines for a choice.
pub fn closing_lines(choice: Choice) -> (lines: Vec<String>)
    ensures
        lines.deep_view() == closing_text(choice),
{
    let mut lines: Vec<String> = Vec::new();
    match choice {
        Choice::Execute => {
            lines.push(String::from_str("Executing command..."));
            lines.push(String::from_str("Command execution is not implemented; nothing was run."));
        },
        Choice::Exit => {
            lines.push(String::from_str("Exiting..."));
        },
    }
    assert(lines.deep_view() =~= closing_text(choice));
    lines
}

} // verus!
