//! Decision logic of `tt`, a terminal helper that turns a natural-language
//! question into a shell command suggestion by asking a chat-completion API.
//!
//! The crate holds everything the tool decides: what the configuration file
//! says and what it becomes, which request goes out, how a reply is read, what
//! is shown, and what a menu choice means. Reading files, talking to the
//! network and to the terminal are left to the program built around it.

pub mod ask;
pub mod config;
pub mod failure;
pub mod json;
pub mod present;
pub mod reply;
pub mod request;
pub mod status;
pub mod system_info;
pub mod text;
