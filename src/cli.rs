//! The commands of the batch interface, as plain values.

use vstd::prelude::*;

verus! {

#[derive(Clone, Copy, Debug, PartialEq, Eq, Structural)]
pub enum OutputFormat {
    /// Colorized, pretty-printed output.
    Pretty,
    /// The body as received.
    Json,
    /// The body as received, with no line end added.
    Plain,
}

#[allow(inconsistent_fields)]
pub enum Command {
    Get { url: String, headers: Vec<String>, query: Vec<String> },
    Post { url: String, headers: Vec<String>, body: Option<String>, form: Vec<String> },
    Put { url: String, headers: Vec<String>, body: Option<String> },
    Patch { url: String, headers: Vec<String>, body: Option<String> },
    Delete { url: String, headers: Vec<String> },
    Head { url: String, headers: Vec<String> },
    Collection { action: CollectionAction },
    History { limit: usize, clear: bool },
    Config { action: ConfigAction },
    Tui,
}

pub enum CollectionAction {
    List,
    Show { name: String },
    Run { collection: String, request: String },
    Delete { name: String },
}

pub enum ConfigAction {
    Show,
    Assign { key: String, value: String },
    Reset,
}

/// The global options and the command of one invocation.
pub struct Cli {
    pub format: OutputFormat,
    pub verbose: bool,
    pub quiet: bool,
    pub insecure: bool,
    pub timeout: u64,
    pub command: Command,
}

} // verus!
