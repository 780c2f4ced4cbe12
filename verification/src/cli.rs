//! The command-line surface, as plain data. Argument parsing itself is I/O
//! plumbing and lives outside this library; it hands over one of these.

use vstd::prelude::*;

verus! {

/// A parsed command line: one subcommand.
pub struct Cli {
    pub command: Commands,
}

/// The subcommands: add a task, list tasks with filters, or open the
/// interactive editor.
pub enum Commands {
    Add {
        description: String,
        priority: Option<u8>,
        due: Option<String>,
        tags: Option<Vec<String>>,
        notes: Option<String>,
    },
    List { all: bool, priority: Option<u8>, tag: Option<String>, due: Option<String> },
    Edit,
}

} // verus!
