//! The command line: which command to run.

use vstd::prelude::*;

verus! {

/// The parsed command line.
#[derive(Debug, Clone, PartialEq, Eq)]
pub struct Cli {
    pub command: Option<Commands>,
}

/// The commands of the program.
#[derive(Debug, Clone, PartialEq, Eq)]
pub enum Commands {
    /// Run the web server (the default).
    Server,
    /// Create the database and the configuration file.
    InitDb,
    /// Set the administrator password.
    SetPassword { password: String },
    /// Import an Excel file into the database.
    Import { file: String },
    /// Delete every record.
    Clear,
}

impl Cli {
    /// The command to run: the one given, else the server.
    pub fn command_to_run(self) -> (res: Commands)
        ensures
            res == match self.command {
                Some(c) => c,
                None => Commands::Server,
            },
    {
        match self.command {
            Some(c) => c,
            None => Commands::Server,
        }
    }
}

} // verus!
