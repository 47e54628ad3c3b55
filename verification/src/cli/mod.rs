//! Command-line interface: the command line of the gateway, where skills come
//! from, how packages are laid out, and what the marketplace answers mean.

pub mod clawhub;
pub mod installer;
pub mod marketplace;
pub mod package;
pub mod parse;
pub mod skill;

use vstd::prelude::*;
use crate::cli::skill::SkillCommand;
use crate::error::ServerError;

verus! {

/// The command line of the gateway: the configuration file, an optional
/// subcommand, and the server's options for when none is given.
#[derive(Debug)]
pub struct Cli {
    /// Path to the configuration file.
    pub config: String,
    /// The subcommand, if any; without one the server runs.
    pub command: Option<Command>,
    /// Check the health of downstream servers.
    pub check_health: bool,
    /// Seconds between health checks.
    pub check_health_interval: u64,
    /// Root path of the web UI files.
    pub web_ui: String,
    /// Where logs go: `stdout`, `file` or `both`.
    pub log_destination: String,
    /// The log file, for `file` and `both`.
    pub log_file: Option<String>,
}

/// The subcommands.
#[derive(Debug)]
pub enum Command {
    /// Manage skills.
    Skill(SkillCommand),
}


/// The log settings need a file: logs go to `file` or to `both`.
pub open spec fn needs_log_file(destination: Seq<char>) -> bool {
    destination == "file"@ || destination == "both"@
}

impl Cli {
    /// The server's log settings are usable: logs that go to a file need its
    /// path.
    pub fn check_log_options(&self) -> (r: Result<(), ServerError>)
        ensures
            (needs_log_file(self.log_destination@) && self.log_file is None) ==> (r matches Err(ServerError::Operation(m))
                && m@ == "Missing log file path"@),
            !(needs_log_file(self.log_destination@) && self.log_file is None) ==> r is Ok,
    {
        proof {
            reveal_strlit("file");
            reveal_strlit("both");
        }
        let needs = crate::text::str_eq(self.log_destination.as_str(), "file")
            || crate::text::str_eq(self.log_destination.as_str(), "both");
        if needs && self.log_file.is_none() {
            Err(ServerError::Operation(String::from_str("Missing log file path")))
        } else {
            Ok(())
        }
    }
}

} // verus!
