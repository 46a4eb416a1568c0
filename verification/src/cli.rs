//! The commands of the command-line front end.
use vstd::prelude::*;

use crate::usage::SourceMode;

verus! {

/// What `config` can do.
#[derive(Clone, Copy, Debug, PartialEq, Eq, Structural)]
pub enum ConfigCommand {
    /// Print the resolved configuration path.
    Path,
}

/// A command.
#[allow(inconsistent_fields)]
pub enum Command {
    /// Print a health answer that echoes `message`.
    Ping { message: String },
    /// Run a prompt through a provider.
    Run { provider: String, prompt: String, model: Option<String>, base_url: Option<String> },
    /// List the providers.
    Providers,
    /// Report provider status.
    Status {
        json: bool,
        source: Option<SourceMode>,
        provider: Option<String>,
        refresh: bool,
        no_cache: bool,
    },
    /// Configuration commands.
    Config { command: ConfigCommand },
    /// Run local diagnostics.
    Doctor { json: bool, source: Option<SourceMode> },
}

/// The parsed command line.
pub struct Cli {
    pub command: Command,
}

} // verus!
