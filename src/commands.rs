use vstd::prelude::*;
use crate::config::{Config, Server, find_server};

verus! {

/// The parsed command line: what to do, and the configuration file.
pub struct Cli {
    pub command: Commands,
    pub config: String,
}

/// The operations of the command line.
pub enum Commands {
    /// Back up `source` now.
    Start { remote: Option<String>, path: Option<String>, source: String },
    /// Register a recurring backup of `source` on the cadence `cron`.
    Schedule { cron: String, remote: Option<String>, path: Option<String>, source: String },
    /// Remove registered jobs: the one named `path`, or all of this tool's.
    Clear { path: Option<String>, all: bool },
}

/// The destination that a command names, falling back to the configured
/// default when it names none or one that is not configured.
pub open spec fn chosen_server(servers: Seq<Server>, default: Seq<char>, remote: Option<Seq<char>>) -> Option<Server> {
    let named = match remote {
        Some(n) => find_server(servers, n),
        None => None,
    };
    if named.is_some() {
        named
    } else {
        find_server(servers, default)
    }
}

/// The destination for a command that names `remote`, or the default one.
pub fn choose_server(config: &Config, remote: Option<&String>) -> (r: Option<Server>)
    ensures
        r == chosen_server(
            config.servers@,
            config.default@,
            match remote {
                Some(n) => Some(n@),
                None => None,
            },
        ),
{
    match config.get(remote) {
        Some(s) => Some(s),
        None => config.get_default(),
    }
}

} // verus!
