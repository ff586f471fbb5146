//! Settings of a bridge instance.

use vstd::prelude::*;

verus! {

/// The port the bridge listens on unless told otherwise.
pub const DEFAULT_PORT: u16 = 58421;

/// Settings of a bridge instance.
#[derive(Clone, Debug)]
pub struct Config {
    pub port: u16,
    pub agents_dir: String,
}

impl Default for Config {
    /// Port 58421 and the agents directory `./agents`.
    fn default() -> (r: Config)
        ensures
            r.port == DEFAULT_PORT,
            r.agents_dir@ == "./agents"@,
    {
        Config { port: DEFAULT_PORT, agents_dir: String::from_str("./agents") }
    }
}

} // verus!
