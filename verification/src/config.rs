//! Settings of the program.

use vstd::prelude::*;

verus! {

/// Seconds a copied secret stays on the clipboard unless configured.
pub const DEFAULT_CLEAR_COPY_TIMEOUT: u64 = 5;

/// The program's settings.
#[derive(Clone, Debug)]
pub struct Config {
    /// Seconds after which a copied secret is cleared from the clipboard.
    pub clear_copy_timeout: u64,
}

impl Config {
    /// The settings used where none are stored.
    pub fn new() -> (r: Config)
        ensures
            r.clear_copy_timeout == DEFAULT_CLEAR_COPY_TIMEOUT,
    {
        Config { clear_copy_timeout: DEFAULT_CLEAR_COPY_TIMEOUT }
    }
}

impl Default for Config {
    fn default() -> (r: Config)
        ensures
            r.clear_copy_timeout == DEFAULT_CLEAR_COPY_TIMEOUT,
    {
        Config::new()
    }
}

} // verus!
