use vstd::prelude::*;

verus! {

/// Command-line arguments of the watchdog.
pub struct Args {
    /// The path to the configuration file.
    pub config: String,
}

} // verus!
