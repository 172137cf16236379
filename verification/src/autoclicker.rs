//! Auto-clicker process bookkeeping.  The clicking itself is an
//! unimplemented stub in this system; what exists is the PID-file
//! convention that marks one instance as running.

use vstd::prelude::*;
use vstd::string::StringExecFns;

use crate::path_exists;

verus! {

/// Configuration and liveness marker of the auto-clicker.
#[derive(Debug, Clone)]
pub struct AutoClickerProcess {
    /// Clicks per second.
    pub cps: i8,
    /// Random jitter range around `cps`, if any.
    pub range: Option<i8>,
    /// Which mouse button to click.
    pub button: String,
    /// Path of an optional configuration file.
    pub config: Option<String>,
    /// The PID file marking a running instance.
    pub pid_file: String,
    /// Whether this instance asked its worker to run.
    pub running: bool,
}

impl AutoClickerProcess {
    pub fn new(cps: i8, range: Option<i8>, button: &str, config: Option<String>) -> (r:
        AutoClickerProcess)
        ensures
            r.cps == cps,
            r.range == range,
            r.button@ == button@,
            r.config == config,
            r.pid_file@ == "/tmp/autoclicker_process.pid"@,
            !r.running,
    {
        AutoClickerProcess {
            cps,
            range,
            button: button.to_owned(),
            config,
            pid_file: String::from_str("/tmp/autoclicker_process.pid"),
            running: false,
        }
    }

    /// An instance is considered running while its PID file exists.
    pub fn is_running(&self) -> bool {
        path_exists(self.pid_file.as_str())
    }
}

} // verus!
