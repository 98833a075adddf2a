//! How the player's trace output is written to the log.
use vstd::prelude::*;

verus! {

/// The player's log backend: trace and warning lines go to the program's log.
#[derive(Clone, Copy)]
pub struct ConsoleLogBackend {}

impl Default for ConsoleLogBackend {
    fn default() -> (r: Self) {
        ConsoleLogBackend {}
    }
}

impl ConsoleLogBackend {
    /// The line logged for a `trace()` of the movie.
    pub fn trace_line(&self, message: &str) -> (r: String)
        ensures
            r@ == "[AVM] "@ + message@,
    {
        let mut s = String::from_str("[AVM] ");
        s.append(message);
        s
    }

    /// The line logged for a warning of the movie's script engine.
    pub fn warning_line(&self, message: &str) -> (r: String)
        ensures
            r@ == "[AVM Warning] "@ + message@,
    {
        let mut s = String::from_str("[AVM Warning] ");
        s.append(message);
        s
    }
}

} // verus!
