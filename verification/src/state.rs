//! Plain UI state the host application keeps between render ticks.

use vstd::prelude::*;

verus! {

/// The card shown after a step was verified as complete.
#[derive(Debug, Clone)]
pub struct CompletionCard {
    /// The headline naming the finished step.
    pub done: String,
    /// What completing the step changed.
    pub what_changed: Vec<String>,
    /// The commands suggested for the next step.
    pub next_commands: Vec<String>,
    /// Optional verification commands of the next step.
    pub verify_optional: Vec<String>,
}

impl Default for CompletionCard {
    /// An empty card.
    fn default() -> (r: Self)
        ensures
            r.done@.len() == 0,
            r.what_changed@.len() == 0,
            r.next_commands@.len() == 0,
            r.verify_optional@.len() == 0,
    {
        CompletionCard {
            done: String::new(),
            what_changed: Vec::new(),
            next_commands: Vec::new(),
            verify_optional: Vec::new(),
        }
    }
}

} // verus!
