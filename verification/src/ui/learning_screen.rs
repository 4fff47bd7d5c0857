//! State of the learning screen between render ticks.

use vstd::prelude::*;
use vstd::string::StringExecFns;

use crate::state::CompletionCard;

verus! {

/// Everything the learning screen remembers between ticks.
pub struct LearningScreen {
    /// What the user has typed into the command bar.
    pub command_input: String,
    /// The one-line status under the feed.
    pub status: String,
    /// The terminal output feed.
    pub output_log: Vec<String>,
    /// The last hint, when one was asked for.
    pub hint_message: Option<String>,
    /// The card shown after a completed step.
    pub completion_card: Option<CompletionCard>,
    /// Which suggestion the Tab key loads next.
    pub tab_index: usize,
    /// Whether the next render is the first.
    pub first_render: bool,
    /// The animation tick.
    pub tick: usize,
}

impl LearningScreen {
    /// A fresh screen showing the given status and a greeting line.
    pub fn new(status: String) -> (r: Self)
        ensures
            r.command_input@.len() == 0,
            r.status@ == status@,
            r.output_log.deep_view() == seq!["CKA Coach terminal started (/bin/zsh)."@],
            r.hint_message is None,
            r.completion_card is None,
            r.tab_index == 0,
            r.first_render,
            r.tick == 0,
    {
        let mut output_log: Vec<String> = Vec::new();
        output_log.push("CKA Coach terminal started (/bin/zsh).".to_owned());
        proof {
            assert(output_log.deep_view() =~= seq!["CKA Coach terminal started (/bin/zsh)."@]);
        }
        LearningScreen {
            command_input: String::new(),
            status,
            output_log,
            hint_message: None,
            completion_card: None,
            tab_index: 0,
            first_render: true,
            tick: 0,
        }
    }
}

} // verus!
