//! Hint generation for the current learning step.

use vstd::prelude::*;
use vstd::string::StringExecFns;

use crate::models::Step;

verus! {

/// Anything that can produce a hint for a step from the recent output.
pub trait CoachAdvisor {
    /// One short hint for the step, given the recent terminal output.
    fn hint(&self, step: &Step, recent_output: &Vec<String>) -> String;
}

/// The hint the deterministic coach gives: the step's own fallback hint, or
/// its first suggested command, or generic advice.
pub open spec fn deterministic_hint_text(step: Step) -> Seq<char> {
    match step.fallback_hint {
        Some(h) => "Hint: "@ + h@,
        None => if step.run_commands@.len() > 0 {
            "Hint: start with `"@ + step.run_commands@[0]@ + "`"@
        } else {
            "Hint: run the first checklist item, then use verify."@
        },
    }
}

/// A coach that needs no network: it reads the step itself.
pub struct DeterministicCoach;

impl DeterministicCoach {
    /// Computes [`deterministic_hint_text`] for the step.
    pub fn step_hint(step: &Step) -> (r: String)
        ensures
            r@ == deterministic_hint_text(*step),
    {
        match &step.fallback_hint {
            Some(h) => {
                let mut r = "Hint: ".to_owned();
                r.append(h.as_str());
                r
            },
            None => {
                if step.run_commands.len() > 0 {
                    let mut r = "Hint: start with `".to_owned();
                    r.append(step.run_commands[0].as_str());
                    r.append("`");
                    proof {
                        assert(r@ =~= "Hint: start with `"@ + step.run_commands@[0]@ + "`"@);
                    }
                    r
                } else {
                    "Hint: run the first checklist item, then use verify.".to_owned()
                }
            },
        }
    }
}

impl CoachAdvisor for DeterministicCoach {
    fn hint(&self, step: &Step, _recent_output: &Vec<String>) -> String {
        DeterministicCoach::step_hint(step)
    }
}

/// The coach the application uses.
pub fn build_coach() -> (r: DeterministicCoach) {
    DeterministicCoach
}

} // verus!
