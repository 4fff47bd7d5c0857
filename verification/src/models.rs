//! The learning content consumed by the dispatch subsystem's collaborators.
//!
//! Steps are produced by a content loader outside this crate; here they are
//! plain data that the coach and the verification checks read.

use vstd::prelude::*;

verus! {

/// The kind of learning step, deciding its default readiness weight.
#[derive(Debug, Clone, PartialEq, Eq, Structural)]
pub enum StepType {
    /// A guided build-something exercise.
    Project,
    /// A broken-cluster diagnosis exercise.
    Bug,
    /// A timed exam-style drill.
    Exam,
}

/// One learning step: objective, suggested commands, and how to verify it.
#[derive(Debug, Clone)]
pub struct Step {
    /// The stable identifier steps are sorted and tracked by.
    pub id: String,
    /// The display title.
    pub title: String,
    /// The kind of step.
    pub step_type: StepType,
    /// The exam domains the step belongs to.
    pub domains: Vec<String>,
    /// The display difficulty.
    pub difficulty: String,
    /// The suggested time budget in minutes.
    pub timebox_min: u32,
    /// What the learner is meant to achieve.
    pub objective: String,
    /// The checklist items shown for the step.
    pub run_items: Vec<String>,
    /// The commands suggested to run.
    pub run_commands: Vec<String>,
    /// The commands that decide completion, when given explicitly.
    pub success_check_commands: Vec<String>,
    /// Texts the collected check output must contain.
    pub success_contains: Vec<String>,
    /// The fallback verification commands.
    pub verify_commands: Vec<String>,
    /// A hand-written hint, when the step has one.
    pub fallback_hint: Option<String>,
    /// What completing the step changed, for the completion card.
    pub what_changed: Vec<String>,
    /// Whether the step may be skipped.
    pub optional: bool,
    /// The content file the step came from.
    pub path: String,
    /// The step's weight in the readiness score.
    pub ready_weight: u32,
}

} // verus!
