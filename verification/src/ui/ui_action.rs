//! Actions the UI layer hands to the application loop.

use vstd::prelude::*;

verus! {

/// What the user asked the application to do.
#[derive(Debug, Clone, PartialEq, Eq)]
pub enum UiAction {
    /// Nothing to do.
    Noop,
    /// Save and exit.
    Quit,
    /// Leave the splash screen and start learning.
    StartSession,
    /// Go to the next step.
    NextStep,
    /// Go to the previous step.
    PrevStep,
    /// Jump to the recommended next step.
    JumpRecommended,
    /// Jump back to the last completed step.
    JumpBack,
    /// Run the current step's verification checks.
    Verify,
    /// Ask the coach for a hint.
    Hint,
    /// Load a suggested command, by one-based index when given.
    Suggest(Option<usize>),
    /// Clear the terminal output feed.
    ClearLog,
    /// Show the help overlay.
    ShowHelp,
    /// Close the topmost popup.
    DismissPopup,
    /// Run a command through the guard and the router.
    RunCommand(String),
    /// Run a command past a confirm verdict.
    ForceRunCommand(String),
}

} // verus!
