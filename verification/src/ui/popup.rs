//! The overlay messages the UI can show on top of a screen.

use vstd::prelude::*;
use vstd::string::StringExecFns;

verus! {

/// One popup overlay.
#[derive(Debug, Clone)]
pub enum PopupMessage {
    /// The celebration after a verified step.
    StepComplete {
        /// The headline naming the finished step.
        title: String,
        /// What completing the step changed.
        what_changed: Vec<String>,
        /// The commands suggested for the next step.
        next_commands: Vec<String>,
        /// The readiness score before completion.
        readiness_before: u8,
        /// The readiness score after completion.
        readiness_after: u8,
    },
    /// The command reference.
    Help {
        /// Pairs of command and description.
        commands: Vec<(&'static str, &'static str)>,
    },
    /// A failed verification run.
    VerifyFail {
        /// Why verification failed.
        message: String,
    },
    /// The paged first-run tutorial.
    Tutorial {
        /// The page shown, counted from zero.
        page: usize,
        /// How many pages there are.
        total_pages: usize,
        /// Each page's title and body lines.
        content: Vec<(String, Vec<String>)>,
    },
}

/// The command reference's rows.
pub open spec fn help_commands() -> Seq<(Seq<char>, Seq<char>)> {
    seq![
        ("/new"@, "Reset progress and restart from Project 00"@),
        ("/next"@, "Go to the next step"@),
        ("/prev"@, "Go to the previous step"@),
        ("/back"@, "Jump to last completed step"@),
        ("/recommended"@, "Jump to recommended next step"@),
        ("/verify"@, "Run verification checks"@),
        ("/hint"@, "Get a contextual hint from the coach"@),
        ("/suggest [n]"@, "Load a suggested command"@),
        ("/clear"@, "Clear the terminal output"@),
        ("/help"@, "Show this help overlay"@),
        ("/shell"@, "Show current shell mode"@),
        ("/shell embedded"@, "Use embedded PTY runner"@),
        ("/shell external"@, "Pair to one external terminal via PIN command"@),
        ("/quit"@, "Save progress and exit"@),
        ("Ctrl+C"@, "Quick quit from anywhere"@),
    ]
}

/// A page's worth of tutorial text.
pub open spec fn tutorial_pages() -> Seq<(Seq<char>, Seq<Seq<char>>)> {
    seq![
        (
            "Welcome to CKA Buddy"@,
            seq![
                "CKA Buddy is an interactive Kubernetes exam preparation tool."@,
                "It guides you through hands-on exercises that mirror the CKA exam."@,
                ""@,
                "You'll work with a real terminal — run kubectl commands directly."@,
                "Each step has an objective, suggested commands, and verification."@,
            ],
        ),
        (
            "Commands"@,
            seq![
                "/next, /prev     — Navigate between steps"@,
                "/recommended     — Jump to suggested next step"@,
                "/back            — Return to last completed step"@,
                "/verify          — Check if current step is done"@,
                "/hint            — Get a contextual hint"@,
                "/suggest [n]     — Load a suggested command"@,
                "/clear           — Clear terminal output"@,
                "/help            — Show command reference"@,
                "/new             — Reset progress and restart"@,
                "/quit            — Save and exit"@,
                ""@,
                "Or type any kubectl command directly to execute it."@,
            ],
        ),
        (
            "Interface Guide"@,
            seq![
                "Header:     Shows readiness %, step info, and progress bar"@,
                "Step Panel: Objective, domains, difficulty, and suggested commands"@,
                "Terminal:   Live output from your kubectl commands"@,
                "Command Bar: Type commands here. Slash commands for navigation."@,
                ""@,
                "Wide terminals (120+ cols) show an Activity Rail on the right."@,
                "Your progress is saved automatically."@,
            ],
        ),
    ]
}

/// The page index after moving `delta` pages, clamped to the valid range.
pub open spec fn clamped_page(page: int, delta: int, total_pages: int) -> int {
    let moved = page + delta;
    if moved < 0 {
        0
    } else if moved > total_pages - 1 {
        total_pages - 1
    } else {
        moved
    }
}

impl PopupMessage {
    /// The command reference overlay.
    pub fn help() -> (r: Self)
        ensures
            r matches PopupMessage::Help { commands } && commands.deep_view() == help_commands(),
    {
        let mut commands: Vec<(&'static str, &'static str)> = Vec::new();
        commands.push(("/new", "Reset progress and restart from Project 00"));
        commands.push(("/next", "Go to the next step"));
        commands.push(("/prev", "Go to the previous step"));
        commands.push(("/back", "Jump to last completed step"));
        commands.push(("/recommended", "Jump to recommended next step"));
        commands.push(("/verify", "Run verification checks"));
        commands.push(("/hint", "Get a contextual hint from the coach"));
        commands.push(("/suggest [n]", "Load a suggested command"));
        commands.push(("/clear", "Clear the terminal output"));
        commands.push(("/help", "Show this help overlay"));
        commands.push(("/shell", "Show current shell mode"));
        commands.push(("/shell embedded", "Use embedded PTY runner"));
        commands.push(("/shell external", "Pair to one external terminal via PIN command"));
        commands.push(("/quit", "Save progress and exit"));
        commands.push(("Ctrl+C", "Quick quit from anywhere"));
        proof {
            assert(commands.deep_view() =~= help_commands());
        }
        PopupMessage::Help { commands }
    }

    /// The first-run tutorial overlay, opened at its first page.
    pub fn tutorial() -> (r: Self)
        ensures
            r matches PopupMessage::Tutorial { page, total_pages, content } && page == 0
                && total_pages == 3 && content.deep_view() == tutorial_pages(),
    {
        let mut welcome: Vec<String> = Vec::new();
        welcome.push("CKA Buddy is an interactive Kubernetes exam preparation tool.".to_owned());
        welcome.push(
            "It guides you through hands-on exercises that mirror the CKA exam.".to_owned(),
        );
        welcome.push("".to_owned());
        welcome.push(
            "You'll work with a real terminal — run kubectl commands directly.".to_owned(),
        );
        welcome.push(
            "Each step has an objective, suggested commands, and verification.".to_owned(),
        );

        let mut command_lines: Vec<String> = Vec::new();
        command_lines.push("/next, /prev     — Navigate between steps".to_owned());
        command_lines.push("/recommended     — Jump to suggested next step".to_owned());
        command_lines.push("/back            — Return to last completed step".to_owned());
        command_lines.push("/verify          — Check if current step is done".to_owned());
        command_lines.push("/hint            — Get a contextual hint".to_owned());
        command_lines.push("/suggest [n]     — Load a suggested command".to_owned());
        command_lines.push("/clear           — Clear terminal output".to_owned());
        command_lines.push("/help            — Show command reference".to_owned());
        command_lines.push("/new             — Reset progress and restart".to_owned());
        command_lines.push("/quit            — Save and exit".to_owned());
        command_lines.push("".to_owned());
        command_lines.push("Or type any kubectl command directly to execute it.".to_owned());

        let mut interface_lines: Vec<String> = Vec::new();
        interface_lines.push(
            "Header:     Shows readiness %, step info, and progress bar".to_owned(),
        );
        interface_lines.push(
            "Step Panel: Objective, domains, difficulty, and suggested commands".to_owned(),
        );
        interface_lines.push("Terminal:   Live output from your kubectl commands".to_owned());
        interface_lines.push(
            "Command Bar: Type commands here. Slash commands for navigation.".to_owned(),
        );
        interface_lines.push("".to_owned());
        interface_lines.push(
            "Wide terminals (120+ cols) show an Activity Rail on the right.".to_owned(),
        );
        interface_lines.push("Your progress is saved automatically.".to_owned());

        let mut content: Vec<(String, Vec<String>)> = Vec::new();
        content.push(("Welcome to CKA Buddy".to_owned(), welcome));
        content.push(("Commands".to_owned(), command_lines));
        content.push(("Interface Guide".to_owned(), interface_lines));
        proof {
            assert(content.deep_view() =~~= tutorial_pages());
        }
        PopupMessage::Tutorial { page: 0, total_pages: 3, content }
    }

    /// Moves the tutorial `delta` pages, staying inside the page range;
    /// other popups are left alone.
    pub fn navigate_tutorial(&mut self, delta: i32)
        requires
            (*old(self) matches PopupMessage::Tutorial { page, total_pages, .. } ==> 1
                <= total_pages <= i32::MAX && page <= i32::MAX && i32::MIN <= page + delta
                <= i32::MAX),
        ensures
            (*old(self) matches PopupMessage::Tutorial { page, total_pages, content }
                ==> *final(self) == (PopupMessage::Tutorial {
                page: clamped_page(page as int, delta as int, total_pages as int) as usize,
                total_pages,
                content,
            })),
            !(*old(self) is Tutorial) ==> *final(self) == *old(self),
    {
        let mut taken = PopupMessage::Help { commands: Vec::new() };
        core::mem::swap(self, &mut taken);
        match taken {
            PopupMessage::Tutorial { page, total_pages, content } => {
                let moved = page as i32 + delta;
                let limit = total_pages as i32 - 1;
                let clamped: i32 = if moved < 0 {
                    0
                } else if moved > limit {
                    limit
                } else {
                    moved
                };
                *self = PopupMessage::Tutorial {
                    page: clamped as usize,
                    total_pages,
                    content,
                };
            },
            other => {
                *self = other;
            },
        }
    }

    /// Whether the tutorial shows its last page; false for other popups.
    pub fn is_last_tutorial_page(&self) -> (r: bool)
        requires
            (*self matches PopupMessage::Tutorial { page, .. } ==> page < usize::MAX),
        ensures
            r == (*self matches PopupMessage::Tutorial { page, total_pages, .. } && page + 1
                >= total_pages),
    {
        match self {
            PopupMessage::Tutorial { page, total_pages, .. } => *page + 1 >= *total_pages,
            _ => false,
        }
    }
}

} // verus!
