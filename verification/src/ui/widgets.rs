//! Small text helpers the renderer composes into widgets.

use vstd::prelude::*;
use vstd::string::{StrSliceExecFns, StringExecFns};

use crate::text::{push_char, starts_with_seq, starts_with_str};

verus! {

/// `count` copies of one character.
pub open spec fn char_run(c: char, count: int) -> Seq<char> {
    Seq::new(count as nat, |i: int| c)
}

/// Builds a string of `count` copies of `c`.
pub fn repeat_char(c: char, count: usize) -> (r: String)
    ensures
        r@ == char_run(c, count as int),
{
    let mut r = String::new();
    let mut i: usize = 0;
    while i < count
        invariant
            0 <= i <= count,
            r@ == char_run(c, i as int),
        decreases count - i,
    {
        push_char(&mut r, c);
        proof {
            assert(r@ =~= char_run(c, i + 1));
        }
        i += 1;
    }
    proof {
        assert(r@ =~= char_run(c, count as int));
    }
    r
}

/// The filled and empty runs of a readiness bar with `slots` cells.
pub fn readiness_segments(readiness: u8, slots: usize) -> (r: (String, String))
    requires
        readiness as int * slots as int <= usize::MAX,
    ensures
        ({
            let filled = (readiness as int * slots as int) / 100;
            let empty = if slots >= filled {
                slots - filled
            } else {
                0
            };
            r.0@ == char_run('█', filled) && r.1@ == char_run('░', empty)
        }),
{
    let filled = (readiness as usize) * slots / 100;
    let empty = if slots >= filled {
        slots - filled
    } else {
        0
    };
    (repeat_char('█', filled), repeat_char('░', empty))
}

/// A horizontal divider at least eight cells wide.
pub fn divider(width: usize) -> (r: String)
    ensures
        width >= 8 ==> r@ == char_run('─', width as int),
        width < 8 ==> r@ == char_run('─', 8),
{
    let w = if width >= 8 {
        width
    } else {
        8
    };
    repeat_char('─', w)
}

/// Shortens text to at most `max` characters, ending in `...` when cut.
pub fn ellipsize(text: &str, max: usize) -> (r: String)
    ensures
        text@.len() <= max ==> r@ == text@,
        text@.len() > max && max <= 3 ==> r@ == "..."@,
        text@.len() > max && max > 3 ==> r@ == text@.take(max - 3) + "..."@,
{
    let n = text.unicode_len();
    if n <= max {
        return text.to_owned();
    }
    if max <= 3 {
        return "...".to_owned();
    }
    let head = text.substring_char(0, max - 3);
    let mut r = head.to_owned();
    r.append("...");
    proof {
        assert(text@.subrange(0, max - 3) =~= text@.take(max - 3));
    }
    r
}

/// The contextual footer line for the current command input.
pub open spec fn footer_help_text_spec(input: Seq<char>) -> Seq<char> {
    if starts_with_seq(input, "/hint"@) {
        "/hint — Ask the coach for a contextual hint"@
    } else if starts_with_seq(input, "/verify"@) {
        "/verify — Run verification checks for current step"@
    } else if starts_with_seq(input, "/suggest"@) {
        "/suggest [n] — Load suggested command"@
    } else if starts_with_seq(input, "/"@) {
        "Type a slash command. /help for full list."@
    } else if input.len() == 0 {
        "Type kubectl commands or /help for available commands"@
    } else {
        "Press Enter to execute: "@ + input
    }
}

/// Explains the command bar's current input in the footer.
pub fn footer_help_text(command_input: &str) -> (r: String)
    ensures
        r@ == footer_help_text_spec(command_input@),
{
    if starts_with_str(command_input, "/hint") {
        "/hint — Ask the coach for a contextual hint".to_owned()
    } else if starts_with_str(command_input, "/verify") {
        "/verify — Run verification checks for current step".to_owned()
    } else if starts_with_str(command_input, "/suggest") {
        "/suggest [n] — Load suggested command".to_owned()
    } else if starts_with_str(command_input, "/") {
        "Type a slash command. /help for full list.".to_owned()
    } else if command_input.is_empty() {
        "Type kubectl commands or /help for available commands".to_owned()
    } else {
        let mut r = "Press Enter to execute: ".to_owned();
        r.append(command_input);
        r
    }
}

} // verus!
