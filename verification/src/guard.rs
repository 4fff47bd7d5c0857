//! Risk classification of candidate commands before they reach any backend.

use vstd::prelude::*;

use crate::text::{
    contains_seq, contains_str, is_space_char, lemma_contains_trim, lemma_trim_contains_rev,
    trim_spec, trim_str,
};

verus! {

/// The verdict on one submitted command; produced fresh per evaluation.
#[derive(Debug, Clone)]
pub enum GuardDecision {
    /// The command may be dispatched as it is.
    Allow,
    /// The command is dispatched only after an explicit override.
    Confirm(String),
    /// The command is never dispatched.
    Block(String),
}

/// Substrings that always block a command.
pub open spec fn deny_tokens() -> Seq<Seq<char>> {
    seq![":(){:|:&};:"@, "mkfs"@, "shutdown"@, "reboot"@]
}

/// Substrings that demand explicit confirmation.
pub open spec fn confirm_tokens() -> Seq<Seq<char>> {
    seq!["rm -rf"@, "kubectl delete ns"@, "kubectl delete namespace"@]
}

/// Whether the command text holds a deny-list token.
pub open spec fn matches_deny(c: Seq<char>) -> bool {
    exists|k: int| 0 <= k < deny_tokens().len() && contains_seq(c, #[trigger] deny_tokens()[k])
}

/// Whether the command text holds a confirm-list token.
pub open spec fn matches_confirm(c: Seq<char>) -> bool {
    exists|k: int|
        0 <= k < confirm_tokens().len() && contains_seq(c, #[trigger] confirm_tokens()[k])
}

/// Classifies a raw command string, synchronously and without side effects.
///
/// The trimmed command is matched against the deny list first (a match
/// blocks), then against the confirm list; empty or whitespace-only input
/// and everything that matches neither list is allowed.
pub fn evaluate_command(cmd: &str) -> (d: GuardDecision)
    ensures
        ({
            let c = trim_spec(cmd@);
            &&& (d is Block <==> c.len() > 0 && matches_deny(c))
            &&& (d is Confirm <==> c.len() > 0 && !matches_deny(c) && matches_confirm(c))
            &&& (d is Allow <==> c.len() == 0 || (!matches_deny(c) && !matches_confirm(c)))
        }),
        d matches GuardDecision::Block(reason) ==> reason@
            == "command matches blocked host-level pattern"@,
        d matches GuardDecision::Confirm(reason) ==> reason@ == "high-risk command detected"@,
{
    let trimmed = trim_str(cmd);
    let c = trimmed.as_str();
    if c.is_empty() {
        return GuardDecision::Allow;
    }

    let denied = contains_str(c, ":(){:|:&};:") || contains_str(c, "mkfs") || contains_str(
        c,
        "shutdown",
    ) || contains_str(c, "reboot");
    if denied {
        proof {
            lemma_deny_disjuncts(c@);
        }
        return GuardDecision::Block("command matches blocked host-level pattern".to_owned());
    }
    proof {
        lemma_deny_disjuncts(c@);
    }

    let confirm = contains_str(c, "rm -rf") || contains_str(c, "kubectl delete ns") || contains_str(
        c,
        "kubectl delete namespace",
    );
    proof {
        lemma_confirm_disjuncts(c@);
    }
    if confirm {
        return GuardDecision::Confirm("high-risk command detected".to_owned());
    }

    GuardDecision::Allow
}

/// Every guard token is non-empty and has no whitespace at either end.
proof fn lemma_guard_token_shape(tok: Seq<char>)
    requires
        deny_tokens().contains(tok) || confirm_tokens().contains(tok),
    ensures
        tok.len() > 0,
        !is_space_char(tok[0]),
        !is_space_char(tok[tok.len() - 1]),
{
    reveal_strlit(":(){:|:&};:");
    reveal_strlit("mkfs");
    reveal_strlit("shutdown");
    reveal_strlit("reboot");
    reveal_strlit("rm -rf");
    reveal_strlit("kubectl delete ns");
    reveal_strlit("kubectl delete namespace");
}

/// Law: a command holding a deny-list token anywhere is blocked.
///
/// Together with the contract of [`evaluate_command`], the two conclusions
/// force the `Block` verdict for any such command.
pub proof fn lemma_deny_token_blocks(cmd: Seq<char>, tok: Seq<char>)
    requires
        deny_tokens().contains(tok),
        contains_seq(cmd, tok),
    ensures
        trim_spec(cmd).len() > 0,
        matches_deny(trim_spec(cmd)),
{
    lemma_guard_token_shape(tok);
    lemma_contains_trim(cmd, tok);
    let k = choose|k: int| 0 <= k < deny_tokens().len() && deny_tokens()[k] == tok;
    assert(contains_seq(trim_spec(cmd), deny_tokens()[k]));
}

/// No deny-list token in the raw command means none in the trimmed command.
proof fn lemma_no_deny_in_trim(cmd: Seq<char>)
    requires
        forall|k: int|
            0 <= k < deny_tokens().len() ==> !contains_seq(cmd, #[trigger] deny_tokens()[k]),
    ensures
        !matches_deny(trim_spec(cmd)),
{
    if matches_deny(trim_spec(cmd)) {
        let k = choose|k: int|
            0 <= k < deny_tokens().len() && contains_seq(trim_spec(cmd), #[trigger] deny_tokens()[k]);
        lemma_trim_contains_rev(cmd, deny_tokens()[k]);
    }
}

/// Law: a command holding a confirm-list token but no deny-list token gets
/// the `Confirm` verdict.
///
/// Together with the contract of [`evaluate_command`], the three conclusions
/// force `Confirm` for any such command.
pub proof fn lemma_confirm_token_confirms(cmd: Seq<char>, tok: Seq<char>)
    requires
        confirm_tokens().contains(tok),
        contains_seq(cmd, tok),
        forall|k: int|
            0 <= k < deny_tokens().len() ==> !contains_seq(cmd, #[trigger] deny_tokens()[k]),
    ensures
        trim_spec(cmd).len() > 0,
        !matches_deny(trim_spec(cmd)),
        matches_confirm(trim_spec(cmd)),
{
    lemma_guard_token_shape(tok);
    lemma_contains_trim(cmd, tok);
    let k = choose|k: int| 0 <= k < confirm_tokens().len() && confirm_tokens()[k] == tok;
    assert(contains_seq(trim_spec(cmd), confirm_tokens()[k]));
    lemma_no_deny_in_trim(cmd);
}

/// Law: a command holding no deny-list and no confirm-list token — the empty
/// command included — is allowed.
///
/// Together with the contract of [`evaluate_command`], the two conclusions
/// force the `Allow` verdict for any such command.
pub proof fn lemma_unlisted_command_allowed(cmd: Seq<char>)
    requires
        forall|k: int|
            0 <= k < deny_tokens().len() ==> !contains_seq(cmd, #[trigger] deny_tokens()[k]),
        forall|k: int|
            0 <= k < confirm_tokens().len() ==> !contains_seq(cmd, #[trigger] confirm_tokens()[k]),
    ensures
        !matches_deny(trim_spec(cmd)),
        !matches_confirm(trim_spec(cmd)),
{
    lemma_no_deny_in_trim(cmd);
    if matches_confirm(trim_spec(cmd)) {
        let k = choose|k: int|
            0 <= k < confirm_tokens().len() && contains_seq(
                trim_spec(cmd),
                #[trigger] confirm_tokens()[k],
            );
        lemma_trim_contains_rev(cmd, confirm_tokens()[k]);
    }
}

/// `matches_deny` spelt out as the disjunction over the four tokens.
proof fn lemma_deny_disjuncts(c: Seq<char>)
    ensures
        matches_deny(c) <==> (contains_seq(c, ":(){:|:&};:"@) || contains_seq(c, "mkfs"@)
            || contains_seq(c, "shutdown"@) || contains_seq(c, "reboot"@)),
{
    assert(deny_tokens()[0] == ":(){:|:&};:"@);
    assert(deny_tokens()[1] == "mkfs"@);
    assert(deny_tokens()[2] == "shutdown"@);
    assert(deny_tokens()[3] == "reboot"@);
}

/// `matches_confirm` spelt out as the disjunction over the three tokens.
proof fn lemma_confirm_disjuncts(c: Seq<char>)
    ensures
        matches_confirm(c) <==> (contains_seq(c, "rm -rf"@) || contains_seq(
            c,
            "kubectl delete ns"@,
        ) || contains_seq(c, "kubectl delete namespace"@)),
{
    assert(confirm_tokens()[0] == "rm -rf"@);
    assert(confirm_tokens()[1] == "kubectl delete ns"@);
    assert(confirm_tokens()[2] == "kubectl delete namespace"@);
}

} // verus!
