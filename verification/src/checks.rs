//! Deciding whether a step's verification checks passed.
//!
//! The caller runs each check command in a shell, in order, stopping at the
//! first failure, and hands the observed results to [`verify_outcome`].

use vstd::prelude::*;
use vstd::string::{StrSliceExecFns, StringExecFns};

use crate::models::Step;
use crate::text::{contains_seq, contains_str, push_char, trim_spec, trim_str};

verus! {

/// The verdict of one verification run.
#[derive(Debug)]
pub enum VerifyOutcome {
    /// Every check succeeded and every expected text was found.
    Pass,
    /// A check failed or an expected text was missing; the reason is given.
    Fail(String),
    /// The step defines no checks at all.
    NoChecks,
}

/// What the caller observed running one check command.
#[derive(Debug, Clone)]
pub struct CheckResult {
    /// Whether the command exited successfully.
    pub success: bool,
    /// What the command printed on standard output.
    pub stdout: String,
    /// What the command printed on standard error.
    pub stderr: String,
}

/// The commands that decide a step's completion: the explicit success
/// checks, or the verify commands when none are given.
pub fn selected_checks(step: &Step) -> (r: &Vec<String>)
    ensures
        step.success_check_commands@.len() > 0 ==> r == &step.success_check_commands,
        step.success_check_commands@.len() == 0 ==> r == &step.verify_commands,
{
    if step.success_check_commands.is_empty() {
        &step.verify_commands
    } else {
        &step.success_check_commands
    }
}

/// The failure message for one failed check: the command, and the trimmed
/// standard error when there is any.
pub open spec fn check_fail_text(cmd: Seq<char>, stderr: Seq<char>) -> Seq<char> {
    if trim_spec(stderr).len() == 0 {
        "verify command failed: "@ + cmd
    } else {
        cmd + " ("@ + trim_spec(stderr) + ")"@
    }
}

/// The failure message for an expected text that never appeared.
pub open spec fn missing_output_text(expected: Seq<char>) -> Seq<char> {
    "missing expected output: "@ + expected
}

/// All standard output of the succeeded checks, a newline after each.
pub open spec fn collected_stdout(results: Seq<CheckResult>) -> Seq<char>
    decreases results.len(),
{
    if results.len() == 0 {
        Seq::empty()
    } else {
        collected_stdout(results.drop_last()) + results.last().stdout@ + "\n"@
    }
}

/// The index of the first expected text missing from `hay`, or the length.
pub open spec fn first_missing(items: Seq<Seq<char>>, hay: Seq<char>) -> int
    decreases items.len(),
{
    if items.len() == 0 {
        0
    } else if !contains_seq(hay, items[0]) {
        0
    } else {
        1 + first_missing(items.skip(1), hay)
    }
}

proof fn lemma_first_missing_at(items: Seq<Seq<char>>, hay: Seq<char>, q: int)
    requires
        0 <= q <= items.len(),
        forall|p: int| 0 <= p < q ==> contains_seq(hay, #[trigger] items[p]),
        q < items.len() ==> !contains_seq(hay, items[q]),
    ensures
        first_missing(items, hay) == q,
    decreases q,
{
    if items.len() > 0 && contains_seq(hay, items[0]) {
        let t = items.skip(1);
        assert(forall|p: int| 0 <= p < q - 1 ==> t[p] == items[p + 1]);
        lemma_first_missing_at(t, hay, q - 1);
    }
}

/// Decides the verification verdict from the observed check results.
///
/// `results` holds one entry per check run: the caller ran the checks in
/// order and stopped after the first failure.  No checks at all is
/// [`VerifyOutcome::NoChecks`]; a failed check names itself and its standard
/// error; otherwise every expected text must occur in the collected output.
pub fn verify_outcome(
    checks: &Vec<String>,
    results: &Vec<CheckResult>,
    success_contains: &Vec<String>,
) -> (r: VerifyOutcome)
    requires
        checks@.len() == 0 ==> results@.len() == 0,
        checks@.len() > 0 ==> 1 <= results@.len() <= checks@.len(),
        forall|i: int| 0 <= i < results@.len() - 1 ==> (#[trigger] results@[i]).success,
        results@.len() < checks@.len() ==> !results@[results@.len() - 1].success,
    ensures
        checks@.len() == 0 <==> r is NoChecks,
        checks@.len() > 0 && !results@[results@.len() - 1].success ==> (r matches
            VerifyOutcome::Fail(m) && m@ == check_fail_text(
            checks@[results@.len() - 1]@,
            results@[results@.len() - 1].stderr@,
        )),
        checks@.len() > 0 && results@[results@.len() - 1].success ==> {
            let k = first_missing(success_contains.deep_view(), collected_stdout(results@));
            &&& k < success_contains@.len() ==> (r matches VerifyOutcome::Fail(m) && m@
                == missing_output_text(success_contains@[k]@))
            &&& k >= success_contains@.len() ==> r is Pass
        },
{
    if checks.len() == 0 {
        return VerifyOutcome::NoChecks;
    }
    let mut collected = String::new();
    let n = results.len();
    let mut i: usize = 0;
    proof {
        assert(collected_stdout(results@.take(0)) =~= Seq::<char>::empty());
    }
    while i < n
        invariant
            0 <= i <= n,
            n == results@.len(),
            1 <= n <= checks@.len(),
            forall|j: int| 0 <= j < i ==> (#[trigger] results@[j]).success,
            forall|j: int| 0 <= j < results@.len() - 1 ==> (#[trigger] results@[j]).success,
            collected@ == collected_stdout(results@.take(i as int)),
        decreases n - i,
    {
        if !results[i].success {
            let cmd = &checks[i];
            let trimmed = trim_str(results[i].stderr.as_str());
            let msg = if trimmed.as_str().unicode_len() == 0 {
                let mut m = "verify command failed: ".to_owned();
                m.append(cmd.as_str());
                m
            } else {
                let mut m = cmd.clone();
                m.append(" (");
                m.append(trimmed.as_str());
                m.append(")");
                proof {
                    assert(m@ =~= checks@[i as int]@ + " ("@ + trim_spec(results@[i as int].stderr@)
                        + ")"@);
                }
                m
            };
            proof {
                assert(i as int == results@.len() - 1);
            }
            return VerifyOutcome::Fail(msg);
        }
        collected.append(results[i].stdout.as_str());
        push_char(&mut collected, '\n');
        proof {
            reveal_strlit("\n");
            let pre = results@.take(i as int);
            let ext = results@.take(i + 1);
            assert(ext.drop_last() =~= pre);
            assert(ext.last() == results@[i as int]);
            assert(collected@ =~= collected_stdout(pre) + results@[i as int].stdout@ + "\n"@);
        }
        i += 1;
    }
    proof {
        assert(results@.take(n as int) =~= results@);
        assert(n == checks@.len());
    }

    let m = success_contains.len();
    let mut k: usize = 0;
    while k < m
        invariant
            0 <= k <= m,
            m == success_contains@.len(),
            collected@ == collected_stdout(results@),
            n == results@.len(),
            1 <= n <= checks@.len(),
            results@[results@.len() - 1].success,
            forall|j: int| 0 <= j < k ==> contains_seq(
                collected_stdout(results@),
                #[trigger] success_contains.deep_view()[j],
            ),
        decreases m - k,
    {
        if !contains_str(collected.as_str(), success_contains[k].as_str()) {
            proof {
                lemma_first_missing_at(
                    success_contains.deep_view(),
                    collected_stdout(results@),
                    k as int,
                );
            }
            let mut msg = "missing expected output: ".to_owned();
            msg.append(success_contains[k].as_str());
            return VerifyOutcome::Fail(msg);
        }
        k += 1;
    }
    proof {
        lemma_first_missing_at(success_contains.deep_view(), collected_stdout(results@), m as int);
    }
    VerifyOutcome::Pass
}

} // verus!
