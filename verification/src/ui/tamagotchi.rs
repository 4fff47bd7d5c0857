//! The cluster pet: its evolution stage and mood from the learning state.

use vstd::prelude::*;
use vstd::string::{StrSliceExecFns, StringExecFns};

use crate::text::{contains_seq, contains_str, dec_chars, lower_seq, to_lowercase_str};

verus! {

/// How far the creature has evolved.
#[derive(Debug, Clone, Copy, PartialEq, Eq, Structural)]
pub enum EvolutionStage {
    /// Readiness up to 10.
    Egg,
    /// Readiness 11 to 35.
    Hatchling,
    /// Readiness 36 to 70.
    Juvenile,
    /// Readiness above 70.
    Adult,
}

/// The stage a readiness score maps to.
pub open spec fn stage_of(readiness: u8) -> EvolutionStage {
    if readiness <= 10 {
        EvolutionStage::Egg
    } else if readiness <= 35 {
        EvolutionStage::Hatchling
    } else if readiness <= 70 {
        EvolutionStage::Juvenile
    } else {
        EvolutionStage::Adult
    }
}

impl EvolutionStage {
    /// Maps a readiness score to the creature's stage.
    pub fn from_readiness(readiness: u8) -> (r: Self)
        ensures
            r == stage_of(readiness),
    {
        if readiness <= 10 {
            Self::Egg
        } else if readiness <= 35 {
            Self::Hatchling
        } else if readiness <= 70 {
            Self::Juvenile
        } else {
            Self::Adult
        }
    }
}

/// How the creature feels right now.
#[derive(Debug, Clone, Copy, PartialEq, Eq, Structural)]
pub enum Mood {
    /// Readiness is past half and nothing fails.
    Happy,
    /// Nothing remarkable.
    Idle,
    /// Some pod name mentions a failure.
    Sick,
    /// A periodic feeding animation frame.
    Eating,
}

/// Whether a pod name counts as failing: its lower-cased form says `fail`.
pub open spec fn pod_is_failing(name: Seq<char>) -> bool {
    contains_seq(lower_seq(name), "fail"@)
}

/// How many of the pod names count as failing.
pub open spec fn failing_count(pods: Seq<Seq<char>>) -> int
    decreases pods.len(),
{
    if pods.len() == 0 {
        0int
    } else {
        failing_count(pods.drop_last()) + if pod_is_failing(pods.last()) {
            1int
        } else {
            0int
        }
    }
}

/// No more pods fail than there are.
pub proof fn lemma_failing_count_bounds(pods: Seq<Seq<char>>)
    ensures
        0 <= failing_count(pods) <= pods.len(),
    decreases pods.len(),
{
    if pods.len() > 0 {
        lemma_failing_count_bounds(pods.drop_last());
    }
}

/// The mood chosen for the given state.
pub open spec fn mood_of(readiness: u8, pods: Seq<Seq<char>>, tick: int) -> Mood {
    if failing_count(pods) > 0 {
        Mood::Sick
    } else if pods.len() > 0 && (tick / 20) % 8 == 0 {
        Mood::Eating
    } else if readiness > 50 {
        Mood::Happy
    } else {
        Mood::Idle
    }
}

/// The pet widget's state for one render tick.
#[derive(Debug, Clone)]
pub struct Tamagotchi {
    /// The evolution stage.
    pub stage: EvolutionStage,
    /// The mood.
    pub mood: Mood,
    /// The animation tick.
    pub tick: usize,
    /// The creature's name.
    pub name: String,
    /// How many pods the scene shows.
    pub pod_count: usize,
    /// How many of them are healthy.
    pub healthy_pods: usize,
    /// The readiness score shown.
    pub readiness: u8,
}

impl Tamagotchi {
    /// Derives the creature's state from readiness, pod names and the tick.
    pub fn new(readiness: u8, pods: &Vec<String>, tick: usize) -> (r: Self)
        ensures
            r.stage == stage_of(readiness),
            r.mood == mood_of(readiness, pods.deep_view(), tick as int),
            r.tick == tick,
            r.name@ == "Kube-chan"@,
            r.pod_count == pods@.len(),
            r.healthy_pods == pods@.len() - failing_count(pods.deep_view()),
            r.readiness == readiness,
    {
        let stage = EvolutionStage::from_readiness(readiness);
        let pod_count = pods.len();
        let mut fail_count: usize = 0;
        let mut i: usize = 0;
        proof {
            assert(failing_count(pods.deep_view().take(0)) == 0) by {
                assert(pods.deep_view().take(0) =~= Seq::<Seq<char>>::empty());
            }
        }
        while i < pod_count
            invariant
                0 <= i <= pod_count,
                pod_count == pods@.len(),
                pods.deep_view().len() == pods@.len(),
                forall|j: int| 0 <= j < pods@.len() ==> pods.deep_view()[j] == pods@[j]@,
                fail_count == failing_count(pods.deep_view().take(i as int)),
                fail_count <= i,
            decreases pod_count - i,
        {
            let lowered = to_lowercase_str(pods[i].as_str());
            let failing = contains_str(lowered.as_str(), "fail");
            proof {
                let pre = pods.deep_view().take(i as int);
                let ext = pods.deep_view().take(i + 1);
                assert(ext.drop_last() =~= pre);
                assert(ext.last() == pods.deep_view()[i as int]);
            }
            if failing {
                fail_count += 1;
            }
            i += 1;
        }
        proof {
            assert(pods.deep_view().take(pod_count as int) =~= pods.deep_view());
            lemma_failing_count_bounds(pods.deep_view());
        }
        let healthy_pods = pod_count - fail_count;

        let mood = if fail_count > 0 {
            Mood::Sick
        } else if pod_count > 0 && (tick / 20) % 8 == 0 {
            Mood::Eating
        } else if readiness > 50 {
            Mood::Happy
        } else {
            Mood::Idle
        };

        Tamagotchi {
            stage,
            mood,
            tick,
            name: "Kube-chan".to_owned(),
            pod_count,
            healthy_pods,
            readiness,
        }
    }

    /// The one-line status under the creature: heartbeat, mood, readiness,
    /// name, and the healthy-pod ratio.
    pub fn status_line(&self) -> (r: String)
        ensures
            r@ == status_line_text(
                self.tick as int,
                self.mood,
                self.readiness,
                self.name@,
                self.healthy_pods as int,
                self.pod_count as int,
            ),
    {
        let heartbeat = if (self.tick / 8) % 2 == 0 {
            "◉"
        } else {
            "●"
        };
        let mood_icon = match self.mood {
            Mood::Happy => "♥",
            Mood::Idle => "~",
            Mood::Sick => "✖",
            Mood::Eating => "☸",
        };
        let mut r = heartbeat.to_owned();
        r.append(" ");
        r.append(mood_icon);
        r.append(" ");
        let readiness_digits = crate::text::u64_dec(self.readiness as u64);
        r.append(readiness_digits.as_str());
        r.append("% | ");
        r.append(self.name.as_str());
        r.append(" ");
        let healthy_digits = crate::text::u64_dec(self.healthy_pods as u64);
        r.append(healthy_digits.as_str());
        r.append("/");
        let count_digits = crate::text::u64_dec(self.pod_count as u64);
        r.append(count_digits.as_str());
        proof {
            assert(r@ =~= status_line_text(
                self.tick as int,
                self.mood,
                self.readiness,
                self.name@,
                self.healthy_pods as int,
                self.pod_count as int,
            ));
        }
        r
    }
}

/// The status line: heartbeat glyph, mood glyph, readiness percentage, the
/// name, and healthy over total pods.
pub open spec fn status_line_text(
    tick: int,
    mood: Mood,
    readiness: u8,
    name: Seq<char>,
    healthy: int,
    total: int,
) -> Seq<char> {
    let heartbeat = if (tick / 8) % 2 == 0 {
        "◉"@
    } else {
        "●"@
    };
    let mood_icon = match mood {
        Mood::Happy => "♥"@,
        Mood::Idle => "~"@,
        Mood::Sick => "✖"@,
        Mood::Eating => "☸"@,
    };
    heartbeat + " "@ + mood_icon + " "@ + dec_chars(readiness as nat) + "% | "@ + name + " "@
        + dec_chars(healthy as nat) + "/"@ + dec_chars(total as nat)
}

} // verus!
