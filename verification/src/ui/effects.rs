//! Identifiers of the visual effects the renderer can play.

use vstd::prelude::*;

verus! {

/// One named effect slot; the renderer owns the animations themselves.
#[derive(Debug, Clone, Copy, Default, PartialEq, Eq, PartialOrd, Ord)]
pub enum EffectId {
    /// The splash title reveal.
    #[default]
    SplashTitle,
    /// The splash subtitle reveal.
    SplashSubtitle,
    /// The splash menu reveal.
    SplashMenu,
    /// The rotating splash quote crossfade.
    SplashQuoteFade,
    /// The transition between screens.
    ScreenTransition,
    /// The pulse while verification runs.
    VerifyRunning,
    /// The flash when verification finishes.
    VerifyResult,
    /// The sweep when the step changes.
    StepTransition,
    /// A popup opening.
    PopupOpen,
    /// A popup closing.
    PopupClose,
    /// The creature's idle pulse.
    TamagotchiPulse,
    /// The creature's mood change.
    TamagotchiMood,
    /// The creature evolving.
    TamagotchiEvolve,
    /// The wash when the exam domain changes.
    DomainWash,
    /// The ambient border shimmer.
    AmbientBorder,
    /// The feedback after a command was sent.
    CommandFeedback,
}

} // verus!
