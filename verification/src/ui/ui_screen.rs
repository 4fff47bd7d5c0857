//! The top-level screen and the popup stack above it.

use vstd::prelude::*;

use crate::ui::learning_screen::LearningScreen;
use crate::ui::popup::PopupMessage;
use crate::ui::splash_screen::SplashScreen;

verus! {

/// The top-level screen.
#[derive(Debug, Clone, Copy, PartialEq, Eq, Structural)]
pub enum ScreenState {
    /// The title screen with the session menu.
    Splash,
    /// The learning screen with the terminal feed.
    Learning,
}

/// The whole UI: the active screen, both screens' state, and the popups.
pub struct UiScreen {
    /// Which screen is showing.
    pub state: ScreenState,
    /// The splash screen's state.
    pub splash: SplashScreen,
    /// The learning screen's state.
    pub learning: LearningScreen,
    /// The popups above the screen, topmost last.
    pub popup_stack: Vec<PopupMessage>,
}

impl UiScreen {
    /// A fresh UI on the splash screen, with no popups.
    pub fn new(initial_status: String, has_progress: bool) -> (r: Self)
        ensures
            r.state == ScreenState::Splash,
            r.popup_stack@.len() == 0,
            r.learning.status@ == initial_status@,
            r.learning.command_input@.len() == 0,
            has_progress ==> r.splash.menu@.len() == 3,
            !has_progress ==> r.splash.menu@.len() == 2,
    {
        UiScreen {
            state: ScreenState::Splash,
            splash: SplashScreen::new(has_progress),
            learning: LearningScreen::new(initial_status),
            popup_stack: Vec::new(),
        }
    }

    /// Puts a popup on top.
    pub fn push_popup(&mut self, popup: PopupMessage)
        ensures
            final(self).popup_stack@ == old(self).popup_stack@.push(popup),
            final(self).state == old(self).state,
            final(self).splash == old(self).splash,
            final(self).learning == old(self).learning,
    {
        self.popup_stack.push(popup);
    }

    /// Removes the topmost popup, if one is showing.
    pub fn dismiss_popup(&mut self)
        ensures
            old(self).popup_stack@.len() > 0 ==> final(self).popup_stack@ == old(
                self,
            ).popup_stack@.drop_last(),
            old(self).popup_stack@.len() == 0 ==> final(self).popup_stack@ == old(
                self,
            ).popup_stack@,
            final(self).state == old(self).state,
            final(self).splash == old(self).splash,
            final(self).learning == old(self).learning,
    {
        let _ = self.popup_stack.pop();
    }

    /// Whether any popup is showing.
    pub fn has_popup(&self) -> (r: bool)
        ensures
            r == (self.popup_stack@.len() > 0),
    {
        self.popup_stack.len() > 0
    }

    /// Leaves the splash screen for the learning screen.
    pub fn transition_to_learning(&mut self)
        ensures
            final(self).state == ScreenState::Learning,
            final(self).splash == old(self).splash,
            final(self).learning == old(self).learning,
            final(self).popup_stack == old(self).popup_stack,
    {
        self.state = ScreenState::Learning;
    }
}

} // verus!
