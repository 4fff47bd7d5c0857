//! State of the title screen and its session menu.

use vstd::prelude::*;

verus! {

/// One entry of the splash menu.
#[derive(Debug, Clone, Copy, PartialEq, Eq, Structural)]
pub enum SplashItem {
    /// Continue the saved session.
    Continue,
    /// Start over.
    NewSession,
    /// Leave the application.
    Quit,
}

/// Everything the splash screen remembers between ticks.
pub struct SplashScreen {
    /// The menu entries, in display order.
    pub menu: Vec<SplashItem>,
    /// The selected entry.
    pub selected: usize,
    /// The animation tick.
    pub tick: usize,
    /// Which rotating quote is shown.
    pub quote_index: usize,
    /// Whether the next render is the first.
    pub first_render: bool,
}

impl SplashScreen {
    /// A fresh splash screen; continuing is offered only with saved
    /// progress.
    pub fn new(has_progress: bool) -> (r: Self)
        ensures
            has_progress ==> r.menu@ == seq![
                SplashItem::Continue,
                SplashItem::NewSession,
                SplashItem::Quit,
            ],
            !has_progress ==> r.menu@ == seq![SplashItem::NewSession, SplashItem::Quit],
            r.selected == 0,
            r.tick == 0,
            r.quote_index == 0,
            r.first_render,
    {
        let mut menu: Vec<SplashItem> = Vec::new();
        if has_progress {
            menu.push(SplashItem::Continue);
        }
        menu.push(SplashItem::NewSession);
        menu.push(SplashItem::Quit);
        proof {
            if has_progress {
                assert(menu@ =~= seq![SplashItem::Continue, SplashItem::NewSession, SplashItem::Quit]);
            } else {
                assert(menu@ =~= seq![SplashItem::NewSession, SplashItem::Quit]);
            }
        }
        SplashScreen { selected: 0, menu, tick: 0, quote_index: 0, first_render: true }
    }

    /// The label shown for a menu entry.
    pub fn menu_label(item: SplashItem) -> (r: &'static str)
        ensures
            item == SplashItem::Continue ==> r@ == "▸ Continue"@,
            item == SplashItem::NewSession ==> r@ == "▸ New Session"@,
            item == SplashItem::Quit ==> r@ == "▸ Quit"@,
    {
        match item {
            SplashItem::Continue => "▸ Continue",
            SplashItem::NewSession => "▸ New Session",
            SplashItem::Quit => "▸ Quit",
        }
    }
}

} // verus!
