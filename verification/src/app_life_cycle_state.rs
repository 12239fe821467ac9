use vstd::prelude::*;

verus! {

/// States of the host OS application process.
#[derive(PartialEq, Eq, Structural, Debug, Clone, Copy)]
pub enum AppLifeCycleState {
    /// The application is running in the background.
    ///
    /// Either there is no view / activity at all, or it is just not visible to the
    /// user; in any case it does not respond to user input.
    ///
    /// If `did_exit` is true the app will be terminated.
    Background { did_exit: bool },
    /// The application runs in the foreground but is paused and does not respond
    /// to user input (a phone call, the app switcher, a system dialog, ...).
    ///
    /// `was_active`: if `true` the previous state was `ForegroundActive`, if
    /// `false` the previous state was `Background`.
    ForegroundPaused { was_active: bool },
    /// The application runs in the foreground and responds to user input.
    ForegroundActive,
}

impl AppLifeCycleState {
    /// `Background { did_exit: true }`: the state after which nothing follows.
    pub open spec fn spec_is_did_exit(self) -> bool {
        self matches AppLifeCycleState::Background { did_exit } && did_exit
    }

    /// `ForegroundPaused { was_active: true }`: the state entered when an active
    /// app is paused.
    pub open spec fn spec_is_paused_was_active(self) -> bool {
        self matches AppLifeCycleState::ForegroundPaused { was_active } && was_active
    }

    pub fn is_foreground_active(&self) -> (r: bool)
        ensures
            r == (*self is ForegroundActive),
    {
        match self {
            AppLifeCycleState::ForegroundActive => true,
            _ => false,
        }
    }

    pub fn is_foreground_paused(&self) -> (r: bool)
        ensures
            r == (*self is ForegroundPaused),
    {
        match self {
            AppLifeCycleState::ForegroundPaused { .. } => true,
            _ => false,
        }
    }

    pub fn is_foreground_paused_was_active(&self) -> (r: bool)
        ensures
            r == self.spec_is_paused_was_active(),
    {
        match self {
            AppLifeCycleState::ForegroundPaused { was_active } => *was_active,
            _ => false,
        }
    }

    pub fn is_background(&self) -> (r: bool)
        ensures
            r == (*self is Background),
    {
        match self {
            AppLifeCycleState::Background { .. } => true,
            _ => false,
        }
    }

    pub fn is_did_exit(&self) -> (r: bool)
        ensures
            r == self.spec_is_did_exit(),
    {
        match self {
            AppLifeCycleState::Background { did_exit } => *did_exit,
            _ => false,
        }
    }
}

} // verus!
