use crate::app_life_cycle_state::AppLifeCycleState;
use crate::current_platform::CurrentPlatform;
use vstd::prelude::*;

verus! {

/// The window events that can move the app-life-cycle state; every other window
/// event is `Other`.
#[derive(PartialEq, Eq, Structural, Debug, Clone, Copy)]
pub enum LifeCycleWindowEvent {
    CloseRequested,
    Destroyed,
    /// The window gained (`true`) or lost (`false`) the input focus.
    Focused(bool),
    /// The window became fully hidden (`true`) or visible again (`false`).
    Occluded(bool),
    Other,
}

/// One move of the host OS application process: the only ways a state is left
/// for another.
///
/// - `Background` (not exited) to `ForegroundPaused { was_active: false }`,
/// - `Background { did_exit: false }` to `Background { did_exit: true }`,
/// - `ForegroundPaused` to `ForegroundActive`,
/// - `ForegroundPaused` to `Background { did_exit: false }`,
/// - `ForegroundActive` to `ForegroundPaused { was_active: true }`.
pub open spec fn is_step(from: AppLifeCycleState, to: AppLifeCycleState) -> bool {
    match from {
        AppLifeCycleState::Background { did_exit } => !did_exit && (to
            == AppLifeCycleState::ForegroundPaused { was_active: false } || to
            == AppLifeCycleState::Background { did_exit: true }),
        AppLifeCycleState::ForegroundPaused { .. } => to == AppLifeCycleState::ForegroundActive
            || to == AppLifeCycleState::Background { did_exit: false },
        AppLifeCycleState::ForegroundActive => to == AppLifeCycleState::ForegroundPaused {
            was_active: true,
        },
    }
}

/// `states` is a sequence of single moves that starts from `start`.
pub open spec fn is_chain(start: AppLifeCycleState, states: Seq<AppLifeCycleState>) -> bool {
    forall|i: int|
        0 <= i < states.len() ==> is_step(
            if i == 0 {
                start
            } else {
                states[i - 1]
            },
            #[trigger] states[i],
        )
}

/// The states reported when the host moves from `prev` towards `next`: the
/// new state with the intermediate states it implies, or nothing where the
/// two match.
pub open spec fn states_between(prev: AppLifeCycleState, next: AppLifeCycleState) -> Seq<
    AppLifeCycleState,
> {
    match prev {
        AppLifeCycleState::Background { did_exit: prev_did_exit } => match next {
            AppLifeCycleState::Background { did_exit: next_did_exit } => if prev_did_exit
                != next_did_exit {
                seq![next]
            } else {
                seq![]
            },
            AppLifeCycleState::ForegroundPaused { .. } => seq![
                AppLifeCycleState::ForegroundPaused { was_active: false },
            ],
            AppLifeCycleState::ForegroundActive => seq![
                AppLifeCycleState::ForegroundPaused { was_active: false },
                next,
            ],
        },
        AppLifeCycleState::ForegroundPaused { was_active: prev_was_active } => match next {
            AppLifeCycleState::Background { did_exit } => if did_exit {
                seq![AppLifeCycleState::Background { did_exit: false }, next]
            } else {
                seq![next]
            },
            AppLifeCycleState::ForegroundPaused { was_active: next_was_active } => if prev_was_active
                != next_was_active {
                seq![next]
            } else {
                seq![]
            },
            AppLifeCycleState::ForegroundActive => seq![next],
        },
        AppLifeCycleState::ForegroundActive => match next {
            AppLifeCycleState::Background { did_exit } => if did_exit {
                seq![
                    AppLifeCycleState::ForegroundPaused { was_active: true },
                    AppLifeCycleState::Background { did_exit: false },
                    next,
                ]
            } else {
                seq![
                    AppLifeCycleState::ForegroundPaused { was_active: true },
                    AppLifeCycleState::Background { did_exit: false },
                ]
            },
            AppLifeCycleState::ForegroundPaused { .. } => seq![
                AppLifeCycleState::ForegroundPaused { was_active: true },
            ],
            AppLifeCycleState::ForegroundActive => seq![],
        },
    }
}

/// What a handler reports when it asks to move from `state` to `target` (or not
/// to move, `None`): the reported states, or `None` where there is nothing to
/// report.
pub open spec fn reported(state: AppLifeCycleState, target: Option<AppLifeCycleState>) -> Option<
    Seq<AppLifeCycleState>,
> {
    match target {
        None => None,
        Some(next) => if states_between(state, next).len() == 0 {
            None
        } else {
            Some(states_between(state, next))
        },
    }
}

/// The state after a report: the last reported state, or the old one.
pub open spec fn state_after(state: AppLifeCycleState, report: Option<Seq<AppLifeCycleState>>) -> AppLifeCycleState {
    match report {
        None => state,
        Some(states) => states.last(),
    }
}

/// The state a resume of the app asks for.
pub open spec fn resumed_target(state: AppLifeCycleState) -> Option<AppLifeCycleState> {
    if state.spec_is_did_exit() {
        None
    } else {
        Some(AppLifeCycleState::ForegroundActive)
    }
}

/// The state a suspension of the app asks for.
pub open spec fn suspended_target(state: AppLifeCycleState) -> Option<AppLifeCycleState> {
    match state {
        AppLifeCycleState::ForegroundActive => Some(
            AppLifeCycleState::ForegroundPaused { was_active: true },
        ),
        AppLifeCycleState::ForegroundPaused { .. } => Some(
            AppLifeCycleState::Background { did_exit: false },
        ),
        AppLifeCycleState::Background { .. } => None,
    }
}

/// The state a sign that the app is being destroyed asks for.
pub open spec fn destroy_target(state: AppLifeCycleState) -> Option<AppLifeCycleState> {
    if state.spec_is_did_exit() {
        None
    } else {
        Some(AppLifeCycleState::Background { did_exit: true })
    }
}

/// The state a window event asks for.
///
/// A close request or a destroyed window means exit. Focus events are ignored
/// on iOS (which sends a focus on termination), and on macOS the first focus
/// event is ignored (macOS sends a lost focus before the first gained focus).
/// Gaining the focus activates the app; losing it pauses an active app. A
/// paused app whose window becomes occluded goes to the background.
pub open spec fn window_event_target(
    state: AppLifeCycleState,
    platform: CurrentPlatform,
    first_mac_focus: bool,
    event: LifeCycleWindowEvent,
) -> Option<AppLifeCycleState> {
    if state.spec_is_did_exit() {
        None
    } else {
        match event {
            LifeCycleWindowEvent::CloseRequested => Some(
                AppLifeCycleState::Background { did_exit: true },
            ),
            LifeCycleWindowEvent::Destroyed => Some(
                AppLifeCycleState::Background { did_exit: true },
            ),
            LifeCycleWindowEvent::Focused(focused) => if platform.is_ios {
                None
            } else if platform.is_macos && first_mac_focus {
                None
            } else if focused {
                Some(AppLifeCycleState::ForegroundActive)
            } else if state is ForegroundActive {
                Some(AppLifeCycleState::ForegroundPaused { was_active: true })
            } else {
                None
            },
            LifeCycleWindowEvent::Occluded(occluded) => if occluded && state is ForegroundPaused {
                Some(AppLifeCycleState::Background { did_exit: false })
            } else {
                None
            },
            LifeCycleWindowEvent::Other => None,
        }
    }
}

/// Whether the "first macOS focus event" flag is still set after `event`: it is
/// cleared by the first focus event that reaches it on macOS.
pub open spec fn first_mac_focus_after(
    state: AppLifeCycleState,
    platform: CurrentPlatform,
    first_mac_focus: bool,
    event: LifeCycleWindowEvent,
) -> bool {
    if !state.spec_is_did_exit() && event is Focused && !platform.is_ios && platform.is_macos {
        false
    } else {
        first_mac_focus
    }
}

/// A call of one of the handlers of an [`AppLifeCycleHandler`].
#[derive(PartialEq, Eq, Structural, Debug, Clone, Copy)]
pub enum HandlerCall {
    Resumed,
    Suspended,
    DestroyIndication,
    Window(LifeCycleWindowEvent),
}

/// The state a handler call asks for.
pub open spec fn call_target(v: AppLifeCycleHandlerView, call: HandlerCall) -> Option<AppLifeCycleState> {
    match call {
        HandlerCall::Resumed => resumed_target(v.state),
        HandlerCall::Suspended => suspended_target(v.state),
        HandlerCall::DestroyIndication => destroy_target(v.state),
        HandlerCall::Window(event) => window_event_target(
            v.state,
            v.platform,
            v.is_first_mac_window_focused_event,
            event,
        ),
    }
}

/// What a handler call reports.
pub open spec fn call_report(v: AppLifeCycleHandlerView, call: HandlerCall) -> Option<Seq<AppLifeCycleState>> {
    reported(v.state, call_target(v, call))
}

/// The handler after a call.
pub open spec fn view_after_call(v: AppLifeCycleHandlerView, call: HandlerCall) -> AppLifeCycleHandlerView {
    AppLifeCycleHandlerView {
        state: state_after(v.state, call_report(v, call)),
        platform: v.platform,
        is_first_mac_window_focused_event: match call {
            HandlerCall::Window(event) => first_mac_focus_after(
                v.state,
                v.platform,
                v.is_first_mac_window_focused_event,
                event,
            ),
            _ => v.is_first_mac_window_focused_event,
        },
    }
}

/// `report` is a non-empty report that ends in `state`.
pub open spec fn ends_in(report: Option<Seq<AppLifeCycleState>>, state: AppLifeCycleState) -> bool {
    report matches Some(states) && states.len() > 0 && states.last() == state
}

/// What a resume does: an app that has not exited ends up active (reported
/// unless it already was); an exited app stays as it is.
pub open spec fn resumed_effect(
    state: AppLifeCycleState,
    report: Option<Seq<AppLifeCycleState>>,
    new_state: AppLifeCycleState,
) -> bool {
    if state.spec_is_did_exit() {
        report is None && new_state == state
    } else {
        &&& new_state == AppLifeCycleState::ForegroundActive
        &&& state == AppLifeCycleState::ForegroundActive ==> report is None
        &&& state != AppLifeCycleState::ForegroundActive ==> ends_in(
            report,
            AppLifeCycleState::ForegroundActive,
        )
    }
}

/// What a suspension does: an active app is paused, a paused app goes to the
/// background (without exiting), and an app in the background stays there.
pub open spec fn suspended_effect(
    state: AppLifeCycleState,
    report: Option<Seq<AppLifeCycleState>>,
    new_state: AppLifeCycleState,
) -> bool {
    match state {
        AppLifeCycleState::ForegroundActive => report == Some(
            seq![AppLifeCycleState::ForegroundPaused { was_active: true }],
        ) && new_state == AppLifeCycleState::ForegroundPaused { was_active: true },
        AppLifeCycleState::ForegroundPaused { .. } => report == Some(
            seq![AppLifeCycleState::Background { did_exit: false }],
        ) && new_state == AppLifeCycleState::Background { did_exit: false },
        AppLifeCycleState::Background { .. } => report is None && new_state == state,
    }
}

/// What an exit (a destroy indication, a close request or a destroyed window)
/// does: an app that has not exited exits, and the report ends in the exit.
pub open spec fn exit_effect(
    state: AppLifeCycleState,
    report: Option<Seq<AppLifeCycleState>>,
    new_state: AppLifeCycleState,
) -> bool {
    if state.spec_is_did_exit() {
        report is None && new_state == state
    } else {
        new_state == AppLifeCycleState::Background { did_exit: true } && ends_in(
            report,
            AppLifeCycleState::Background { did_exit: true },
        )
    }
}

/// Whether a focus event counts: not on iOS, and on macOS not the first one.
pub open spec fn focus_counts(platform: CurrentPlatform, first_mac_focus: bool) -> bool {
    !platform.is_ios && !(platform.is_macos && first_mac_focus)
}

/// What a window event does to an app that has not exited:
/// - a close request or a destroyed window exits it;
/// - a gained focus that counts makes it active;
/// - a lost focus that counts pauses an active app, and changes nothing else;
/// - a window that becomes occluded sends a paused app to the background;
/// - nothing else changes the state or reports anything.
pub open spec fn window_event_effect(
    state: AppLifeCycleState,
    platform: CurrentPlatform,
    first_mac_focus: bool,
    event: LifeCycleWindowEvent,
    report: Option<Seq<AppLifeCycleState>>,
    new_state: AppLifeCycleState,
) -> bool {
    let unchanged = report is None && new_state == state;
    if state.spec_is_did_exit() {
        unchanged
    } else {
        match event {
            LifeCycleWindowEvent::CloseRequested => exit_effect(state, report, new_state),
            LifeCycleWindowEvent::Destroyed => exit_effect(state, report, new_state),
            LifeCycleWindowEvent::Focused(focused) => if !focus_counts(platform, first_mac_focus) {
                unchanged
            } else if focused {
                resumed_effect(state, report, new_state)
            } else if state == AppLifeCycleState::ForegroundActive {
                suspended_effect(state, report, new_state)
            } else {
                unchanged
            },
            LifeCycleWindowEvent::Occluded(occluded) => if occluded
                && state is ForegroundPaused {
                suspended_effect(state, report, new_state)
            } else {
                unchanged
            },
            LifeCycleWindowEvent::Other => unchanged,
        }
    }
}

/// The abstract state of an [`AppLifeCycleHandler`].
pub struct AppLifeCycleHandlerView {
    pub state: AppLifeCycleState,
    pub platform: CurrentPlatform,
    pub is_first_mac_window_focused_event: bool,
}

/// Tracks the app-life-cycle state by watching which events the window system
/// sends at which point, and reports each change with the intermediate states
/// it implies.
pub struct AppLifeCycleHandler {
    state: AppLifeCycleState,
    platform: CurrentPlatform,
    is_first_mac_window_focused_event: bool,
}

impl View for AppLifeCycleHandler {
    type V = AppLifeCycleHandlerView;

    closed spec fn view(&self) -> AppLifeCycleHandlerView {
        AppLifeCycleHandlerView {
            state: self.state,
            platform: self.platform,
            is_first_mac_window_focused_event: self.is_first_mac_window_focused_event,
        }
    }
}

/// The states reported on the way to every target a handler asks for are a
/// sequence of moves (a paused state is never asked to go to another paused
/// state).
proof fn lemma_states_between_is_chain(prev: AppLifeCycleState, next: AppLifeCycleState)
    requires
        !prev.spec_is_did_exit(),
        !(prev is ForegroundPaused && next is ForegroundPaused),
    ensures
        is_chain(prev, states_between(prev, next)),
{
    let s = states_between(prev, next);
    assert forall|i: int| 0 <= i < s.len() implies is_step(
        if i == 0 {
            prev
        } else {
            s[i - 1]
        },
        #[trigger] s[i],
    ) by {
        if i == 0 {
        } else if i == 1 {
        } else {
        }
    }
}

impl AppLifeCycleHandler {
    /// Creates the handler when the application starts (right before the app's
    /// start hook): the state becomes `ForegroundActive` and is returned with
    /// the handler.
    pub fn new(platform: CurrentPlatform) -> (r: (Self, AppLifeCycleState))
        ensures
            r.0@.state == AppLifeCycleState::ForegroundActive,
            r.0@.platform == platform,
            r.0@.is_first_mac_window_focused_event,
            r.1 == AppLifeCycleState::ForegroundActive,
    {
        let next_state = AppLifeCycleState::ForegroundActive;
        (AppLifeCycleHandler { state: next_state, platform, is_first_mac_window_focused_event: true }, next_state)
    }

    /// The current app-life-cycle state.
    pub fn app_life_cycle_state(&self) -> (r: AppLifeCycleState)
        ensures
            r == self@.state,
    {
        self.state
    }

    /// The states to report when moving from `prev` to `next`: the new state
    /// with intermediate states where needed, or an empty vec where the current
    /// state already matches the next.
    pub fn get_states_vec(prev: AppLifeCycleState, next: AppLifeCycleState) -> (v: Vec<
        AppLifeCycleState,
    >)
        ensures
            v@ == states_between(prev, next),
            v@.len() == 0 <==> prev == next,
            v@.len() > 0 && !(next is ForegroundPaused) ==> v@.last() == next,
            v@.len() > 0 && next is ForegroundPaused ==> v@.last() is ForegroundPaused,
            !prev.spec_is_did_exit() && !(prev is ForegroundPaused && next is ForegroundPaused)
                ==> is_chain(prev, v@),
    {
        proof {
            lemma_same_state_reports_nothing(prev, next);
            if !prev.spec_is_did_exit() && !(prev is ForegroundPaused && next is ForegroundPaused) {
                lemma_states_between_is_chain(prev, next);
            }
        }
        match prev {
            AppLifeCycleState::Background { did_exit: prev_did_exit } => match next {
                AppLifeCycleState::Background { did_exit: next_did_exit } => {
                    if prev_did_exit != next_did_exit {
                        vec![next]
                    } else {
                        Vec::new()
                    }
                },
                AppLifeCycleState::ForegroundPaused { .. } => {
                    vec![AppLifeCycleState::ForegroundPaused { was_active: false }]
                },
                AppLifeCycleState::ForegroundActive => {
                    vec![AppLifeCycleState::ForegroundPaused { was_active: false }, next]
                },
            },
            AppLifeCycleState::ForegroundPaused { was_active: prev_was_active } => match next {
                AppLifeCycleState::Background { did_exit } => {
                    let mut v = Vec::new();
                    if did_exit {
                        v.push(AppLifeCycleState::Background { did_exit: false });
                    }
                    v.push(next);
                    v
                },
                AppLifeCycleState::ForegroundPaused { was_active: next_was_active } => {
                    if prev_was_active != next_was_active {
                        vec![next]
                    } else {
                        Vec::new()
                    }
                },
                AppLifeCycleState::ForegroundActive => vec![next],
            },
            AppLifeCycleState::ForegroundActive => match next {
                AppLifeCycleState::Background { did_exit } => {
                    let mut v = vec![
                        AppLifeCycleState::ForegroundPaused { was_active: true },
                        AppLifeCycleState::Background { did_exit: false },
                    ];
                    if did_exit {
                        v.push(next);
                    }
                    v
                },
                AppLifeCycleState::ForegroundPaused { .. } => {
                    vec![AppLifeCycleState::ForegroundPaused { was_active: true }]
                },
                AppLifeCycleState::ForegroundActive => Vec::new(),
            },
        }
    }

    /// Moves to `next`: reports the states between the current one and `next`
    /// and makes the last of them current, or reports nothing where there is
    /// no change.
    fn move_to(&mut self, next: AppLifeCycleState) -> (r: Option<Vec<AppLifeCycleState>>)
        ensures
            r matches Some(v) ==> reported(old(self)@.state, Some(next)) == Some(v@),
            r is None ==> reported(old(self)@.state, Some(next)) is None,
            final(self)@.state == state_after(old(self)@.state, reported(old(self)@.state, Some(next))),
            final(self)@.platform == old(self)@.platform,
            final(self)@.is_first_mac_window_focused_event == old(self)@.is_first_mac_window_focused_event,
    {
        let states = Self::get_states_vec(self.state, next);
        if states.len() > 0 {
            self.state = states[states.len() - 1];
            Some(states)
        } else {
            None
        }
    }

    /// Handles a resume of the app: an app that has not exited becomes active.
    ///
    /// Returns the new state with the intermediate states it implies, or `None`
    /// where the state does not change.
    pub fn handle_resumed_event(&mut self) -> (r: Option<Vec<AppLifeCycleState>>)
        ensures
            opt_seq(r) == reported(old(self)@.state, resumed_target(old(self)@.state)),
            opt_seq(r) == call_report(old(self)@, HandlerCall::Resumed),
            resumed_effect(old(self)@.state, opt_seq(r), final(self)@.state),
            final(self)@ == view_after_call(old(self)@, HandlerCall::Resumed),
            final(self)@.state == state_after(old(self)@.state, opt_seq(r)),
            final(self)@.platform == old(self)@.platform,
            final(self)@.is_first_mac_window_focused_event == old(self)@.is_first_mac_window_focused_event,
            r matches Some(v) ==> v@.len() > 0 && is_chain(old(self)@.state, v@),
            old(self)@.state.spec_is_did_exit() ==> r is None,
    {
        if self.state.is_did_exit() {
            return None;
        }
        proof {
            lemma_states_between_is_chain(self@.state, AppLifeCycleState::ForegroundActive);
        }
        self.move_to(AppLifeCycleState::ForegroundActive)
    }

    /// Handles a window event; see [`window_event_target`] for the state each
    /// event asks for.
    ///
    /// Returns the new state with the intermediate states it implies, or `None`
    /// where the state does not change.
    pub fn handle_window_event(&mut self, event: &LifeCycleWindowEvent) -> (r: Option<
        Vec<AppLifeCycleState>,
    >)
        ensures
            opt_seq(r) == reported(
                old(self)@.state,
                window_event_target(
                    old(self)@.state,
                    old(self)@.platform,
                    old(self)@.is_first_mac_window_focused_event,
                    *event,
                ),
            ),
            opt_seq(r) == call_report(old(self)@, HandlerCall::Window(*event)),
            window_event_effect(
                old(self)@.state,
                old(self)@.platform,
                old(self)@.is_first_mac_window_focused_event,
                *event,
                opt_seq(r),
                final(self)@.state,
            ),
            final(self)@ == view_after_call(old(self)@, HandlerCall::Window(*event)),
            final(self)@.state == state_after(old(self)@.state, opt_seq(r)),
            final(self)@.platform == old(self)@.platform,
            final(self)@.is_first_mac_window_focused_event == first_mac_focus_after(
                old(self)@.state,
                old(self)@.platform,
                old(self)@.is_first_mac_window_focused_event,
                *event,
            ),
            r matches Some(v) ==> v@.len() > 0 && is_chain(old(self)@.state, v@),
            old(self)@.state.spec_is_did_exit() ==> r is None,
    {
        proof {
            lemma_call_effects(self@, *event);
        }
        let current_state = self.state;
        if current_state.is_did_exit() {
            return None;
        }
        let next_state = match event {
            LifeCycleWindowEvent::CloseRequested => AppLifeCycleState::Background {
                did_exit: true,
            },
            LifeCycleWindowEvent::Destroyed => AppLifeCycleState::Background { did_exit: true },
            LifeCycleWindowEvent::Focused(focused) => {
                // iOS sends a focus event on termination, which makes it hard to
                // tell an exit apart: other events drive the state there.
                if self.platform.is_ios {
                    return None;
                }
                // macOS first sends a lost focus and then a gained focus on
                // start, so the first focus event is ignored.
                if self.platform.is_macos && self.is_first_mac_window_focused_event {
                    self.is_first_mac_window_focused_event = false;
                    return None;
                }
                if *focused {
                    AppLifeCycleState::ForegroundActive
                } else if current_state.is_foreground_active() {
                    AppLifeCycleState::ForegroundPaused { was_active: true }
                } else {
                    return None;
                }
            },
            LifeCycleWindowEvent::Occluded(occluded) => {
                if *occluded && current_state.is_foreground_paused() {
                    AppLifeCycleState::Background { did_exit: false }
                } else {
                    return None;
                }
            },
            LifeCycleWindowEvent::Other => {
                return None;
            },
        };
        proof {
            lemma_states_between_is_chain(current_state, next_state);
        }
        self.move_to(next_state)
    }

    /// Handles a suspension of the app: an active app is paused, a paused app
    /// goes to the background, and an app in the background stays there.
    ///
    /// Returns the new state with the intermediate states it implies, or `None`
    /// where the state does not change.
    pub fn handle_suspended_event(&mut self) -> (r: Option<Vec<AppLifeCycleState>>)
        ensures
            opt_seq(r) == reported(old(self)@.state, suspended_target(old(self)@.state)),
            opt_seq(r) == call_report(old(self)@, HandlerCall::Suspended),
            suspended_effect(old(self)@.state, opt_seq(r), final(self)@.state),
            final(self)@ == view_after_call(old(self)@, HandlerCall::Suspended),
            final(self)@.state == state_after(old(self)@.state, opt_seq(r)),
            final(self)@.platform == old(self)@.platform,
            final(self)@.is_first_mac_window_focused_event == old(self)@.is_first_mac_window_focused_event,
            r matches Some(v) ==> v@.len() > 0 && is_chain(old(self)@.state, v@),
            old(self)@.state.spec_is_did_exit() ==> r is None,
    {
        let current_state = self.state;
        if current_state.is_did_exit() {
            return None;
        }
        let next_state = match current_state {
            AppLifeCycleState::ForegroundActive => AppLifeCycleState::ForegroundPaused {
                was_active: true,
            },
            AppLifeCycleState::ForegroundPaused { .. } => AppLifeCycleState::Background {
                did_exit: false,
            },
            AppLifeCycleState::Background { .. } => {
                return None;
            },
        };
        proof {
            lemma_states_between_is_chain(current_state, next_state);
        }
        self.move_to(next_state)
    }

    /// Handles a sign that the app is being destroyed: an app that has not
    /// exited goes to `Background { did_exit: true }`.
    ///
    /// Returns the new state with the intermediate states it implies, or `None`
    /// where the state does not change.
    pub fn handle_app_destroy_indication(&mut self) -> (r: Option<Vec<AppLifeCycleState>>)
        ensures
            opt_seq(r) == reported(old(self)@.state, destroy_target(old(self)@.state)),
            opt_seq(r) == call_report(old(self)@, HandlerCall::DestroyIndication),
            exit_effect(old(self)@.state, opt_seq(r), final(self)@.state),
            final(self)@ == view_after_call(old(self)@, HandlerCall::DestroyIndication),
            final(self)@.state == state_after(old(self)@.state, opt_seq(r)),
            final(self)@.platform == old(self)@.platform,
            final(self)@.is_first_mac_window_focused_event == old(self)@.is_first_mac_window_focused_event,
            r matches Some(v) ==> v@.len() > 0 && is_chain(old(self)@.state, v@),
            old(self)@.state.spec_is_did_exit() ==> r is None,
    {
        if self.state.is_did_exit() {
            return None;
        }
        proof {
            lemma_states_between_is_chain(self@.state, AppLifeCycleState::Background { did_exit: true });
        }
        self.move_to(AppLifeCycleState::Background { did_exit: true })
    }
}

/// Every handler call reports a sequence of moves from the handler's state, and
/// nothing once the app has exited.
pub proof fn lemma_call_report_is_chain(v: AppLifeCycleHandlerView, call: HandlerCall)
    ensures
        call_report(v, call) matches Some(states) ==> states.len() > 0 && is_chain(
            v.state,
            states,
        ),
        v.state.spec_is_did_exit() ==> call_report(v, call) is None,
{
    if let Some(next) = call_target(v, call) {
        lemma_states_between_is_chain(v.state, next);
    }
}

/// The effect of every handler call, over every state, platform and event:
/// see [`resumed_effect`], [`suspended_effect`], [`exit_effect`] and
/// [`window_event_effect`].
pub proof fn lemma_call_effects(v: AppLifeCycleHandlerView, event: LifeCycleWindowEvent)
    ensures
        resumed_effect(
            v.state,
            call_report(v, HandlerCall::Resumed),
            view_after_call(v, HandlerCall::Resumed).state,
        ),
        suspended_effect(
            v.state,
            call_report(v, HandlerCall::Suspended),
            view_after_call(v, HandlerCall::Suspended).state,
        ),
        exit_effect(
            v.state,
            call_report(v, HandlerCall::DestroyIndication),
            view_after_call(v, HandlerCall::DestroyIndication).state,
        ),
        window_event_effect(
            v.state,
            v.platform,
            v.is_first_mac_window_focused_event,
            event,
            call_report(v, HandlerCall::Window(event)),
            view_after_call(v, HandlerCall::Window(event)).state,
        ),
{
}

/// Moving to the state the app is already in reports nothing: the reported
/// states are empty exactly when the current state matches the next one.
pub proof fn lemma_same_state_reports_nothing(prev: AppLifeCycleState, next: AppLifeCycleState)
    ensures
        states_between(prev, next).len() == 0 <==> prev == next,
{
}

/// A resume makes every app that has not exited active, and a destroy
/// indication leaves every app exited: whatever the state before, the state
/// after these handlers is `ForegroundActive` (unless the app had exited) and
/// `Background { did_exit: true }`.
pub proof fn lemma_resume_activates_and_destroy_exits(state: AppLifeCycleState)
    ensures
        !state.spec_is_did_exit() ==> state_after(state, reported(state, resumed_target(state)))
            == AppLifeCycleState::ForegroundActive,
        state_after(state, reported(state, destroy_target(state))).spec_is_did_exit(),
{
}

/// The sequence inside an optional vec.
pub open spec fn opt_seq<T>(v: Option<Vec<T>>) -> Option<Seq<T>> {
    match v {
        Some(v) => Some(v@),
        None => None,
    }
}

/// Nothing follows an exit: in a sequence of moves, only the last state can be
/// `Background { did_exit: true }`.
pub proof fn lemma_chain_exit_only_last(start: AppLifeCycleState, states: Seq<AppLifeCycleState>)
    requires
        is_chain(start, states),
    ensures
        forall|i: int| 0 <= i < states.len() - 1 ==> !(#[trigger] states[i]).spec_is_did_exit(),
        start.spec_is_did_exit() ==> states.len() == 0,
{
    assert forall|i: int| 0 <= i < states.len() - 1 implies !(#[trigger] states[i]).spec_is_did_exit() by {
        assert(is_step(states[i], states[i + 1]));
    }
    if states.len() > 0 {
        assert(is_step(start, states[0]));
    }
}

/// The `was_active` flag of a paused state tells where the app came from: in a
/// sequence of moves, `ForegroundPaused { was_active }` follows
/// `ForegroundActive` exactly when `was_active` is true, and a background
/// state exactly when it is false.
pub proof fn lemma_chain_was_active_flag(start: AppLifeCycleState, states: Seq<AppLifeCycleState>)
    requires
        is_chain(start, states),
    ensures
        forall|i: int|
            0 <= i < states.len() && #[trigger] states[i] is ForegroundPaused ==> {
                let prev = if i == 0 {
                    start
                } else {
                    states[i - 1]
                };
                &&& (states[i]->was_active <==> prev is ForegroundActive)
                &&& (!states[i]->was_active <==> prev is Background)
            },
{
}

} // verus!
