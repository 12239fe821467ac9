use xframe::app_life_cycle_handler::{AppLifeCycleHandler, LifeCycleWindowEvent};
use xframe::app_life_cycle_state::AppLifeCycleState;
use xframe::current_platform::{CurrentPlatform, TargetOs};
use xframe::life_cycle_dispatch::{
    app_save_steps, handle_app_life_cycle_result, handle_next_app_life_cycle_state,
    LifeCycleAction, SaveSteps,
};

const ACTIVE: AppLifeCycleState = AppLifeCycleState::ForegroundActive;
const PAUSED_FROM_ACTIVE: AppLifeCycleState = AppLifeCycleState::ForegroundPaused { was_active: true };
const PAUSED_FROM_BACKGROUND: AppLifeCycleState =
    AppLifeCycleState::ForegroundPaused { was_active: false };
const BACKGROUND: AppLifeCycleState = AppLifeCycleState::Background { did_exit: false };
const EXITED: AppLifeCycleState = AppLifeCycleState::Background { did_exit: true };

fn linux() -> CurrentPlatform {
    CurrentPlatform::new(TargetOs::Linux)
}

/// A handler that has been moved to `state` by host events.
fn handler_in(platform: CurrentPlatform, state: AppLifeCycleState) -> AppLifeCycleHandler {
    let (mut h, _) = AppLifeCycleHandler::new(platform);
    match state {
        AppLifeCycleState::ForegroundActive => {}
        AppLifeCycleState::ForegroundPaused { was_active: true } => {
            h.handle_suspended_event();
        }
        AppLifeCycleState::ForegroundPaused { was_active: false } => {
            // only ever passed through on the way from the background to active
            unreachable!()
        }
        AppLifeCycleState::Background { did_exit: false } => {
            h.handle_suspended_event();
            h.handle_suspended_event();
        }
        AppLifeCycleState::Background { did_exit: true } => {
            h.handle_app_destroy_indication();
        }
    }
    h
}

#[test]
fn state_predicates() {
    assert!(ACTIVE.is_foreground_active());
    assert!(!ACTIVE.is_foreground_paused());
    assert!(!ACTIVE.is_background());
    assert!(!ACTIVE.is_did_exit());
    assert!(!ACTIVE.is_foreground_paused_was_active());

    assert!(PAUSED_FROM_ACTIVE.is_foreground_paused());
    assert!(PAUSED_FROM_ACTIVE.is_foreground_paused_was_active());
    assert!(PAUSED_FROM_BACKGROUND.is_foreground_paused());
    assert!(!PAUSED_FROM_BACKGROUND.is_foreground_paused_was_active());
    assert!(!PAUSED_FROM_BACKGROUND.is_foreground_active());

    assert!(BACKGROUND.is_background());
    assert!(!BACKGROUND.is_did_exit());
    assert!(EXITED.is_background());
    assert!(EXITED.is_did_exit());
    assert!(!EXITED.is_foreground_paused());
}

#[test]
fn platform_flags() {
    let android = CurrentPlatform::new(TargetOs::Android);
    assert!(android.is_android && android.is_mobile && !android.is_desktop && !android.is_ios);
    let ios = CurrentPlatform::new(TargetOs::Ios);
    assert!(ios.is_ios && ios.is_mobile && !ios.is_desktop && !ios.is_macos);
    let macos = CurrentPlatform::new(TargetOs::MacOs);
    assert!(macos.is_macos && macos.is_desktop && !macos.is_mobile && !macos.is_ios);
    let linux = CurrentPlatform::new(TargetOs::Linux);
    assert!(linux.is_linux && linux.is_desktop && !linux.is_windows);
    let windows = CurrentPlatform::new(TargetOs::Windows);
    assert!(windows.is_windows && windows.is_desktop && !windows.is_linux);
    let other = CurrentPlatform::new(TargetOs::Other);
    assert_eq!(
        other,
        CurrentPlatform {
            is_android: false,
            is_ios: false,
            is_mobile: false,
            is_macos: false,
            is_linux: false,
            is_windows: false,
            is_desktop: true,
        }
    );
}

#[test]
fn states_vec_from_background() {
    assert_eq!(AppLifeCycleHandler::get_states_vec(BACKGROUND, EXITED), vec![EXITED]);
    assert_eq!(
        AppLifeCycleHandler::get_states_vec(BACKGROUND, BACKGROUND),
        Vec::<AppLifeCycleState>::new()
    );
    assert_eq!(AppLifeCycleHandler::get_states_vec(EXITED, EXITED), Vec::<AppLifeCycleState>::new());
    assert_eq!(
        AppLifeCycleHandler::get_states_vec(BACKGROUND, PAUSED_FROM_ACTIVE),
        vec![PAUSED_FROM_BACKGROUND]
    );
    assert_eq!(
        AppLifeCycleHandler::get_states_vec(BACKGROUND, ACTIVE),
        vec![PAUSED_FROM_BACKGROUND, ACTIVE]
    );
}

#[test]
fn states_vec_from_paused() {
    assert_eq!(AppLifeCycleHandler::get_states_vec(PAUSED_FROM_ACTIVE, BACKGROUND), vec![BACKGROUND]);
    assert_eq!(
        AppLifeCycleHandler::get_states_vec(PAUSED_FROM_ACTIVE, EXITED),
        vec![BACKGROUND, EXITED]
    );
    assert_eq!(
        AppLifeCycleHandler::get_states_vec(PAUSED_FROM_ACTIVE, PAUSED_FROM_BACKGROUND),
        vec![PAUSED_FROM_BACKGROUND]
    );
    assert_eq!(
        AppLifeCycleHandler::get_states_vec(PAUSED_FROM_ACTIVE, PAUSED_FROM_ACTIVE),
        Vec::<AppLifeCycleState>::new()
    );
    assert_eq!(AppLifeCycleHandler::get_states_vec(PAUSED_FROM_BACKGROUND, ACTIVE), vec![ACTIVE]);
}

#[test]
fn states_vec_from_active() {
    assert_eq!(
        AppLifeCycleHandler::get_states_vec(ACTIVE, BACKGROUND),
        vec![PAUSED_FROM_ACTIVE, BACKGROUND]
    );
    assert_eq!(
        AppLifeCycleHandler::get_states_vec(ACTIVE, EXITED),
        vec![PAUSED_FROM_ACTIVE, BACKGROUND, EXITED]
    );
    assert_eq!(
        AppLifeCycleHandler::get_states_vec(ACTIVE, PAUSED_FROM_BACKGROUND),
        vec![PAUSED_FROM_ACTIVE]
    );
    assert_eq!(
        AppLifeCycleHandler::get_states_vec(ACTIVE, ACTIVE),
        Vec::<AppLifeCycleState>::new()
    );
}

#[test]
fn new_handler_is_active() {
    let (h, state) = AppLifeCycleHandler::new(linux());
    assert_eq!(state, ACTIVE);
    assert_eq!(h.app_life_cycle_state(), ACTIVE);
}

#[test]
fn suspend_resume_cycle() {
    let (mut h, _) = AppLifeCycleHandler::new(linux());
    assert_eq!(h.handle_suspended_event(), Some(vec![PAUSED_FROM_ACTIVE]));
    assert_eq!(h.handle_suspended_event(), Some(vec![BACKGROUND]));
    assert_eq!(h.handle_suspended_event(), None);
    assert_eq!(h.app_life_cycle_state(), BACKGROUND);
    assert_eq!(h.handle_resumed_event(), Some(vec![PAUSED_FROM_BACKGROUND, ACTIVE]));
    assert_eq!(h.handle_resumed_event(), None);
    assert_eq!(h.app_life_cycle_state(), ACTIVE);
}

#[test]
fn destroy_from_active_reports_every_step() {
    let (mut h, _) = AppLifeCycleHandler::new(linux());
    assert_eq!(
        h.handle_app_destroy_indication(),
        Some(vec![PAUSED_FROM_ACTIVE, BACKGROUND, EXITED])
    );
    assert_eq!(h.app_life_cycle_state(), EXITED);
}

#[test]
fn exit_is_final() {
    let mut h = handler_in(linux(), EXITED);
    assert_eq!(h.app_life_cycle_state(), EXITED);
    assert_eq!(h.handle_resumed_event(), None);
    assert_eq!(h.handle_suspended_event(), None);
    assert_eq!(h.handle_app_destroy_indication(), None);
    assert_eq!(h.handle_window_event(&LifeCycleWindowEvent::Focused(true)), None);
    assert_eq!(h.handle_window_event(&LifeCycleWindowEvent::CloseRequested), None);
    assert_eq!(h.app_life_cycle_state(), EXITED);
}

#[test]
fn window_focus_events() {
    let (mut h, _) = AppLifeCycleHandler::new(linux());
    assert_eq!(h.handle_window_event(&LifeCycleWindowEvent::Focused(false)), Some(vec![PAUSED_FROM_ACTIVE]));
    // a lost focus of an app that is not active changes nothing
    assert_eq!(h.handle_window_event(&LifeCycleWindowEvent::Focused(false)), None);
    assert_eq!(h.handle_window_event(&LifeCycleWindowEvent::Focused(true)), Some(vec![ACTIVE]));
    assert_eq!(h.handle_window_event(&LifeCycleWindowEvent::Focused(true)), None);
    assert_eq!(h.handle_window_event(&LifeCycleWindowEvent::Other), None);
}

#[test]
fn window_occluded_sends_paused_app_to_background() {
    let (mut h, _) = AppLifeCycleHandler::new(linux());
    assert_eq!(h.handle_window_event(&LifeCycleWindowEvent::Occluded(true)), None);
    h.handle_window_event(&LifeCycleWindowEvent::Focused(false));
    assert_eq!(h.handle_window_event(&LifeCycleWindowEvent::Occluded(false)), None);
    assert_eq!(h.handle_window_event(&LifeCycleWindowEvent::Occluded(true)), Some(vec![BACKGROUND]));
    assert_eq!(h.app_life_cycle_state(), BACKGROUND);
}

#[test]
fn window_close_and_destroy_exit() {
    let mut h = handler_in(linux(), BACKGROUND);
    assert_eq!(h.handle_window_event(&LifeCycleWindowEvent::CloseRequested), Some(vec![EXITED]));
    let (mut h, _) = AppLifeCycleHandler::new(linux());
    assert_eq!(
        h.handle_window_event(&LifeCycleWindowEvent::Destroyed),
        Some(vec![PAUSED_FROM_ACTIVE, BACKGROUND, EXITED])
    );
}

#[test]
fn ios_ignores_focus_events() {
    let (mut h, _) = AppLifeCycleHandler::new(CurrentPlatform::new(TargetOs::Ios));
    assert_eq!(h.handle_window_event(&LifeCycleWindowEvent::Focused(false)), None);
    assert_eq!(h.app_life_cycle_state(), ACTIVE);
    assert_eq!(h.handle_suspended_event(), Some(vec![PAUSED_FROM_ACTIVE]));
    assert_eq!(h.handle_window_event(&LifeCycleWindowEvent::Focused(true)), None);
}

#[test]
fn macos_ignores_first_focus_event() {
    let (mut h, _) = AppLifeCycleHandler::new(CurrentPlatform::new(TargetOs::MacOs));
    assert_eq!(h.handle_window_event(&LifeCycleWindowEvent::Focused(false)), None);
    assert_eq!(h.app_life_cycle_state(), ACTIVE);
    assert_eq!(h.handle_window_event(&LifeCycleWindowEvent::Focused(false)), Some(vec![PAUSED_FROM_ACTIVE]));
    assert_eq!(h.handle_window_event(&LifeCycleWindowEvent::Focused(true)), Some(vec![ACTIVE]));
}

#[test]
fn reported_chains_are_single_moves() {
    // every reported state follows the one before by one host move
    let (mut h, _) = AppLifeCycleHandler::new(linux());
    let mut prev = h.app_life_cycle_state();
    let events: Vec<Box<dyn Fn(&mut AppLifeCycleHandler) -> Option<Vec<AppLifeCycleState>>>> = vec![
        Box::new(|h| h.handle_suspended_event()),
        Box::new(|h| h.handle_suspended_event()),
        Box::new(|h| h.handle_resumed_event()),
        Box::new(|h| h.handle_window_event(&LifeCycleWindowEvent::Focused(false))),
        Box::new(|h| h.handle_window_event(&LifeCycleWindowEvent::Occluded(true))),
        Box::new(|h| h.handle_app_destroy_indication()),
    ];
    let step = |a: AppLifeCycleState, b: AppLifeCycleState| match a {
        AppLifeCycleState::Background { did_exit } => {
            !did_exit && (b == PAUSED_FROM_BACKGROUND || b == EXITED)
        }
        AppLifeCycleState::ForegroundPaused { .. } => b == ACTIVE || b == BACKGROUND,
        AppLifeCycleState::ForegroundActive => b == PAUSED_FROM_ACTIVE,
    };
    for event in events {
        if let Some(states) = event(&mut h) {
            for s in states {
                assert!(step(prev, s), "{prev:?} -> {s:?}");
                prev = s;
            }
        }
        assert_eq!(prev, h.app_life_cycle_state());
    }
    assert_eq!(prev, EXITED);
}

#[test]
fn actions_for_single_states() {
    assert_eq!(
        handle_next_app_life_cycle_state(EXITED),
        vec![LifeCycleAction::StateChange(EXITED), LifeCycleAction::Exit]
    );
    assert_eq!(
        handle_next_app_life_cycle_state(PAUSED_FROM_ACTIVE),
        vec![LifeCycleAction::Save, LifeCycleAction::StateChange(PAUSED_FROM_ACTIVE)]
    );
    assert_eq!(
        handle_next_app_life_cycle_state(PAUSED_FROM_BACKGROUND),
        vec![LifeCycleAction::StateChange(PAUSED_FROM_BACKGROUND)]
    );
    assert_eq!(handle_next_app_life_cycle_state(ACTIVE), vec![LifeCycleAction::StateChange(ACTIVE)]);
    assert_eq!(
        handle_next_app_life_cycle_state(BACKGROUND),
        vec![LifeCycleAction::StateChange(BACKGROUND)]
    );
}

#[test]
fn actions_for_a_destroyed_active_app() {
    let (mut h, _) = AppLifeCycleHandler::new(linux());
    let actions = handle_app_life_cycle_result(h.handle_app_destroy_indication());
    assert_eq!(
        actions,
        vec![
            LifeCycleAction::Save,
            LifeCycleAction::StateChange(PAUSED_FROM_ACTIVE),
            LifeCycleAction::StateChange(BACKGROUND),
            LifeCycleAction::StateChange(EXITED),
            LifeCycleAction::Exit,
        ]
    );
    // exit comes once, last; nothing is reported afterwards
    assert_eq!(handle_app_life_cycle_result(h.handle_resumed_event()), vec![]);
}

#[test]
fn actions_for_no_change() {
    assert_eq!(handle_app_life_cycle_result(None), vec![]);
    assert_eq!(handle_app_life_cycle_result(Some(vec![])), vec![]);
}

#[test]
fn save_precedes_pause_announcement() {
    let actions = handle_app_life_cycle_result(Some(vec![
        PAUSED_FROM_ACTIVE,
        BACKGROUND,
        PAUSED_FROM_BACKGROUND,
        ACTIVE,
        PAUSED_FROM_ACTIVE,
    ]));
    for (i, a) in actions.iter().enumerate() {
        if *a == LifeCycleAction::Save {
            assert_eq!(actions[i + 1], LifeCycleAction::StateChange(PAUSED_FROM_ACTIVE));
        }
    }
    assert_eq!(actions.iter().filter(|a| **a == LifeCycleAction::Save).count(), 2);
}

#[test]
fn save_steps() {
    assert_eq!(
        app_save_steps(false, true, true, true),
        SaveSteps { save_window: false, save_egui_memory: false, save_app: false, flush: false }
    );
    assert_eq!(
        app_save_steps(true, true, true, true),
        SaveSteps { save_window: true, save_egui_memory: true, save_app: true, flush: true }
    );
    assert_eq!(
        app_save_steps(true, false, true, false),
        SaveSteps { save_window: false, save_egui_memory: false, save_app: true, flush: true }
    );
    assert_eq!(
        app_save_steps(true, true, false, true),
        SaveSteps { save_window: false, save_egui_memory: true, save_app: true, flush: true }
    );
}

#[test]
fn exit_is_announced_once_over_a_run() {
    let (mut h, first) = AppLifeCycleHandler::new(linux());
    let mut actions = handle_next_app_life_cycle_state(first);
    actions.extend(handle_app_life_cycle_result(h.handle_suspended_event()));
    actions.extend(handle_app_life_cycle_result(h.handle_resumed_event()));
    actions.extend(handle_app_life_cycle_result(h.handle_window_event(&LifeCycleWindowEvent::CloseRequested)));
    actions.extend(handle_app_life_cycle_result(h.handle_resumed_event()));
    actions.extend(handle_app_life_cycle_result(h.handle_window_event(&LifeCycleWindowEvent::Destroyed)));
    actions.extend(handle_app_life_cycle_result(h.handle_app_destroy_indication()));
    assert_eq!(actions.iter().filter(|a| **a == LifeCycleAction::Exit).count(), 1);
    assert_eq!(actions.last(), Some(&LifeCycleAction::Exit));
}
