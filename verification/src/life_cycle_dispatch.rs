use crate::app_life_cycle_handler::{
    call_report, is_chain, lemma_call_report_is_chain, lemma_chain_exit_only_last,
    lemma_resume_activates_and_destroy_exits, view_after_call, AppLifeCycleHandlerView,
    HandlerCall,
};
use crate::app_life_cycle_state::AppLifeCycleState;
use vstd::prelude::*;

verus! {

/// What the running app is told, in order, when the app-life-cycle state
/// changes.
#[derive(PartialEq, Eq, Structural, Debug, Clone, Copy)]
pub enum LifeCycleAction {
    /// Save the app state (the window settings, the egui memory and the app's
    /// own data) and flush the storage.
    Save,
    /// Tell the app about its new app-life-cycle state.
    StateChange(AppLifeCycleState),
    /// Tell the app that it is shutting down.
    Exit,
}

/// The actions for one new state: an exit is announced and then followed by
/// the shutdown notice; a switch from active to paused saves the app state
/// before it is announced; any other state is only announced.
pub open spec fn actions_for_state(next: AppLifeCycleState) -> Seq<LifeCycleAction> {
    if next.spec_is_did_exit() {
        seq![LifeCycleAction::StateChange(next), LifeCycleAction::Exit]
    } else if next.spec_is_paused_was_active() {
        seq![LifeCycleAction::Save, LifeCycleAction::StateChange(next)]
    } else {
        seq![LifeCycleAction::StateChange(next)]
    }
}

/// The actions for a sequence of new states, one state after the other.
pub open spec fn actions_for_states(states: Seq<AppLifeCycleState>) -> Seq<LifeCycleAction>
    decreases states.len(),
{
    if states.len() == 0 {
        seq![]
    } else {
        actions_for_states(states.drop_last()) + actions_for_state(states.last())
    }
}

/// The actions for the new state `next_state`.
pub fn handle_next_app_life_cycle_state(next_state: AppLifeCycleState) -> (v: Vec<LifeCycleAction>)
    ensures
        v@ == actions_for_state(next_state),
        v@.len() > 0,
        (v@.last() is Exit) <==> next_state.spec_is_did_exit(),
        v@.contains(LifeCycleAction::StateChange(next_state)),
        v@.contains(LifeCycleAction::Save) <==> next_state.spec_is_paused_was_active(),
        v@.contains(LifeCycleAction::Save) ==> v@[0] == LifeCycleAction::Save && v@[1]
            == LifeCycleAction::StateChange(next_state),
        forall|a: LifeCycleAction|
            #[trigger] v@.contains(a) ==> a == LifeCycleAction::Save || a == LifeCycleAction::Exit
                || a == LifeCycleAction::StateChange(next_state),
{
    proof {
        let s = actions_for_state(next_state);
        if next_state.spec_is_did_exit() {
            assert(s[0] == LifeCycleAction::StateChange(next_state));
            assert(!s.contains(LifeCycleAction::Save)) by {
                if s.contains(LifeCycleAction::Save) {
                    let i = choose|i: int| 0 <= i < s.len() && s[i] == LifeCycleAction::Save;
                }
            }
        } else if next_state.spec_is_paused_was_active() {
            assert(s[0] == LifeCycleAction::Save);
            assert(s[1] == LifeCycleAction::StateChange(next_state));
        } else {
            assert(s[0] == LifeCycleAction::StateChange(next_state));
            assert(!s.contains(LifeCycleAction::Save)) by {
                if s.contains(LifeCycleAction::Save) {
                    let i = choose|i: int| 0 <= i < s.len() && s[i] == LifeCycleAction::Save;
                }
            }
        }
    }
    if next_state.is_did_exit() {
        return vec![LifeCycleAction::StateChange(next_state), LifeCycleAction::Exit];
    }
    let mut v = Vec::new();
    if next_state.is_foreground_paused_was_active() {
        v.push(LifeCycleAction::Save);
    }
    v.push(LifeCycleAction::StateChange(next_state));
    v
}

/// The actions for what an app-life-cycle handler reported: nothing for `None`,
/// else the actions of each reported state in order.
pub fn handle_app_life_cycle_result(result: Option<Vec<AppLifeCycleState>>) -> (v: Vec<
    LifeCycleAction,
>)
    ensures
        result is None ==> v@ == Seq::<LifeCycleAction>::empty(),
        result matches Some(states) ==> v@ == actions_for_states(states@),
{
    let states = match result {
        None => {
            return Vec::new();
        },
        Some(states) => states,
    };
    let mut v: Vec<LifeCycleAction> = Vec::new();
    let n = states.len();
    for i in 0..n
        invariant
            n == states@.len(),
            v@ == actions_for_states(states@.take(i as int)),
    {
        assert(states@.take(i + 1).drop_last() == states@.take(i as int));
        let mut block = handle_next_app_life_cycle_state(states[i]);
        v.append(&mut block);
    }
    assert(states@.take(n as int) == states@);
    v
}

/// The steps of saving the app state when an active app is paused.
#[derive(PartialEq, Eq, Structural, Debug, Clone, Copy)]
pub struct SaveSteps {
    /// Store the position and size of the root window.
    pub save_window: bool,
    /// Store the egui memory (window positions and the like).
    pub save_egui_memory: bool,
    /// Let the app save its own data.
    pub save_app: bool,
    /// Flush the storage.
    pub flush: bool,
}

/// The steps of a save: nothing without a storage; otherwise the root window
/// is stored where it exists (after an Android suspension it does not) and
/// the options ask for it, the egui memory where the app asks for it, then the
/// app saves its own data and the storage is flushed.
pub fn app_save_steps(
    has_storage: bool,
    has_root_window: bool,
    persist_window: bool,
    persist_egui_memory: bool,
) -> (r: SaveSteps)
    ensures
        r.save_window == (has_storage && has_root_window && persist_window),
        r.save_egui_memory == (has_storage && persist_egui_memory),
        r.save_app == has_storage,
        r.flush == has_storage,
{
    if !has_storage {
        return SaveSteps { save_window: false, save_egui_memory: false, save_app: false, flush: false };
    }
    SaveSteps {
        save_window: has_root_window && persist_window,
        save_egui_memory: persist_egui_memory,
        save_app: true,
        flush: true,
    }
}

proof fn lemma_no_exit_without_exit_state(states: Seq<AppLifeCycleState>)
    requires
        forall|i: int| 0 <= i < states.len() ==> !(#[trigger] states[i]).spec_is_did_exit(),
    ensures
        forall|j: int|
            0 <= j < actions_for_states(states).len() ==> !(#[trigger] actions_for_states(
                states,
            )[j] is Exit),
    decreases states.len(),
{
    if states.len() > 0 {
        let prefix = states.drop_last();
        assert forall|i: int| 0 <= i < prefix.len() implies !(#[trigger] prefix[i]).spec_is_did_exit() by {
            assert(prefix[i] == states[i]);
        }
        lemma_no_exit_without_exit_state(prefix);
        assert(!states[states.len() - 1].spec_is_did_exit());
    }
}

/// The shutdown notice comes last: for the states a handler reports (a
/// sequence of moves), `Exit` can only be the last action, so it is given at
/// most once.
pub proof fn lemma_exit_is_last_action(start: AppLifeCycleState, states: Seq<AppLifeCycleState>)
    requires
        is_chain(start, states),
    ensures
        forall|j: int|
            0 <= j < actions_for_states(states).len() - 1 ==> !(#[trigger] actions_for_states(
                states,
            )[j] is Exit),
{
    lemma_chain_exit_only_last(start, states);
    if states.len() > 0 {
        let prefix = states.drop_last();
        assert forall|i: int| 0 <= i < prefix.len() implies !(#[trigger] prefix[i]).spec_is_did_exit() by {
            assert(prefix[i] == states[i]);
        }
        lemma_no_exit_without_exit_state(prefix);
        let a = actions_for_states(states);
        let p = actions_for_states(prefix);
        let b = actions_for_state(states.last());
        assert(a == p + b);
        assert forall|j: int| 0 <= j < a.len() - 1 implies !(#[trigger] a[j] is Exit) by {
            if j < p.len() {
                assert(a[j] == p[j]);
            } else {
                assert(a[j] == b[j - p.len()]);
            }
        }
    }
}

/// Each save is announced right away: every `Save` action is immediately
/// followed by the announcement of `ForegroundPaused { was_active: true }`.
pub proof fn lemma_save_precedes_pause(states: Seq<AppLifeCycleState>)
    ensures
        forall|j: int|
            0 <= j < actions_for_states(states).len() && #[trigger] actions_for_states(states)[j]
                is Save ==> j + 1 < actions_for_states(states).len() && actions_for_states(
                states,
            )[j + 1] == LifeCycleAction::StateChange(
                AppLifeCycleState::ForegroundPaused { was_active: true },
            ),
    decreases states.len(),
{
    if states.len() > 0 {
        let prefix = states.drop_last();
        lemma_save_precedes_pause(prefix);
        let a = actions_for_states(states);
        let p = actions_for_states(prefix);
        let b = actions_for_state(states.last());
        assert(a == p + b);
        assert forall|j: int| 0 <= j < a.len() && #[trigger] a[j] is Save implies j + 1 < a.len()
            && a[j + 1] == LifeCycleAction::StateChange(
            AppLifeCycleState::ForegroundPaused { was_active: true },
        ) by {
            if j < p.len() {
                assert(a[j] == p[j]);
                assert(p[j] is Save);
                assert(a[j + 1] == p[j + 1]);
            } else {
                assert(a[j] == b[j - p.len()]);
                assert(a[j + 1] == b[j + 1 - p.len()]);
            }
        }
    }
}

/// The actions for what one handler call reported.
pub open spec fn report_actions(report: Option<Seq<AppLifeCycleState>>) -> Seq<LifeCycleAction> {
    match report {
        None => seq![],
        Some(states) => actions_for_states(states),
    }
}

/// The actions of a run of handler calls from the handler `v`, in order.
pub open spec fn run_actions(v: AppLifeCycleHandlerView, calls: Seq<HandlerCall>) -> Seq<
    LifeCycleAction,
>
    decreases calls.len(),
{
    if calls.len() == 0 {
        seq![]
    } else {
        report_actions(call_report(v, calls[0])) + run_actions(
            view_after_call(v, calls[0]),
            calls.drop_first(),
        )
    }
}

/// The handler after a run of handler calls.
pub open spec fn view_after_run(v: AppLifeCycleHandlerView, calls: Seq<HandlerCall>) -> AppLifeCycleHandlerView
    decreases calls.len(),
{
    if calls.len() == 0 {
        v
    } else {
        view_after_run(view_after_call(v, calls[0]), calls.drop_first())
    }
}

proof fn lemma_exited_run_is_silent(v: AppLifeCycleHandlerView, calls: Seq<HandlerCall>)
    requires
        v.state.spec_is_did_exit(),
    ensures
        run_actions(v, calls) == Seq::<LifeCycleAction>::empty(),
        view_after_run(v, calls).state == v.state,
    decreases calls.len(),
{
    if calls.len() > 0 {
        lemma_call_report_is_chain(v, calls[0]);
        lemma_exited_run_is_silent(view_after_call(v, calls[0]), calls.drop_first());
    }
}

proof fn lemma_call_actions(v: AppLifeCycleHandlerView, call: HandlerCall)
    requires
        !v.state.spec_is_did_exit(),
    ensures
        ({
            let b = report_actions(call_report(v, call));
            &&& forall|j: int| 0 <= j < b.len() - 1 ==> !(#[trigger] b[j] is Exit)
            &&& view_after_call(v, call).state.spec_is_did_exit() ==> b.len() > 0 && b.last() is Exit
            &&& !view_after_call(v, call).state.spec_is_did_exit() ==> forall|j: int|
                0 <= j < b.len() ==> !(#[trigger] b[j] is Exit)
        }),
{
    lemma_call_report_is_chain(v, call);
    if let Some(states) = call_report(v, call) {
        lemma_exit_is_last_action(v.state, states);
        lemma_chain_exit_only_last(v.state, states);
        let prefix = states.drop_last();
        assert forall|i: int| 0 <= i < prefix.len() implies !(#[trigger] prefix[i]).spec_is_did_exit() by {
            assert(prefix[i] == states[i]);
        }
        lemma_no_exit_without_exit_state(prefix);
        let a = actions_for_states(states);
        let p = actions_for_states(prefix);
        let last_block = actions_for_state(states.last());
        assert(a == p + last_block);
        if !states.last().spec_is_did_exit() {
            assert forall|j: int| 0 <= j < a.len() implies !(#[trigger] a[j] is Exit) by {
                if j < p.len() {
                    assert(a[j] == p[j]);
                } else {
                    assert(a[j] == last_block[j - p.len()]);
                }
            }
        } else {
            assert(a.last() == last_block.last());
        }
    }
}

proof fn lemma_destroy_last_exits(v: AppLifeCycleHandlerView, calls: Seq<HandlerCall>)
    requires
        calls.len() > 0,
        calls.last() == HandlerCall::DestroyIndication,
    ensures
        view_after_run(v, calls).state.spec_is_did_exit(),
    decreases calls.len(),
{
    if calls.len() == 1 {
        lemma_resume_activates_and_destroy_exits(v.state);
        assert(calls.drop_first().len() == 0);
    } else {
        let rest = calls.drop_first();
        assert(rest.last() == calls.last());
        lemma_destroy_last_exits(view_after_call(v, calls[0]), rest);
    }
}

proof fn lemma_run_exit_facts(v: AppLifeCycleHandlerView, calls: Seq<HandlerCall>)
    requires
        !v.state.spec_is_did_exit(),
    ensures
        ({
            let a = run_actions(v, calls);
            &&& forall|j: int| 0 <= j < a.len() - 1 ==> !(#[trigger] a[j] is Exit)
            &&& view_after_run(v, calls).state.spec_is_did_exit() ==> a.len() > 0 && a.last() is Exit
            &&& !view_after_run(v, calls).state.spec_is_did_exit() ==> forall|j: int|
                0 <= j < a.len() ==> !(#[trigger] a[j] is Exit)
        }),
    decreases calls.len(),
{
    if calls.len() > 0 {
        let call = calls[0];
        let rest = calls.drop_first();
        let v2 = view_after_call(v, call);
        let b = report_actions(call_report(v, call));
        let r = run_actions(v2, rest);
        let a = run_actions(v, calls);
        assert(a == b + r);
        lemma_call_actions(v, call);
        if v2.state.spec_is_did_exit() {
            lemma_exited_run_is_silent(v2, rest);
            assert(r.len() == 0);
            assert(a =~= b);
        } else {
            lemma_run_exit_facts(v2, rest);
            assert forall|j: int| 0 <= j < a.len() - 1 implies !(#[trigger] a[j] is Exit) by {
                if j < b.len() {
                    assert(a[j] == b[j]);
                } else {
                    assert(a[j] == r[j - b.len()]);
                }
            }
            if view_after_run(v, calls).state.spec_is_did_exit() {
                assert(a.last() == r.last());
            } else {
                assert forall|j: int| 0 <= j < a.len() implies !(#[trigger] a[j] is Exit) by {
                    if j < b.len() {
                        assert(a[j] == b[j]);
                    } else {
                        assert(a[j] == r[j - b.len()]);
                    }
                }
            }
        }
    }
}

/// The shutdown notice comes once, at the end, over a whole run: for any run of
/// handler calls from a handler whose app has not exited (such as a new one,
/// which starts active), `Exit` is never followed by another action (so the
/// app hears of no state change and saves nothing after it) and is given at
/// most once; it is given exactly when the app has exited at the end of the
/// run, so a run that ends with a destroy indication gives it exactly once, as
/// the last action.
pub proof fn lemma_exit_once_over_a_run(v: AppLifeCycleHandlerView, calls: Seq<HandlerCall>)
    requires
        !v.state.spec_is_did_exit(),
    ensures
        forall|j: int|
            0 <= j < run_actions(v, calls).len() - 1 ==> !(#[trigger] run_actions(v, calls)[j] is Exit),
        (exists|j: int| 0 <= j < run_actions(v, calls).len() && #[trigger] run_actions(v, calls)[j] is Exit)
            <==> view_after_run(v, calls).state.spec_is_did_exit(),
        calls.len() > 0 && calls.last() == HandlerCall::DestroyIndication ==> run_actions(v, calls).len()
            > 0 && run_actions(v, calls).last() is Exit,
{
    lemma_run_exit_facts(v, calls);
    let a = run_actions(v, calls);
    if view_after_run(v, calls).state.spec_is_did_exit() {
        assert(a[a.len() - 1] is Exit);
    }
    if calls.len() > 0 && calls.last() == HandlerCall::DestroyIndication {
        lemma_destroy_last_exits(v, calls);
    }
}

} // verus!
