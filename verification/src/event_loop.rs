use crate::repaint_schedule::{
    due, not_due, scheduled_at, ControlFlowChange, RedrawCheck, RepaintSchedule,
};
use vstd::prelude::*;

verus! {

/// What handling an event asks of the event loop. Windows are named by their
/// id, times are nanoseconds on the event loop's clock.
#[derive(PartialEq, Eq, Structural, Debug, Clone, Copy)]
pub enum EventResult {
    Wait,
    /// Repaint the window synchronously, inside the event handler. Only for
    /// urgent cases such as a resize on Windows.
    RepaintNow(u64),
    /// Repaint the window once the event loop handles its next redraw, so that
    /// several input events can be handled in one frame.
    RepaintNext(u64),
    /// Repaint the window at the given time.
    RepaintAt(u64, u64),
    /// Start ending the execution while allowing for a proper clean-up of
    /// resources; must come before `Exit`.
    CloseRequested,
    /// The event loop exits now.
    Exit,
}

/// How the event loop ends after an event.
#[derive(PartialEq, Eq, Structural, Debug, Clone, Copy)]
pub enum ExitRequest {
    /// Keep running.
    Stay,
    /// Ask the event loop to exit and return to the caller.
    ExitLoop,
    /// Destroy the running app and end the process with exit code 0 (when the
    /// event loop was not started to return).
    Quit,
}

/// What the event loop does after handling an event, besides updating the
/// repaint schedule.
#[derive(PartialEq, Eq, Structural, Debug, Clone, Copy)]
pub struct EventLoopActions {
    /// Set the event loop's control flow to wait for the next event.
    pub set_wait: bool,
    /// Destroy the running app while the event loop still runs (a close was
    /// requested).
    pub destroy: bool,
    pub exit: ExitRequest,
}

/// The event loop's own state: when each window is to be repainted next, the
/// result to return once the loop ends, and whether the loop returns to its
/// caller when it ends.
pub struct EventLoopState<E> {
    pub windows_next_repaint_times: RepaintSchedule,
    pub return_result: Result<(), E>,
    pub run_and_return: bool,
}

/// The repaint schedule after an event result at time `now`: a repaint now or
/// next is scheduled at `now`, a repaint at a time is scheduled unless an
/// earlier one is pending, and nothing else changes the schedule.
pub open spec fn schedule_after<E>(times: Map<u64, u64>, event_result: Result<EventResult, E>, now: u64) -> Map<
    u64,
    u64,
> {
    match event_result {
        Ok(EventResult::RepaintNow(w)) => times.insert(w, now),
        Ok(EventResult::RepaintNext(w)) => times.insert(w, now),
        Ok(EventResult::RepaintAt(w, t)) => scheduled_at(times, w, t),
        _ => times,
    }
}

/// The window an event result asks to repaint, if any.
pub open spec fn event_result_window<E>(event_result: Result<EventResult, E>) -> Option<u64> {
    match event_result {
        Ok(EventResult::RepaintNow(w)) => Some(w),
        Ok(EventResult::RepaintNext(w)) => Some(w),
        Ok(EventResult::RepaintAt(w, _)) => Some(w),
        _ => None,
    }
}

/// Whether an event result ends the event loop: an `Exit`, or an error.
pub open spec fn ends_loop<E>(event_result: Result<EventResult, E>) -> bool {
    match event_result {
        Ok(EventResult::Exit) => true,
        Ok(_) => false,
        Err(_) => true,
    }
}

/// The actions for an event result.
pub open spec fn actions_for<E>(event_result: Result<EventResult, E>, run_and_return: bool) -> EventLoopActions {
    EventLoopActions {
        set_wait: event_result matches Ok(EventResult::Wait),
        destroy: event_result matches Ok(EventResult::CloseRequested),
        exit: if !ends_loop(event_result) {
            ExitRequest::Stay
        } else if run_and_return {
            ExitRequest::ExitLoop
        } else {
            ExitRequest::Quit
        },
    }
}

/// The event result for a repaint request of a viewport.
///
/// A request sent through a repaint proxy carries no pass number (`0`): it is
/// taken to be of the current pass. A request of the current pass or of the
/// one before schedules a repaint of the viewport's window at the requested
/// time (when the viewport has a window); an older request is outdated, as the
/// viewport has been repainted since.
pub open spec fn repaint_request_result(
    current_pass_nr: u64,
    cumulative_pass_nr: u64,
    sent_through_proxy: bool,
    window: Option<u64>,
    when: u64,
) -> EventResult {
    let pass_nr = if sent_through_proxy && cumulative_pass_nr == 0 {
        current_pass_nr
    } else {
        cumulative_pass_nr
    };
    if current_pass_nr == pass_nr || current_pass_nr == pass_nr + 1 {
        match window {
            Some(w) => EventResult::RepaintAt(w, when),
            None => EventResult::Wait,
        }
    } else {
        EventResult::Wait
    }
}

/// What a repaint request gives, in terms of its pass numbers: a request of the
/// viewport's current pass or of the one before (whatever the pass number,
/// the first pass too), or one sent through a proxy without a pass number,
/// repaints the viewport's window at the requested time; a viewport without a
/// window gives `Wait`; any other request is outdated and gives `Wait`.
pub open spec fn repaint_request_law(
    current_pass_nr: u64,
    cumulative_pass_nr: u64,
    sent_through_proxy: bool,
    window: Option<u64>,
    when: u64,
    r: EventResult,
) -> bool {
    let fresh = current_pass_nr == cumulative_pass_nr || current_pass_nr == cumulative_pass_nr + 1
        || (sent_through_proxy && cumulative_pass_nr == 0);
    &&& (window is Some && fresh) ==> r == EventResult::RepaintAt(window->0, when)
    &&& window is None ==> r == EventResult::Wait
    &&& !fresh ==> r == EventResult::Wait
}

/// The repaint request result follows [`repaint_request_law`] for all inputs.
pub proof fn lemma_repaint_request_law(
    current_pass_nr: u64,
    cumulative_pass_nr: u64,
    sent_through_proxy: bool,
    window: Option<u64>,
    when: u64,
)
    ensures
        repaint_request_law(
            current_pass_nr,
            cumulative_pass_nr,
            sent_through_proxy,
            window,
            when,
            repaint_request_result(current_pass_nr, cumulative_pass_nr, sent_through_proxy, window, when),
        ),
{
}

/// The event result for a repaint request of a viewport whose current pass
/// number is `current_pass_nr`; see [`repaint_request_result`].
pub fn request_repaint_event_result(
    current_pass_nr: u64,
    cumulative_pass_nr: u64,
    sent_through_proxy: bool,
    window: Option<u64>,
    when: u64,
) -> (r: EventResult)
    ensures
        r == repaint_request_result(
            current_pass_nr,
            cumulative_pass_nr,
            sent_through_proxy,
            window,
            when,
        ),
        repaint_request_law(
            current_pass_nr,
            cumulative_pass_nr,
            sent_through_proxy,
            window,
            when,
            r,
        ),
{
    proof {
        lemma_repaint_request_law(
            current_pass_nr,
            cumulative_pass_nr,
            sent_through_proxy,
            window,
            when,
        );
    }
    let mut pass_nr = cumulative_pass_nr;
    if sent_through_proxy && pass_nr == 0 {
        pass_nr = current_pass_nr;
    }
    let current = current_pass_nr == pass_nr || (pass_nr < u64::MAX && current_pass_nr == pass_nr
        + 1);
    if current {
        match window {
            Some(w) => EventResult::RepaintAt(w, when),
            None => EventResult::Wait,
        }
    } else {
        EventResult::Wait
    }
}

impl<E> EventLoopState<E> {
    /// A state with nothing scheduled and a successful result.
    pub fn new(run_and_return: bool) -> (s: Self)
        ensures
            s.windows_next_repaint_times@ == Map::<u64, u64>::empty(),
            s.return_result is Ok,
            s.run_and_return == run_and_return,
    {
        EventLoopState {
            windows_next_repaint_times: RepaintSchedule::new(),
            return_result: Ok(()),
            run_and_return,
        }
    }

    /// Handles the result of an event at time `now`: updates the repaint
    /// schedule, keeps an error as the loop's result, and says what the event
    /// loop is to do.
    pub fn handle_event_result(&mut self, event_result: Result<EventResult, E>, now: u64) -> (r:
        EventLoopActions)
        ensures
            final(self).windows_next_repaint_times@ == schedule_after(
                old(self).windows_next_repaint_times@,
                event_result,
                now,
            ),
            final(self).return_result == (match event_result {
                Err(e) => Err(e),
                Ok(_) => old(self).return_result,
            }),
            final(self).run_and_return == old(self).run_and_return,
            r == actions_for(event_result, old(self).run_and_return),
            r.set_wait <==> (event_result matches Ok(EventResult::Wait)),
            r.destroy <==> (event_result matches Ok(EventResult::CloseRequested)),
            (r.exit == ExitRequest::Stay) <==> (event_result is Ok && event_result->Ok_0
                != EventResult::Exit),
            r.exit == ExitRequest::ExitLoop ==> old(self).run_and_return,
            r.exit == ExitRequest::Quit ==> !old(self).run_and_return,
            forall|w: u64|
                event_result_window(event_result) != Some(w) ==> (#[trigger] final(self).windows_next_repaint_times@.contains_key(w)
                    == old(self).windows_next_repaint_times@.contains_key(w) && (old(self).windows_next_repaint_times@.contains_key(w) ==> final(self).windows_next_repaint_times@[w] == old(self).windows_next_repaint_times@[w])),
            event_result_window(event_result) matches Some(w) ==> final(self).windows_next_repaint_times@.contains_key(w),
            event_result matches Ok(EventResult::RepaintNow(w)) ==> final(self).windows_next_repaint_times@[w] == now,
            event_result matches Ok(EventResult::RepaintNext(w)) ==> final(self).windows_next_repaint_times@[w] == now,
    {
        let mut set_wait = false;
        let mut destroy = false;
        let mut exit = false;
        match event_result {
            Ok(EventResult::Wait) => {
                set_wait = true;
            },
            Ok(EventResult::RepaintNow(window)) => {
                self.windows_next_repaint_times.insert(window, now);
            },
            Ok(EventResult::RepaintNext(window)) => {
                self.windows_next_repaint_times.insert(window, now);
            },
            Ok(EventResult::RepaintAt(window, when)) => {
                self.windows_next_repaint_times.schedule_at(window, when);
            },
            Ok(EventResult::Exit) => {
                exit = true;
            },
            Ok(EventResult::CloseRequested) => {
                // The windows are dropped while the event loop still runs, for a
                // proper clean-up.
                destroy = true;
            },
            Err(err) => {
                exit = true;
                self.return_result = Err(err);
            },
        }
        let exit = if !exit {
            ExitRequest::Stay
        } else if self.run_and_return {
            ExitRequest::ExitLoop
        } else {
            ExitRequest::Quit
        };
        EventLoopActions { set_wait, destroy, exit }
    }

    /// Takes the windows whose repaint time has come at `now` out of the
    /// schedule; see [`RepaintSchedule::check_redraw_requests`].
    pub fn check_redraw_requests(&mut self, now: u64) -> (r: RedrawCheck)
        ensures
            final(self).windows_next_repaint_times@ == not_due(
                old(self).windows_next_repaint_times@,
                now,
            ),
            r.redraw@.no_duplicates(),
            forall|w: u64|
                r.redraw@.contains(w) <==> due(old(self).windows_next_repaint_times@, now).contains(
                    w,
                ),
            match r.control_flow {
                ControlFlowChange::WaitUntil(t) => crate::repaint_schedule::is_earliest(
                    final(self).windows_next_repaint_times@,
                    t,
                ),
                ControlFlowChange::Poll => final(self).windows_next_repaint_times@.dom().is_empty()
                    && r.redraw@.len() > 0,
                ControlFlowChange::Unchanged => final(self).windows_next_repaint_times@.dom().is_empty()
                    && r.redraw@.len() == 0,
            },
            final(self).return_result == old(self).return_result,
            final(self).run_and_return == old(self).run_and_return,
    {
        self.windows_next_repaint_times.check_redraw_requests(now)
    }
}

/// A repaint asked for is honoured: after a window is scheduled for time `t`,
/// the first redraw check at or after `t` redraws it and takes it out of the
/// schedule, and the scheduled time is never later than `t` nor than what was
/// scheduled before.
pub proof fn lemma_repaint_at_is_honoured(times: Map<u64, u64>, window: u64, t: u64, now: u64)
    requires
        t <= now,
    ensures
        scheduled_at(times, window, t)[window] <= t,
        times.contains_key(window) ==> scheduled_at(times, window, t)[window] <= times[window],
        due(scheduled_at(times, window, t), now).contains(window),
        !not_due(scheduled_at(times, window, t), now).contains_key(window),
{
}

/// A repaint that an event asks for is done: after the event result is handled
/// at `now`, the first redraw check at or after the asked time (`now` for a
/// repaint now or next) redraws the window.
pub proof fn lemma_requested_repaint_is_due<E>(
    times: Map<u64, u64>,
    event_result: Result<EventResult, E>,
    now: u64,
    later: u64,
)
    requires
        now <= later,
        match event_result {
            Ok(EventResult::RepaintAt(_, t)) => t <= later,
            _ => true,
        },
    ensures
        match event_result {
            Ok(EventResult::RepaintNow(w)) => due(schedule_after(times, event_result, now), later).contains(w),
            Ok(EventResult::RepaintNext(w)) => due(schedule_after(times, event_result, now), later).contains(w),
            Ok(EventResult::RepaintAt(w, _)) => due(schedule_after(times, event_result, now), later).contains(w),
            _ => true,
        },
{
}

/// Scheduling one window leaves the others as they were.
pub proof fn lemma_schedule_keeps_other_windows<E>(
    times: Map<u64, u64>,
    event_result: Result<EventResult, E>,
    now: u64,
    other: u64,
)
    requires
        match event_result {
            Ok(EventResult::RepaintNow(w)) => w != other,
            Ok(EventResult::RepaintNext(w)) => w != other,
            Ok(EventResult::RepaintAt(w, _)) => w != other,
            _ => true,
        },
    ensures
        schedule_after(times, event_result, now).contains_key(other) == times.contains_key(other),
        times.contains_key(other) ==> schedule_after(times, event_result, now)[other]
            == times[other],
{
}

/// An outdated repaint request, more than one pass older than the viewport's
/// current pass, is dropped: its result is `Wait`.
pub proof fn lemma_outdated_request_is_dropped(
    current_pass_nr: u64,
    cumulative_pass_nr: u64,
    sent_through_proxy: bool,
    window: Option<u64>,
    when: u64,
)
    requires
        cumulative_pass_nr != 0 || !sent_through_proxy,
        cumulative_pass_nr + 1 < current_pass_nr || current_pass_nr < cumulative_pass_nr,
    ensures
        repaint_request_result(current_pass_nr, cumulative_pass_nr, sent_through_proxy, window, when)
            == EventResult::Wait,
{
}

} // verus!
