use vstd::prelude::*;

verus! {

/// The next repaint time of a window as seen by the event loop: window id to
/// repaint time (nanoseconds on the event loop's clock).
///
/// Each window has at most one entry.
///
/// The entries are kept in a list rather than a hash map: vstd models
/// `std::collections::HashMap` only for std's own hasher, and a redraw check
/// walks all entries anyway, so a list keeps both the model and the order in
/// which windows are redrawn plain.
pub struct RepaintSchedule {
    entries: Vec<(u64, u64)>,
}

/// The time of the last entry for `window` in `entries`.
pub open spec fn lookup(entries: Seq<(u64, u64)>, window: u64) -> Option<u64>
    decreases entries.len(),
{
    if entries.len() == 0 {
        None
    } else if entries.last().0 == window {
        Some(entries.last().1)
    } else {
        lookup(entries.drop_last(), window)
    }
}

/// The map that a list of entries stands for.
pub open spec fn entries_map(entries: Seq<(u64, u64)>) -> Map<u64, u64> {
    Map::new(|w: u64| lookup(entries, w) is Some, |w: u64| lookup(entries, w)->0)
}

/// No window occurs twice in `entries`.
pub open spec fn unique_windows(entries: Seq<(u64, u64)>) -> bool {
    forall|i: int, j: int|
        0 <= i < entries.len() && 0 <= j < entries.len() && i != j ==> #[trigger] entries[i].0
            != #[trigger] entries[j].0
}

/// A map with the windows that are due at `now` left out.
pub open spec fn not_due(times: Map<u64, u64>, now: u64) -> Map<u64, u64> {
    Map::new(|w: u64| times.contains_key(w) && now < times[w], |w: u64| times[w])
}

/// The windows of `times` that are due at `now`.
pub open spec fn due(times: Map<u64, u64>, now: u64) -> Set<u64> {
    Set::new(|w: u64| times.contains_key(w) && times[w] <= now)
}

/// `times` with a repaint of `window` at `when`, or at the time already
/// scheduled for it where that is earlier.
pub open spec fn scheduled_at(times: Map<u64, u64>, window: u64, when: u64) -> Map<u64, u64> {
    times.insert(
        window,
        if times.contains_key(window) && times[window] < when {
            times[window]
        } else {
            when
        },
    )
}

/// A repaint time that is still pending at `now`.
pub open spec fn pending_at(time: Option<u64>, now: u64) -> Option<u64> {
    match time {
        Some(t) => if now < t {
            Some(t)
        } else {
            None
        },
        None => None,
    }
}

/// `t` is the earliest time in `times`.
pub open spec fn is_earliest(times: Map<u64, u64>, t: u64) -> bool {
    &&& exists|w: u64| times.contains_key(w) && times[w] == t
    &&& forall|w: u64| times.contains_key(w) ==> t <= #[trigger] times[w]
}

/// How the event loop should wait after a redraw check.
#[derive(PartialEq, Eq, Structural, Debug, Clone, Copy)]
pub enum ControlFlowChange {
    /// Leave the control flow as it is.
    Unchanged,
    /// Poll: some window was due and nothing else is scheduled.
    Poll,
    /// Sleep until the given time, the earliest repaint still scheduled.
    WaitUntil(u64),
}

/// What a redraw check found: the windows to redraw now, and how to wait.
pub struct RedrawCheck {
    pub redraw: Vec<u64>,
    pub control_flow: ControlFlowChange,
}

proof fn lemma_lookup_is_some_iff(entries: Seq<(u64, u64)>, w: u64)
    ensures
        lookup(entries, w) is Some <==> exists|i: int| 0 <= i < entries.len() && entries[i].0 == w,
    decreases entries.len(),
{
    if entries.len() > 0 {
        let p = entries.drop_last();
        lemma_lookup_is_some_iff(p, w);
        if lookup(p, w) is Some {
            let i = choose|i: int| 0 <= i < p.len() && p[i].0 == w;
            assert(entries[i] == p[i]);
        }
        if exists|i: int| 0 <= i < entries.len() && entries[i].0 == w {
            let i = choose|i: int| 0 <= i < entries.len() && entries[i].0 == w;
            if i < entries.len() - 1 {
                assert(p[i] == entries[i]);
            }
        }
    }
}

proof fn lemma_lookup_unique(entries: Seq<(u64, u64)>, i: int)
    requires
        unique_windows(entries),
        0 <= i < entries.len(),
    ensures
        lookup(entries, entries[i].0) == Some(entries[i].1),
    decreases entries.len(),
{
    if i < entries.len() - 1 {
        let p = entries.drop_last();
        assert(p[i] == entries[i]);
        assert(entries[entries.len() - 1].0 != entries[i].0);
        assert forall|a: int, b: int|
            0 <= a < p.len() && 0 <= b < p.len() && a != b implies #[trigger] p[a].0
            != #[trigger] p[b].0 by {
            assert(p[a] == entries[a]);
            assert(p[b] == entries[b]);
        }
        lemma_lookup_unique(p, i);
    }
}

proof fn lemma_lookup_push(entries: Seq<(u64, u64)>, e: (u64, u64), w: u64)
    ensures
        lookup(entries.push(e), w) == if e.0 == w {
            Some(e.1)
        } else {
            lookup(entries, w)
        },
{
    assert(entries.push(e).drop_last() == entries);
}

impl View for RepaintSchedule {
    type V = Map<u64, u64>;

    closed spec fn view(&self) -> Map<u64, u64> {
        entries_map(self.entries@)
    }
}

impl RepaintSchedule {
    /// Each window has at most one entry.
    #[verifier::type_invariant]
    closed spec fn wf(self) -> bool {
        unique_windows(self.entries@)
    }

    /// An empty schedule.
    pub fn new() -> (s: Self)
        ensures
            s@ == Map::<u64, u64>::empty(),
    {
        let s = RepaintSchedule { entries: Vec::new() };
        assert(s@ =~= Map::<u64, u64>::empty());
        s
    }

    /// The repaint time of `window`, if one is scheduled.
    pub fn get(&self, window: u64) -> (r: Option<u64>)
        ensures
            r == (if self@.contains_key(window) {
                Some(self@[window])
            } else {
                None
            }),
    {
        proof {
            use_type_invariant(self);
        }
        let n = self.entries.len();
        for i in 0..n
            invariant
                n == self.entries@.len(),
                unique_windows(self.entries@),
                forall|j: int| 0 <= j < i ==> self.entries@[j].0 != window,
        {
            if self.entries[i].0 == window {
                proof {
                    lemma_lookup_unique(self.entries@, i as int);
                }
                return Some(self.entries[i].1);
            }
        }
        proof {
            lemma_lookup_is_some_iff(self.entries@, window);
        }
        None
    }

    /// Schedules a repaint of `window` at `when`, replacing what was scheduled
    /// for it.
    pub fn insert(&mut self, window: u64, when: u64)
        ensures
            final(self)@ == old(self)@.insert(window, when),
    {
        proof {
            use_type_invariant(&*self);
        }
        let ghost old_entries = self.entries@;
        let n = self.entries.len();
        let mut kept: Vec<(u64, u64)> = Vec::new();
        for i in 0..n
            invariant
                n == self.entries@.len(),
                self.entries@ == old_entries,
                unique_windows(old_entries),
                unique_windows(kept@),
                forall|j: int| 0 <= j < kept@.len() ==> #[trigger] kept@[j].0 != window,
                forall|w: u64|
                    w != window ==> lookup(kept@, w) == lookup(old_entries.take(i as int), w),
        {
            let e = self.entries[i];
            proof {
                assert(old_entries.take(i + 1) == old_entries.take(i as int).push(e));
            }
            if e.0 != window {
                proof {
                    // the kept windows all come from the first `i` entries, which differ from `e`
                    assert forall|j: int| 0 <= j < kept@.len() implies #[trigger] kept@[j].0 != e.0 by {
                        if kept@[j].0 == e.0 {
                            lemma_lookup_is_some_iff(kept@, e.0);
                            lemma_lookup_is_some_iff(old_entries.take(i as int), e.0);
                            let k = choose|k: int|
                                0 <= k < old_entries.take(i as int).len() && old_entries.take(
                                    i as int,
                                )[k].0 == e.0;
                            assert(old_entries[k].0 == old_entries[i as int].0);
                        }
                    }
                }
                let ghost prev = kept@;
                kept.push(e);
                proof {
                    assert(kept@ == prev.push(e));
                    assert forall|a: int, b: int|
                        0 <= a < kept@.len() && 0 <= b < kept@.len() && a != b implies #[trigger] kept@[a].0
                        != #[trigger] kept@[b].0 by {
                        if a < prev.len() {
                            assert(kept@[a] == prev[a]);
                        }
                        if b < prev.len() {
                            assert(kept@[b] == prev[b]);
                        }
                    }
                    assert forall|w: u64| w != window implies lookup(kept@, w) == lookup(
                        old_entries.take(i + 1),
                        w,
                    ) by {
                        lemma_lookup_push(prev, e, w);
                        assert(lookup(prev, w) == lookup(old_entries.take(i as int), w));
                        lemma_lookup_push(old_entries.take(i as int), e, w);
                    }
                }
            } else {
                proof {
                    assert forall|w: u64| w != window implies lookup(kept@, w) == lookup(
                        old_entries.take(i + 1),
                        w,
                    ) by {
                        lemma_lookup_push(old_entries.take(i as int), e, w);
                    }
                }
            }
        }
        proof {
            assert(old_entries.take(n as int) == old_entries);
            assert forall|j: int| 0 <= j < kept@.len() implies #[trigger] kept@[j].0 != window by {}
        }
        let ghost kept_before = kept@;
        kept.push((window, when));
        proof {
            assert forall|a: int, b: int|
                0 <= a < kept@.len() && 0 <= b < kept@.len() && a != b implies #[trigger] kept@[a].0
                != #[trigger] kept@[b].0 by {
                if a < kept_before.len() {
                    assert(kept@[a] == kept_before[a]);
                }
                if b < kept_before.len() {
                    assert(kept@[b] == kept_before[b]);
                }
            }
            assert(kept@ == kept_before.push((window, when)));
            assert forall|w: u64| #[trigger] lookup(kept@, w) == (if w == window {
                Some(when)
            } else {
                lookup(old_entries, w)
            }) by {
                lemma_lookup_push(kept_before, (window, when), w);
            }
        }
        self.entries = kept;
        proof {
            assert(self@ =~= old(self)@.insert(window, when));
        }
    }

    /// Schedules a repaint of `window` at `when`, unless an earlier repaint of
    /// it is already scheduled.
    pub fn schedule_at(&mut self, window: u64, when: u64)
        ensures
            final(self)@ == scheduled_at(old(self)@, window, when),
            final(self)@.contains_key(window),
            final(self)@[window] <= when,
            old(self)@.contains_key(window) ==> final(self)@[window] <= old(self)@[window],
            final(self)@[window] == when || (old(self)@.contains_key(window) && final(self)@[window]
                == old(self)@[window]),
            forall|w: u64|
                w != window ==> (#[trigger] final(self)@.contains_key(w) == old(self)@.contains_key(
                    w,
                ) && (old(self)@.contains_key(w) ==> final(self)@[w] == old(self)@[w])),
    {
        let time = match self.get(window) {
            Some(last) => if last < when {
                last
            } else {
                when
            },
            None => when,
        };
        self.insert(window, time);
    }

    /// Takes the windows whose repaint time has come at `now` out of the
    /// schedule; they are to be redrawn. The event loop then sleeps until the
    /// earliest repaint still scheduled, or polls if none is left but some
    /// window was due.
    pub fn check_redraw_requests(&mut self, now: u64) -> (r: RedrawCheck)
        ensures
            final(self)@ == not_due(old(self)@, now),
            r.redraw@.no_duplicates(),
            forall|w: u64| r.redraw@.contains(w) <==> due(old(self)@, now).contains(w),
            match r.control_flow {
                ControlFlowChange::WaitUntil(t) => is_earliest(final(self)@, t),
                ControlFlowChange::Poll => final(self)@.dom().is_empty() && r.redraw@.len() > 0,
                ControlFlowChange::Unchanged => final(self)@.dom().is_empty() && r.redraw@.len()
                    == 0,
            },
    {
        proof {
            use_type_invariant(&*self);
        }
        let ghost old_entries = self.entries@;
        let n = self.entries.len();
        let mut kept: Vec<(u64, u64)> = Vec::new();
        let mut redraw: Vec<u64> = Vec::new();
        let mut earliest: Option<u64> = None;
        for i in 0..n
            invariant
                n == self.entries@.len(),
                self.entries@ == old_entries,
                unique_windows(old_entries),
                unique_windows(kept@),
                redraw@.no_duplicates(),
                forall|w: u64|
                    #[trigger] lookup(kept@, w) == pending_at(
                        lookup(old_entries.take(i as int), w),
                        now,
                    ),
                forall|w: u64|
                    #[trigger] redraw@.contains(w) <==> (lookup(old_entries.take(i as int), w) is Some
                        && lookup(old_entries.take(i as int), w)->0 <= now),
                earliest is None <==> kept@.len() == 0,
                earliest matches Some(t) ==> is_earliest(entries_map(kept@), t),
        {
            let e = self.entries[i];
            let ghost prefix = old_entries.take(i as int);
            proof {
                assert(old_entries.take(i + 1) == prefix.push(e));
                // `e`'s window does not occur before it
                lemma_lookup_is_some_iff(prefix, e.0);
                if lookup(prefix, e.0) is Some {
                    let k = choose|k: int| 0 <= k < prefix.len() && prefix[k].0 == e.0;
                    assert(old_entries[k].0 == old_entries[i as int].0);
                }
                assert(lookup(prefix, e.0) is None);
            }
            if now < e.1 {
                let ghost prev = kept@;
                proof {
                    assert(lookup(prev, e.0) is None);
                    lemma_lookup_is_some_iff(prev, e.0);
                }
                kept.push(e);
                proof {
                    assert(kept@ == prev.push(e));
                    assert forall|a: int, b: int|
                        0 <= a < kept@.len() && 0 <= b < kept@.len() && a != b implies #[trigger] kept@[a].0
                        != #[trigger] kept@[b].0 by {
                        if a < prev.len() {
                            assert(kept@[a] == prev[a]);
                        }
                        if b < prev.len() {
                            assert(kept@[b] == prev[b]);
                        }
                    }
                    assert forall|w: u64| #[trigger] lookup(kept@, w) == pending_at(
                        lookup(old_entries.take(i + 1), w),
                        now,
                    ) by {
                        lemma_lookup_push(prev, e, w);
                        lemma_lookup_push(prefix, e, w);
                        assert(lookup(prev, w) == pending_at(lookup(prefix, w), now));
                    }
                    assert forall|w: u64| #[trigger] redraw@.contains(w) <==> (lookup(
                        old_entries.take(i + 1),
                        w,
                    ) is Some && lookup(old_entries.take(i + 1), w)->0 <= now) by {
                        lemma_lookup_push(prefix, e, w);
                    }
                }
                let ghost old_earliest = earliest;
                earliest = match earliest {
                    None => Some(e.1),
                    Some(t) => if e.1 < t {
                        Some(e.1)
                    } else {
                        Some(t)
                    },
                };
                proof {
                    let m = entries_map(kept@);
                    let pm = entries_map(prev);
                    let t = earliest->0;
                    lemma_lookup_push(prev, e, e.0);
                    assert(m.contains_key(e.0) && m[e.0] == e.1);
                    assert forall|w: u64| m.contains_key(w) implies t <= #[trigger] m[w] by {
                        lemma_lookup_push(prev, e, w);
                        if w != e.0 {
                            assert(pm.contains_key(w) && pm[w] == m[w]);
                        }
                    }
                    if old_earliest is Some {
                        let ot = old_earliest->0;
                        if t == ot {
                            let w0 = choose|w: u64| pm.contains_key(w) && pm[w] == ot;
                            lemma_lookup_push(prev, e, w0);
                            assert(m.contains_key(w0) && m[w0] == t);
                        }
                    }
                }
            } else {
                let ghost prev = redraw@;
                redraw.push(e.0);
                proof {
                    assert(!prev.contains(e.0));
                    assert(redraw@ == prev.push(e.0));
                    assert forall|a: int, b: int|
                        0 <= a < redraw@.len() && 0 <= b < redraw@.len() && a != b implies redraw@[a]
                        != redraw@[b] by {
                        if a < prev.len() && b < prev.len() {
                            assert(redraw@[a] == prev[a] && redraw@[b] == prev[b]);
                        } else if a < prev.len() {
                            assert(redraw@[a] == prev[a]);
                            assert(prev.contains(redraw@[a]));
                        } else if b < prev.len() {
                            assert(redraw@[b] == prev[b]);
                            assert(prev.contains(redraw@[b]));
                        }
                    }
                    assert forall|w: u64| #[trigger] lookup(kept@, w) == pending_at(
                        lookup(old_entries.take(i + 1), w),
                        now,
                    ) by {
                        lemma_lookup_push(prefix, e, w);
                    }
                    assert forall|w: u64| #[trigger] redraw@.contains(w) <==> (lookup(
                        old_entries.take(i + 1),
                        w,
                    ) is Some && lookup(old_entries.take(i + 1), w)->0 <= now) by {
                        lemma_lookup_push(prefix, e, w);
                        assert(prev.contains(w) <==> (lookup(prefix, w) is Some && lookup(
                            prefix,
                            w,
                        )->0 <= now));
                        if w == e.0 {
                            assert(redraw@[redraw@.len() - 1] == w);
                        } else if redraw@.contains(w) {
                            let k = choose|k: int| 0 <= k < redraw@.len() && redraw@[k] == w;
                            assert(k < prev.len());
                            assert(prev[k] == w);
                        } else if prev.contains(w) {
                            let k = choose|k: int| 0 <= k < prev.len() && prev[k] == w;
                            assert(redraw@[k] == w);
                        }
                    }
                }
            }
        }
        proof {
            assert(old_entries.take(n as int) == old_entries);
            assert(entries_map(kept@) =~= not_due(old(self)@, now));
        }
        let ghost kept_len = kept@.len();
        self.entries = kept;
        let control_flow = match earliest {
            Some(t) => ControlFlowChange::WaitUntil(t),
            None => if redraw.len() > 0 {
                ControlFlowChange::Poll
            } else {
                ControlFlowChange::Unchanged
            },
        };
        proof {
            if earliest is None {
                assert(self@.dom() =~= Set::<u64>::empty());
            }
        }
        RedrawCheck { redraw, control_flow }
    }
}

} // verus!
