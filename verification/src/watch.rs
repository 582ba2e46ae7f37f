//! The decisions of the push-style theme watcher: a background thread
//! waits for file-system events in the `current/` state directory and
//! debounces them so a whole theme switch surfaces as exactly one callback.
//! The thread itself, the clock and the event source stand outside; they
//! feed `watch_step` with what happened and carry out what it answers.

use vstd::prelude::*;

use crate::theme::Signature;

verus! {

/// Coalescing window for one swap's event burst, in milliseconds.
pub const DEBOUNCE_MS: u64 = 120;

/// How often the watcher thread checks its stop flag between events, in
/// milliseconds.
pub const TICK_MS: u64 = 200;

/// The message a watcher hands an application when the theme changed;
/// applications convert it into their own message type.
#[derive(Clone, Copy, Debug, PartialEq, Eq, Structural)]
pub struct ThemeChanged;

/// What the watcher thread observed. Times are milliseconds on a monotonic
/// clock.
#[derive(Clone, Copy, Debug, PartialEq, Eq, Structural)]
pub enum WatchEvent {
    /// A file-system event in the watched directory (access events are not
    /// reported).
    Notified { now: u64 },
    /// A tick passed without events; `stop` tells whether a stop was
    /// requested.
    Idle { now: u64, stop: bool },
    /// The event source went away.
    Disconnected,
    /// The theme was read again; `changed` tells whether its signature
    /// differs from the one last delivered.
    Reloaded { changed: bool },
    /// Reading the theme failed (the staged directory is momentarily gone
    /// during a swap).
    ReloadFailed { now: u64 },
    /// The callback ran; `keep_going` is what it returned.
    Delivered { keep_going: bool },
}

/// What the watcher thread does next.
#[derive(Clone, Copy, Debug, PartialEq, Eq, Structural)]
pub enum WatchAction {
    /// Wait for the next event or tick.
    Wait,
    /// Read the theme again.
    Reload,
    /// Adopt the freshly read theme and hand it to the callback.
    Deliver,
    /// End the thread.
    Exit,
}

/// The watcher's memory: when the latest unsettled event arrived, and
/// whether the watcher has stopped.
#[derive(Clone, Copy, Debug, PartialEq, Eq, Structural)]
pub struct WatchState {
    pub pending_since: Option<u64>,
    pub stopped: bool,
}

impl WatchState {
    /// Running, nothing pending.
    pub fn new() -> (s: WatchState)
        ensures
            s.pending_since is None,
            !s.stopped,
    {
        WatchState { pending_since: None, stopped: false }
    }
}

/// A burst has settled at `now` when its latest event is at least the
/// debounce window old.
pub open spec fn settled(since: u64, now: u64) -> bool {
    now >= since && now - since >= DEBOUNCE_MS
}

/// `state`, stopped.
pub open spec fn halted(state: WatchState) -> WatchState {
    WatchState { stopped: true, ..state }
}

/// The watcher's transitions. A stopped watcher only ever exits. Events
/// only (re)start the debounce window; a tick reloads once the window has
/// passed since the latest event, and clears it, so one burst gives one
/// reload; a changed signature is delivered; a failed read (swap in flight)
/// restarts the window, and the pending events will trigger again; a stop
/// request, a lost event source or a callback returning false stop it.
pub open spec fn step_spec(state: WatchState, event: WatchEvent) -> (WatchState, WatchAction) {
    if state.stopped {
        (state, WatchAction::Exit)
    } else {
        match event {
            WatchEvent::Notified { now } => (WatchState { pending_since: Some(now), ..state }, WatchAction::Wait),
            WatchEvent::Idle { now, stop } => if stop {
                (halted(state), WatchAction::Exit)
            } else {
                match state.pending_since {
                    None => (state, WatchAction::Wait),
                    Some(since) => if settled(since, now) {
                        (WatchState { pending_since: None, ..state }, WatchAction::Reload)
                    } else {
                        (state, WatchAction::Wait)
                    },
                }
            },
            WatchEvent::Disconnected => (halted(state), WatchAction::Exit),
            WatchEvent::Reloaded { changed } => (state, if changed {
                WatchAction::Deliver
            } else {
                WatchAction::Wait
            }),
            WatchEvent::ReloadFailed { now } => (WatchState { pending_since: Some(now), ..state }, WatchAction::Wait),
            WatchEvent::Delivered { keep_going } => if keep_going {
                (state, WatchAction::Wait)
            } else {
                (halted(state), WatchAction::Exit)
            },
        }
    }
}

/// The next state and action, as `step_spec` gives them.
pub fn watch_step(state: WatchState, event: WatchEvent) -> (r: (WatchState, WatchAction))
    ensures
        r == step_spec(state, event),
{
    if state.stopped {
        return (state, WatchAction::Exit);
    }
    match event {
        WatchEvent::Notified { now } => (WatchState { pending_since: Some(now), ..state }, WatchAction::Wait),
        WatchEvent::Idle { now, stop } => {
            if stop {
                return (WatchState { stopped: true, ..state }, WatchAction::Exit);
            }
            match state.pending_since {
                None => (state, WatchAction::Wait),
                Some(since) => {
                    if now >= since && now - since >= DEBOUNCE_MS {
                        (WatchState { pending_since: None, ..state }, WatchAction::Reload)
                    } else {
                        (state, WatchAction::Wait)
                    }
                },
            }
        },
        WatchEvent::Disconnected => (WatchState { stopped: true, ..state }, WatchAction::Exit),
        WatchEvent::Reloaded { changed } => (state, if changed {
            WatchAction::Deliver
        } else {
            WatchAction::Wait
        }),
        WatchEvent::ReloadFailed { now } => (WatchState { pending_since: Some(now), ..state }, WatchAction::Wait),
        WatchEvent::Delivered { keep_going } => if keep_going {
            (state, WatchAction::Wait)
        } else {
            (WatchState { stopped: true, ..state }, WatchAction::Exit)
        },
    }
}

/// The actions a run of events produces from `state`.
pub open spec fn run_actions(state: WatchState, events: Seq<WatchEvent>) -> Seq<WatchAction>
    decreases events.len(),
{
    if events.len() == 0 {
        Seq::empty()
    } else {
        let (next, act) = step_spec(state, events[0]);
        seq![act] + run_actions(next, events.drop_first())
    }
}

pub open spec fn is_quiet(e: WatchEvent) -> bool {
    e is Idle || e is Reloaded || e is Delivered
}

proof fn lemma_run_len(state: WatchState, events: Seq<WatchEvent>)
    ensures
        run_actions(state, events).len() == events.len(),
    decreases events.len(),
{
    if events.len() > 0 {
        let (next, act) = step_spec(state, events[0]);
        lemma_run_len(next, events.drop_first());
    }
}

/// One burst, one reload: once a reload has been asked for, ticks,
/// reload results and callbacks alone never ask for another; only a new
/// file-system event (or a failed read) can.
pub proof fn law_one_reload_per_burst(stopped: bool, events: Seq<WatchEvent>)
    requires
        forall|i: int| 0 <= i < events.len() ==> is_quiet(#[trigger] events[i]),
    ensures
        !run_actions(WatchState { pending_since: None, stopped }, events).contains(WatchAction::Reload),
    decreases events.len(),
{
    if events.len() > 0 {
        let s = WatchState { pending_since: None, stopped };
        let (next, act) = step_spec(s, events[0]);
        assert(is_quiet(events[0]));
        assert(next.pending_since is None);
        assert(act != WatchAction::Reload);
        let rest = events.drop_first();
        assert forall|i: int| 0 <= i < rest.len() implies is_quiet(#[trigger] rest[i]) by {
            assert(rest[i] == events[i + 1]);
        }
        law_one_reload_per_burst(next.stopped, rest);
        assert(next == WatchState { pending_since: None, stopped: next.stopped });
        let tail = run_actions(next, rest);
        assert(run_actions(s, events) == seq![act] + tail);
        if (seq![act] + tail).contains(WatchAction::Reload) {
            let k = choose|k: int| 0 <= k < (seq![act] + tail).len() && (seq![act] + tail)[k] == WatchAction::Reload;
            if k > 0 {
                assert(tail[k - 1] == WatchAction::Reload);
                assert(tail.contains(WatchAction::Reload));
            }
        }
    }
}

proof fn lemma_stopped_only_exits(state: WatchState, events: Seq<WatchEvent>)
    requires
        state.stopped,
    ensures
        forall|j: int| 0 <= j < events.len() ==> #[trigger] run_actions(state, events)[j] == WatchAction::Exit,
    decreases events.len(),
{
    lemma_run_len(state, events);
    if events.len() > 0 {
        let rest = events.drop_first();
        lemma_stopped_only_exits(state, rest);
        let tail = run_actions(state, rest);
        assert(run_actions(state, events) == seq![WatchAction::Exit] + tail);
        assert forall|j: int| 0 <= j < events.len() implies #[trigger] run_actions(state, events)[j]
            == WatchAction::Exit by {
            if j > 0 {
                assert(run_actions(state, events)[j] == tail[j - 1]);
            }
        }
    }
}

/// Once the watcher exits (a stop request, a lost event source, or a
/// callback that returned false) it only ever exits again: no theme is read
/// and nothing is delivered after it. A callback returning false always
/// makes it exit.
pub proof fn law_nothing_after_exit(state: WatchState, events: Seq<WatchEvent>)
    ensures
        run_actions(state, events).len() == events.len(),
        forall|i: int, j: int|
            0 <= i < j < events.len() && #[trigger] run_actions(state, events)[i] == WatchAction::Exit
                ==> #[trigger] run_actions(state, events)[j] == WatchAction::Exit,
        forall|i: int|
            0 <= i < events.len() && #[trigger] events[i] == (WatchEvent::Delivered { keep_going: false })
                ==> run_actions(state, events)[i] == WatchAction::Exit,
    decreases events.len(),
{
    lemma_run_len(state, events);
    if events.len() > 0 {
        let (next, act) = step_spec(state, events[0]);
        let rest = events.drop_first();
        law_nothing_after_exit(next, rest);
        let tail = run_actions(next, rest);
        let all = run_actions(state, events);
        assert(all == seq![act] + tail);
        if act == WatchAction::Exit {
            assert(next.stopped);
            lemma_stopped_only_exits(next, rest);
        }
        assert forall|i: int, j: int|
            0 <= i < j < events.len() && #[trigger] all[i] == WatchAction::Exit implies #[trigger] all[j]
                == WatchAction::Exit by {
            assert(all[j] == tail[j - 1]);
            if i > 0 {
                assert(all[i] == tail[i - 1]);
            }
        }
        assert forall|i: int|
            0 <= i < events.len() && #[trigger] events[i] == (WatchEvent::Delivered { keep_going: false })
                implies all[i] == WatchAction::Exit by {
            if i > 0 {
                assert(rest[i - 1] == events[i]);
                assert(all[i] == tail[i - 1]);
            }
        }
    }
}

/// The debounce window restarts at every event: whatever was pending, a
/// file-system event (or a failed read) at `t` leaves the running watcher
/// waiting with the window measured from `t`, and a tick at `now` right
/// after the event reloads exactly when `now` is at least `DEBOUNCE_MS`
/// past `t`.
pub proof fn law_debounce_restarts_at_latest_event(state: WatchState, t: u64, now: u64)
    requires
        !state.stopped,
    ensures
        step_spec(state, WatchEvent::Notified { now: t }) == (
            WatchState { pending_since: Some(t), stopped: false },
            WatchAction::Wait,
        ),
        step_spec(state, WatchEvent::ReloadFailed { now: t }) == (
            WatchState { pending_since: Some(t), stopped: false },
            WatchAction::Wait,
        ),
        run_actions(
            state,
            seq![WatchEvent::Notified { now: t }, WatchEvent::Idle { now, stop: false }],
        ) == seq![
            WatchAction::Wait,
            if now >= t + DEBOUNCE_MS {
                WatchAction::Reload
            } else {
                WatchAction::Wait
            },
        ],
{
    let evs = seq![WatchEvent::Notified { now: t }, WatchEvent::Idle { now, stop: false }];
    let s1 = step_spec(state, evs[0]).0;
    let s2 = step_spec(s1, evs[1]).0;
    let rest = evs.drop_first();
    assert(rest =~= seq![WatchEvent::Idle { now, stop: false }]);
    assert(rest.drop_first() =~= Seq::<WatchEvent>::empty());
    assert(run_actions(s2, rest.drop_first()) =~= Seq::<WatchAction>::empty());
    assert(run_actions(s1, rest) =~= seq![step_spec(s1, rest[0]).1]);
}

/// A tick asks for a reload only when an event is pending and the latest
/// one is at least `DEBOUNCE_MS` old at the tick, and then it always does.
pub proof fn law_reload_only_after_quiet_window(state: WatchState, now: u64)
    requires
        !state.stopped,
    ensures
        (step_spec(state, WatchEvent::Idle { now, stop: false }).1 == WatchAction::Reload) <==> (
        state.pending_since matches Some(p) && now >= p + DEBOUNCE_MS),
{
}

/// A stop request, a lost event source or a callback returning false ends
/// the watcher: that step and every later one answer `Exit`.
pub proof fn law_stop_ends_the_watch(state: WatchState, e: WatchEvent, rest: Seq<WatchEvent>)
    requires
        (e matches WatchEvent::Idle { stop: true, .. }) || e is Disconnected || e == (
        WatchEvent::Delivered { keep_going: false }),
    ensures
        run_actions(state, seq![e] + rest).len() == rest.len() + 1,
        forall|j: int|
            0 <= j <= rest.len() ==> #[trigger] run_actions(state, seq![e] + rest)[j] == WatchAction::Exit,
{
    let evs = seq![e] + rest;
    let (next, act) = step_spec(state, evs[0]);
    assert(evs[0] == e);
    assert(evs.drop_first() =~= rest);
    assert(act == WatchAction::Exit);
    assert(next.stopped);
    lemma_stopped_only_exits(next, rest);
    lemma_run_len(next, rest);
    let all = run_actions(state, evs);
    assert(all == seq![act] + run_actions(next, rest));
    assert forall|j: int| 0 <= j <= rest.len() implies #[trigger] all[j] == WatchAction::Exit by {
        if j > 0 {
            assert(all[j] == run_actions(next, rest)[j - 1]);
        }
    }
}

/// A running watcher hands the re-read theme on exactly when its signature
/// changed, and keeps running after a callback that returned true.
pub proof fn law_delivery_follows_change(state: WatchState, changed: bool)
    requires
        !state.stopped,
    ensures
        step_spec(state, WatchEvent::Reloaded { changed }) == (state, if changed {
            WatchAction::Deliver
        } else {
            WatchAction::Wait
        }),
        step_spec(state, WatchEvent::Delivered { keep_going: true }) == (state, WatchAction::Wait),
{
}

/// What a subscription does once a burst has settled and the theme was
/// read again.
#[derive(Clone, Copy, Debug, PartialEq, Eq, Structural)]
pub enum Delivery {
    /// The signature differs from the one delivered last: notify, and keep
    /// the fresh theme.
    Notify,
    /// Nothing was delivered yet: keep the fresh theme silently.
    Adopt,
    /// Unchanged, or the theme could not be read (swap in flight).
    Ignore,
}

/// The decision for a re-read theme: `current` is the signature of the theme
/// delivered last (none before the first read), `fresh` the one just read
/// (none when reading failed).
pub fn delivery_step(current: Option<&Signature>, fresh: Option<&Signature>) -> (d: Delivery)
    ensures
        match (current, fresh) {
            (Some(old), Some(f)) => d == (if f@ != old@ {
                Delivery::Notify
            } else {
                Delivery::Ignore
            }),
            (None, Some(_)) => d == Delivery::Adopt,
            (_, None) => d == Delivery::Ignore,
        },
{
    match (current, fresh) {
        (Some(old), Some(f)) => if *f == *old {
            Delivery::Ignore
        } else {
            Delivery::Notify
        },
        (None, Some(_)) => Delivery::Adopt,
        (_, None) => Delivery::Ignore,
    }
}

/// The shortest time between two reloads of the command-line `watch` loop,
/// in milliseconds; it covers rapid repeat switches.
pub const REPEAT_GUARD_MS: u64 = 500;

/// Whether the command-line `watch` loop reloads on this poll: only when
/// the theme changed, and not within the guard window of the last reload.
pub fn poll_should_reload(changed: bool, since_last_ms: u64) -> (r: bool)
    ensures
        r == (changed && since_last_ms >= REPEAT_GUARD_MS),
{
    changed && since_last_ms >= REPEAT_GUARD_MS
}

} // verus!
