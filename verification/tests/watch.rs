use omarchy_theme::watch::{
    delivery_step, poll_should_reload, watch_step, Delivery, ThemeChanged, WatchAction, WatchEvent, WatchState, DEBOUNCE_MS,
};
use omarchy_theme::Signature;

#[test]
fn a_burst_gives_one_reload() {
    let mut s = WatchState::new();
    let mut reloads = 0;
    let events = [
        WatchEvent::Notified { now: 0 },
        WatchEvent::Notified { now: 30 },
        WatchEvent::Idle { now: 100, stop: false },
        WatchEvent::Notified { now: 110 },
        WatchEvent::Idle { now: 200, stop: false },
        WatchEvent::Idle { now: 230, stop: false },
        WatchEvent::Idle { now: 400, stop: false },
        WatchEvent::Idle { now: 600, stop: false },
    ];
    for e in events {
        let (next, act) = watch_step(s, e);
        s = next;
        if act == WatchAction::Reload {
            reloads += 1;
        }
    }
    assert_eq!(reloads, 1);
    assert_eq!(s.pending_since, None);
}

#[test]
fn delivery_and_stopping() {
    let s = WatchState::new();
    assert_eq!(watch_step(s, WatchEvent::Reloaded { changed: true }).1, WatchAction::Deliver);
    assert_eq!(watch_step(s, WatchEvent::Reloaded { changed: false }).1, WatchAction::Wait);
    assert_eq!(watch_step(s, WatchEvent::Delivered { keep_going: false }).1, WatchAction::Exit);
    assert_eq!(watch_step(s, WatchEvent::Delivered { keep_going: true }).1, WatchAction::Wait);
    assert_eq!(watch_step(s, WatchEvent::Disconnected).1, WatchAction::Exit);
    assert_eq!(watch_step(s, WatchEvent::Idle { now: 5, stop: true }).1, WatchAction::Exit);
    // a failed read restarts the window
    let (s2, a) = watch_step(s, WatchEvent::ReloadFailed { now: 1000 });
    assert_eq!(a, WatchAction::Wait);
    assert_eq!(s2.pending_since, Some(1000));
    assert_eq!(watch_step(s2, WatchEvent::Idle { now: 1000 + DEBOUNCE_MS - 1, stop: false }).1, WatchAction::Wait);
    assert_eq!(watch_step(s2, WatchEvent::Idle { now: 1000 + DEBOUNCE_MS, stop: false }).1, WatchAction::Reload);
}

#[test]
fn subscription_delivery_decisions() {
    let a = Signature::new(Some("one".into()), Some("x".into()), None, None);
    let b = Signature::new(Some("two".into()), Some("x".into()), None, None);
    assert_eq!(delivery_step(Some(&a), Some(&b)), Delivery::Notify);
    assert_eq!(delivery_step(Some(&a), Some(&a)), Delivery::Ignore);
    assert_eq!(delivery_step(None, Some(&a)), Delivery::Adopt);
    assert_eq!(delivery_step(Some(&a), None), Delivery::Ignore);
    assert_eq!(delivery_step(None, None), Delivery::Ignore);
    assert_eq!(ThemeChanged, ThemeChanged);
}

#[test]
fn nothing_after_a_callback_says_stop() {
    let s = WatchState::new();
    let (s, a) = watch_step(s, WatchEvent::Delivered { keep_going: false });
    assert_eq!(a, WatchAction::Exit);
    assert!(s.stopped);
    for e in [
        WatchEvent::Notified { now: 0 },
        WatchEvent::Idle { now: 1000, stop: false },
        WatchEvent::Reloaded { changed: true },
        WatchEvent::Delivered { keep_going: true },
    ] {
        assert_eq!(watch_step(s, e), (s, WatchAction::Exit));
    }
}

#[test]
fn watch_command_guards_repeat_switches() {
    assert!(!poll_should_reload(false, 10_000));
    assert!(!poll_should_reload(true, 499));
    assert!(poll_should_reload(true, 500));
}
