use resonance::confirm::{after_guarded_apply, ConfirmAction, ConfirmCountdown, ConfirmEvent};
use resonance::model::{DisplayState, Mode};

fn ds(width: u32, height: u32) -> DisplayState {
    DisplayState { mode: Mode { width, height, hz: 60 }, scale: 100 }
}

/// Runs a countdown over `events`, returning the action that ended it and the
/// seconds shown along the way.
fn run(c: ConfirmCountdown, events: &[ConfirmEvent]) -> (ConfirmAction, Vec<u32>) {
    let mut c = c;
    let mut shown = vec![c.remaining];
    for &e in events {
        let (next, action) = c.next(e);
        c = next;
        match action {
            ConfirmAction::Show(n) => shown.push(n),
            other => return (other, shown),
        }
    }
    (ConfirmAction::Show(c.remaining), shown)
}

#[test]
fn nothing_changed_or_skipped_confirms_at_once() {
    assert_eq!(after_guarded_apply(ds(1920, 1080), ds(1920, 1080), false, 10), Err(ConfirmAction::Confirm));
    assert_eq!(after_guarded_apply(ds(1920, 1080), ds(3840, 2160), true, 10), Err(ConfirmAction::Confirm));
}

#[test]
fn a_switch_starts_the_countdown() {
    assert_eq!(after_guarded_apply(ds(1920, 1080), ds(3840, 2160), false, 10), Ok(ConfirmCountdown { remaining: 10 }));
    assert_eq!(after_guarded_apply(ds(1920, 1080), ds(3840, 2160), false, 0), Err(ConfirmAction::Revert));
}

#[test]
fn silence_reverts_after_the_timeout() {
    let c = ConfirmCountdown { remaining: 3 };
    let (a, shown) = run(c, &[ConfirmEvent::Tick; 3]);
    assert_eq!(a, ConfirmAction::Revert);
    assert_eq!(shown, vec![3, 2, 1]);
}

#[test]
fn a_typed_line_confirms() {
    let c = ConfirmCountdown { remaining: 10 };
    let (a, shown) = run(c, &[ConfirmEvent::Tick, ConfirmEvent::Tick, ConfirmEvent::Line(1)]);
    assert_eq!(a, ConfirmAction::Confirm);
    assert_eq!(shown, vec![10, 9, 8]);
}

#[test]
fn end_of_input_does_not_confirm() {
    let c = ConfirmCountdown { remaining: 2 };
    assert_eq!(c.next(ConfirmEvent::Line(0)), (ConfirmCountdown { remaining: 1 }, ConfirmAction::Show(1)));
    assert_eq!(c.next(ConfirmEvent::Closed), (ConfirmCountdown { remaining: 1 }, ConfirmAction::Show(1)));
    let (a, _) = run(c, &[ConfirmEvent::Line(0), ConfirmEvent::Closed]);
    assert_eq!(a, ConfirmAction::Revert);
}

#[test]
fn the_last_second_reverts() {
    let c = ConfirmCountdown { remaining: 1 };
    assert_eq!(c.next(ConfirmEvent::Tick), (ConfirmCountdown { remaining: 0 }, ConfirmAction::Revert));
    assert_eq!(c.next(ConfirmEvent::Line(5)).1, ConfirmAction::Confirm);
}
