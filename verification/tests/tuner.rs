use resonance::guard::PendingRevert;
use resonance::model::{DisplayState, Failure, Mode, Profile};
use resonance::tuner::{
    apply, apply_guarded, confirm, is_above, native_state, resolve, restore_pending, revert, state, Reply,
    Request, Step,
};

struct Fake {
    display: DisplayState,
    native: (u32, u32),
    modes: Vec<Mode>,
    range: (u32, u32),
    guard: Option<PendingRevert>,
    scale_fails: Option<Failure>,
    save_fails: Option<Failure>,
    log: Vec<String>,
}

fn mode(width: u32, height: u32, hz: u32) -> Mode {
    Mode { width, height, hz }
}

fn ds(width: u32, height: u32, hz: u32, scale: u32) -> DisplayState {
    DisplayState { mode: mode(width, height, hz), scale }
}

impl Fake {
    fn new() -> Fake {
        Fake {
            display: ds(1920, 1080, 144, 100),
            native: (1920, 1080),
            modes: vec![mode(1920, 1080, 60), mode(1920, 1080, 144), mode(2880, 1620, 60), mode(2880, 1620, 120), mode(3840, 2160, 60)],
            range: (100, 300),
            guard: None,
            scale_fails: None,
            save_fails: None,
            log: Vec::new(),
        }
    }

    fn perform(&mut self, q: &Request) -> Reply {
        self.log.push(format!("{q:?}"));
        match q {
            Request::ReadMode => Reply::Mode(self.display.mode),
            Request::ReadScale => Reply::Scale(self.display.scale),
            Request::ReadNative => Reply::Native(self.native.0, self.native.1),
            Request::ListModes => Reply::Modes(self.modes.clone()),
            Request::SwitchMode(m) => {
                self.display.mode = *m;
                Reply::Done
            }
            Request::ReadScaleRange => Reply::Range(self.range.0, self.range.1),
            Request::SetScale(s) => match &self.scale_fails {
                Some(e) => Reply::Failed(e.clone()),
                None => {
                    self.display.scale = *s;
                    Reply::Done
                }
            },
            Request::ReadGuard => Reply::Guard(self.guard),
            Request::SaveGuard(d) => match &self.save_fails {
                Some(e) => Reply::Failed(e.clone()),
                None => {
                    self.guard = Some(PendingRevert { saved: *d, created: 7 });
                    Reply::Done
                }
            },
            Request::ClearGuard => {
                self.guard = None;
                Reply::Done
            }
        }
    }

    fn apply(&mut self, target: DisplayState) -> Result<DisplayState, Failure> {
        let (mut m, mut st) = apply(target);
        loop {
            match st {
                Step::Finish(r) => return r,
                Step::Ask(q) => {
                    let reply = self.perform(&q);
                    (m, st) = m.next(reply);
                }
            }
        }
    }

    fn apply_guarded(&mut self, target: DisplayState) -> Result<DisplayState, Failure> {
        let (mut m, mut st) = apply_guarded(target);
        loop {
            match st {
                Step::Finish(r) => return r,
                Step::Ask(q) => {
                    let reply = self.perform(&q);
                    (m, st) = m.next(reply);
                }
            }
        }
    }

    fn revert(&mut self) -> Result<DisplayState, Failure> {
        let (mut m, mut st) = revert();
        loop {
            match st {
                Step::Finish(r) => return r,
                Step::Ask(q) => {
                    let reply = self.perform(&q);
                    (m, st) = m.next(reply);
                }
            }
        }
    }

    fn restore_pending(&mut self) -> Result<Option<DisplayState>, Failure> {
        let (mut m, mut st) = restore_pending();
        loop {
            match st {
                Step::Finish(r) => return r,
                Step::Ask(q) => {
                    let reply = self.perform(&q);
                    (m, st) = m.next(reply);
                }
            }
        }
    }

    fn confirm(&mut self) -> Result<(), Failure> {
        let (mut m, mut st) = confirm();
        loop {
            match st {
                Step::Finish(r) => return r,
                Step::Ask(q) => {
                    let reply = self.perform(&q);
                    (m, st) = m.next(reply);
                }
            }
        }
    }

    fn state(&mut self) -> Result<DisplayState, Failure> {
        let (mut m, mut st) = state();
        loop {
            match st {
                Step::Finish(r) => return r,
                Step::Ask(q) => {
                    let reply = self.perform(&q);
                    (m, st) = m.next(reply);
                }
            }
        }
    }

    fn native_state(&mut self) -> Result<DisplayState, Failure> {
        let (mut m, mut st) = native_state();
        loop {
            match st {
                Step::Finish(r) => return r,
                Step::Ask(q) => {
                    let reply = self.perform(&q);
                    (m, st) = m.next(reply);
                }
            }
        }
    }

    fn resolve(&mut self, p: &Profile) -> Result<DisplayState, Failure> {
        let (mut m, mut st) = resolve(p);
        loop {
            match st {
                Step::Finish(r) => return r,
                Step::Ask(q) => {
                    let reply = self.perform(&q);
                    (m, st) = m.next(reply);
                }
            }
        }
    }
}

fn profile(resolution: Option<(u32, u32)>, refresh: Option<u32>, scale: Option<u32>) -> Profile {
    Profile { name: "p".to_string(), resolution, refresh, scale }
}

#[test]
fn state_reads_mode_and_scale() {
    let mut f = Fake::new();
    assert_eq!(f.state(), Ok(ds(1920, 1080, 144, 100)));
    assert_eq!(f.log, vec!["ReadMode", "ReadScale"]);
}

#[test]
fn apply_switches_mode_then_scale_and_returns_previous() {
    let mut f = Fake::new();
    let target = ds(2880, 1620, 120, 150);
    assert_eq!(f.apply(target), Ok(ds(1920, 1080, 144, 100)));
    assert_eq!(f.display, target);
    assert_eq!(
        f.log,
        vec!["ReadMode", "ReadScale", "SwitchMode(Mode { width: 2880, height: 1620, hz: 120 })", "ReadScaleRange", "ReadScale", "SetScale(150)"]
    );
    assert_eq!(f.guard, None);
}

#[test]
fn apply_to_current_state_does_nothing() {
    let mut f = Fake::new();
    let now = f.display;
    assert_eq!(f.apply(now), Ok(now));
    assert_eq!(f.log, vec!["ReadMode", "ReadScale"]);
}

#[test]
fn apply_clamps_scale_to_supported_range() {
    let mut f = Fake::new();
    f.range = (100, 175);
    assert_eq!(f.apply(ds(3840, 2160, 60, 200)), Ok(ds(1920, 1080, 144, 100)));
    assert_eq!(f.display, ds(3840, 2160, 60, 175));
}

#[test]
fn apply_skips_scale_write_when_scale_already_right() {
    let mut f = Fake::new();
    assert_eq!(f.apply(ds(2880, 1620, 60, 100)), Ok(ds(1920, 1080, 144, 100)));
    assert_eq!(f.display, ds(2880, 1620, 60, 100));
    assert!(!f.log.iter().any(|l| l.starts_with("SetScale")));
}

#[test]
fn apply_rolls_mode_back_when_scale_write_fails() {
    let mut f = Fake::new();
    let e = Failure::ScaleUnsupported(150);
    f.scale_fails = Some(e.clone());
    assert_eq!(f.apply(ds(2880, 1620, 120, 150)), Err(e));
    assert_eq!(f.display, ds(1920, 1080, 144, 100));
    assert_eq!(f.log.last().unwrap(), "SwitchMode(Mode { width: 1920, height: 1080, hz: 144 })");
}

#[test]
fn apply_same_mode_scale_failure_reports_without_switching() {
    let mut f = Fake::new();
    let e = Failure::System("dpi".to_string());
    f.scale_fails = Some(e.clone());
    assert_eq!(f.apply(ds(1920, 1080, 144, 150)), Err(e));
    assert!(!f.log.iter().any(|l| l.starts_with("SwitchMode")));
}

#[test]
fn guarded_apply_saves_previous_before_switching() {
    let mut f = Fake::new();
    let before = f.display;
    assert_eq!(f.apply_guarded(ds(2880, 1620, 120, 150)), Ok(before));
    assert_eq!(f.guard, Some(PendingRevert { saved: before, created: 7 }));
    let save = f.log.iter().position(|l| l.starts_with("SaveGuard")).unwrap();
    let switch = f.log.iter().position(|l| l.starts_with("SwitchMode")).unwrap();
    assert!(save < switch);
}

#[test]
fn guarded_apply_to_current_state_saves_nothing() {
    let mut f = Fake::new();
    let now = f.display;
    assert_eq!(f.apply_guarded(now), Ok(now));
    assert_eq!(f.guard, None);
}

#[test]
fn guarded_apply_failure_keeps_guard() {
    let mut f = Fake::new();
    let before = f.display;
    let e = Failure::System("boom".to_string());
    f.scale_fails = Some(e.clone());
    assert_eq!(f.apply_guarded(ds(2880, 1620, 120, 150)), Err(e));
    assert_eq!(f.guard, Some(PendingRevert { saved: before, created: 7 }));
    assert_eq!(f.display, before);
}

#[test]
fn guarded_apply_refuses_to_switch_without_saving() {
    let mut f = Fake::new();
    let e = Failure::System("disk full".to_string());
    f.save_fails = Some(e.clone());
    assert_eq!(f.apply_guarded(ds(2880, 1620, 120, 150)), Err(e));
    assert_eq!(f.display, ds(1920, 1080, 144, 100));
    assert!(!f.log.iter().any(|l| l.starts_with("SwitchMode")));
}

#[test]
fn revert_undoes_guarded_apply() {
    let mut f = Fake::new();
    let before = f.display;
    f.apply_guarded(ds(3840, 2160, 60, 200)).unwrap();
    assert_eq!(f.revert(), Ok(before));
    assert_eq!(f.display, before);
    assert_eq!(f.guard, None);
}

#[test]
fn revert_without_guard_goes_native() {
    let mut f = Fake::new();
    f.display = ds(2880, 1620, 60, 150);
    assert_eq!(f.revert(), Ok(ds(1920, 1080, 144, 100)));
    assert_eq!(f.display, ds(1920, 1080, 144, 100));
}

#[test]
fn restore_pending_restores_saved_state_and_clears_guard() {
    let mut f = Fake::new();
    f.display = ds(3840, 2160, 60, 200);
    f.guard = Some(PendingRevert { saved: ds(1920, 1080, 60, 125), created: 1 });
    assert_eq!(f.restore_pending(), Ok(Some(ds(1920, 1080, 60, 125))));
    assert_eq!(f.display, ds(1920, 1080, 60, 125));
    assert_eq!(f.guard, None);
}

#[test]
fn restore_pending_without_guard_does_nothing() {
    let mut f = Fake::new();
    assert_eq!(f.restore_pending(), Ok(None));
    assert_eq!(f.log, vec!["ReadGuard"]);
}

#[test]
fn restoring_twice_is_restoring_once() {
    let mut f = Fake::new();
    f.display = ds(3840, 2160, 60, 200);
    f.guard = Some(PendingRevert { saved: ds(1920, 1080, 60, 125), created: 1 });
    assert_eq!(f.restore_pending(), Ok(Some(ds(1920, 1080, 60, 125))));
    f.log.clear();
    assert_eq!(f.restore_pending(), Ok(None));
    assert_eq!(f.display, ds(1920, 1080, 60, 125));
    assert_eq!(f.log, vec!["ReadGuard"]);
}

#[test]
fn confirm_clears_guard() {
    let mut f = Fake::new();
    f.guard = Some(PendingRevert { saved: ds(1920, 1080, 60, 100), created: 1 });
    assert_eq!(f.confirm(), Ok(()));
    assert_eq!(f.guard, None);
    assert_eq!(f.display, ds(1920, 1080, 144, 100));
}

#[test]
fn native_state_is_native_resolution_at_highest_refresh_and_100() {
    let mut f = Fake::new();
    f.display = ds(2880, 1620, 60, 150);
    assert_eq!(f.native_state(), Ok(ds(1920, 1080, 144, 100)));
}

#[test]
fn resolve_uses_profile_resolution_and_best_refresh() {
    let mut f = Fake::new();
    assert_eq!(f.resolve(&profile(Some((2880, 1620)), None, Some(150))), Ok(ds(2880, 1620, 120, 150)));
    assert_eq!(f.log, vec!["ListModes"]);
}

#[test]
fn resolve_native_profile_keeps_current_scale() {
    let mut f = Fake::new();
    f.display = ds(1920, 1080, 60, 125);
    assert_eq!(f.resolve(&profile(None, None, None)), Ok(ds(1920, 1080, 144, 125)));
}

#[test]
fn resolve_honours_pinned_refresh() {
    let mut f = Fake::new();
    assert_eq!(f.resolve(&profile(Some((2880, 1620)), Some(60), Some(150))), Ok(ds(2880, 1620, 60, 150)));
}

#[test]
fn resolve_reports_mode_not_offered() {
    let mut f = Fake::new();
    assert_eq!(
        f.resolve(&profile(Some((2560, 1440)), Some(75), None)),
        Err(Failure::ModeNotOffered { width: 2560, height: 1440, refresh: Some(75) })
    );
}

#[test]
fn os_failure_is_passed_through() {
    let (m, st) = state();
    assert!(matches!(st, Step::Ask(Request::ReadMode)));
    let (_, st) = m.next(Reply::Failed(Failure::System("no display".to_string())));
    assert!(matches!(st, Step::Finish(Err(Failure::System(ref s))) if s == "no display"));
}

#[test]
fn is_above_needs_both_dimensions() {
    assert!(is_above(mode(2880, 1620, 60), (1920, 1080)));
    assert!(is_above(mode(1920, 1080, 60), (1920, 1080)));
    assert!(!is_above(mode(2880, 1000, 60), (1920, 1080)));
    assert!(!is_above(mode(1280, 720, 60), (1920, 1080)));
}
