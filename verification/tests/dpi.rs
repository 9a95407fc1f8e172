use resonance::dpi::{
    dpi_set, ladder_position, relative_step, rollback_step, ClampedScaleWrite, scale_range, set_scale, step_at, DpiPlane, ScaleRange, ScaleReply,
    ScaleRequest, ScaleStep, ScaleWrite, DPI_STEPS,
};
use resonance::model::Failure;

#[test]
fn ladder_positions() {
    assert_eq!(ladder_position(100), Some(0));
    assert_eq!(ladder_position(300), Some(7));
    assert_eq!(ladder_position(500), Some(11));
    assert_eq!(ladder_position(110), None);
    assert_eq!(DPI_STEPS.len(), 12);
}

#[test]
fn range_from_probe_counts_from_recommended_step() {
    // recommended step is 150% (index 2); two steps below, four above
    let r = ScaleRange::from_probe(-2, 4);
    assert_eq!(r.recommended_idx, 2);
    assert_eq!(scale_range(&r), (100, 250));
    assert_eq!(step_at(&r, 0), 150);
    assert_eq!(step_at(&r, 100), 500);
    assert_eq!(step_at(&r, -100), 100);
}

#[test]
fn relative_step_checks_the_range() {
    let r = ScaleRange::from_probe(-2, 4);
    assert_eq!(relative_step(200, 4, &r), Ok(2));
    assert_eq!(relative_step(100, 0, &r), Ok(-2));
    assert_eq!(
        relative_step(300, 7, &r),
        Err(Failure::ScaleOutOfRange { percent: 300, min: 100, max: 250 })
    );
}

struct Panel {
    scale: u32,
    min_rel: i32,
    max_rel: i32,
    responsive: bool,
    writes: Vec<i32>,
    pauses: u32,
}

impl Panel {
    fn run(&mut self, percent: u32) -> Result<(), Failure> {
        let start = set_scale(percent);
        self.drive(start)
    }

    fn drive(&mut self, start: (ScaleWrite, ScaleStep)) -> Result<(), Failure> {
        let (mut m, mut st) = start;
        loop {
            match st {
                ScaleStep::Finish(r) => return r,
                ScaleStep::Ask(q) => {
                    let reply = match q {
                        ScaleRequest::ReadScale => ScaleReply::Scale(self.scale),
                        ScaleRequest::ProbeRange => ScaleReply::Probe { min_rel: self.min_rel, max_rel: self.max_rel },
                        ScaleRequest::WriteRelative(rel) => {
                            self.writes.push(rel);
                            if self.responsive {
                                self.scale = DPI_STEPS[(-self.min_rel + rel) as usize];
                            }
                            ScaleReply::Done
                        }
                        ScaleRequest::Pause => {
                            self.pauses += 1;
                            ScaleReply::Done
                        }
                    };
                    (m, st) = m.next(reply);
                }
            }
        }
    }
}

impl Panel {
    fn reply(&mut self, q: ScaleRequest) -> ScaleReply {
        match q {
            ScaleRequest::ReadScale => ScaleReply::Scale(self.scale),
            ScaleRequest::ProbeRange => ScaleReply::Probe { min_rel: self.min_rel, max_rel: self.max_rel },
            ScaleRequest::WriteRelative(rel) => {
                self.writes.push(rel);
                if self.responsive {
                    self.scale = DPI_STEPS[(-self.min_rel + rel) as usize];
                }
                ScaleReply::Done
            }
            ScaleRequest::Pause => {
                self.pauses += 1;
                ScaleReply::Done
            }
        }
    }

    fn run_clamped(&mut self, percent: u32) -> Result<(), Failure> {
        let (mut m, mut st): (ClampedScaleWrite, ScaleStep) = dpi_set(percent);
        loop {
            match st {
                ScaleStep::Finish(r) => return r,
                ScaleStep::Ask(q) => {
                    let reply = self.reply(q);
                    (m, st) = m.next(reply);
                }
            }
        }
    }
}

fn panel(scale: u32, responsive: bool) -> Panel {
    Panel { scale, min_rel: 0, max_rel: 7, responsive, writes: Vec::new(), pauses: 0 }
}

#[test]
fn set_scale_writes_relative_step_and_reads_back() {
    let mut p = panel(100, true);
    assert_eq!(p.run(175), Ok(()));
    assert_eq!(p.scale, 175);
    assert_eq!(p.writes, vec![3]);
}

#[test]
fn set_scale_to_current_writes_nothing() {
    let mut p = panel(150, true);
    assert_eq!(p.run(150), Ok(()));
    assert!(p.writes.is_empty());
}

#[test]
fn set_scale_refuses_off_ladder_values() {
    let mut p = panel(100, true);
    assert_eq!(p.run(110), Err(Failure::ScaleUnsupported(110)));
    assert!(p.writes.is_empty());
}

#[test]
fn set_scale_refuses_steps_outside_range() {
    let mut p = panel(100, true);
    p.max_rel = 3;
    assert_eq!(p.run(300), Err(Failure::ScaleOutOfRange { percent: 300, min: 100, max: 175 }));
    assert!(p.writes.is_empty());
}

#[test]
fn set_scale_reports_a_write_that_did_not_stick() {
    let mut p = panel(100, false);
    assert_eq!(p.run(200), Err(Failure::ScaleNotApplied { wanted: 200, actual: 100 }));
    assert_eq!(p.pauses, 20);
    // the 100% read before the write is written back
    assert_eq!(p.writes, vec![4, 0]);
}

#[test]
fn lost_write_is_written_back_at_the_starting_step() {
    // recommended step 150% (index 2); the display starts at 125%
    let mut p = Panel { scale: 125, min_rel: -2, max_rel: 5, responsive: false, writes: Vec::new(), pauses: 0 };
    assert_eq!(p.run(250), Err(Failure::ScaleNotApplied { wanted: 250, actual: 125 }));
    assert_eq!(p.writes, vec![4, -1]);
}

#[test]
fn lost_write_from_an_off_ladder_scale_is_not_written_back() {
    let mut p = panel(110, false);
    assert_eq!(p.run(200), Err(Failure::ScaleNotApplied { wanted: 200, actual: 110 }));
    assert_eq!(p.writes, vec![4]);
}

#[test]
fn rollback_step_needs_a_ladder_step_in_range() {
    let r = ScaleRange::from_probe(-2, 4);
    assert_eq!(rollback_step(125, &r), Some(-1));
    assert_eq!(rollback_step(250, &r), Some(4));
    assert_eq!(rollback_step(300, &r), None);
    assert_eq!(rollback_step(110, &r), None);
}

#[test]
fn a_lost_write_turns_scale_writes_off() {
    let mut plane = DpiPlane::new();
    assert!(plane.enabled);
    plane.record(&Ok(()));
    plane.record(&Err(Failure::ScaleUnsupported(110)));
    assert!(plane.enabled);
    let mut p = panel(100, false);
    let start = plane.begin(200).unwrap();
    let outcome = p.drive(start);
    plane.record(&outcome);
    assert!(!plane.enabled);
    assert_eq!(plane.begin(150).err(), Some(Failure::ScaleWritesDisabled(150)));
    plane.record(&Ok(()));
    assert!(!plane.enabled);
}

#[test]
fn dpi_set_writes_and_reads_back_a_supported_step() {
    let mut p = panel(100, true);
    assert_eq!(p.run_clamped(175), Ok(()));
    assert_eq!(p.scale, 175);
    assert_eq!(p.writes, vec![3]);
}

#[test]
fn dpi_set_clamps_into_the_range() {
    let mut p = panel(100, true);
    p.max_rel = 3;
    assert_eq!(p.run_clamped(300), Ok(()));
    assert_eq!(p.writes, vec![3]);
    assert_eq!(p.scale, 175);
}

#[test]
fn dpi_set_refuses_off_ladder_values_before_probing() {
    let mut p = panel(100, true);
    assert_eq!(p.run_clamped(110), Err(Failure::ScaleUnsupported(110)));
    assert!(p.writes.is_empty());
}

#[test]
fn dpi_set_reports_a_write_that_did_not_stick() {
    let mut p = panel(100, false);
    assert_eq!(p.run_clamped(200), Err(Failure::ScaleNotApplied { wanted: 200, actual: 100 }));
    assert_eq!(p.pauses, 20);
    assert_eq!(p.writes, vec![4]);
}
