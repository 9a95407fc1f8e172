use resonance::chamber::{after_profile_switch, cause_text, next_profile_index, rule_from_input, snapshot, trigger_text, Cause};
use resonance::model::{DisplayState, Mode};
use resonance::rules::{PowerSource, Restore, Rule, Trigger};

#[test]
fn triggers_read_naturally() {
    assert_eq!(trigger_text(&Trigger::Foreground("photoshop.exe".into())), "when photoshop.exe is focused");
    assert_eq!(trigger_text(&Trigger::Running("steam.exe".into())), "while steam.exe runs");
    assert_eq!(trigger_text(&Trigger::Power(PowerSource::Battery)), "on battery");
    assert_eq!(trigger_text(&Trigger::Power(PowerSource::Ac)), "on AC power");
}

#[test]
fn ui_rules_are_normalised() {
    let r = rule_from_input("  Photoshop gets DLDSR ", "foreground", " Photoshop.EXE ", "fifth".into(), 3).unwrap();
    assert_eq!(r.name, "Photoshop gets DLDSR");
    assert_eq!(r.trigger, Trigger::Foreground("photoshop.exe".into()));
    assert_eq!(r.profile, "fifth");
    assert_eq!(r.priority, 3);
    assert_eq!(r.restore, Restore::OnExit);
    let r = rule_from_input("bat", "power", "battery", "fundamental".into(), 100).unwrap();
    assert_eq!(r.trigger, Trigger::Power(PowerSource::Battery));
    let r = rule_from_input("steam", "running", "Steam.exe", "octave".into(), 0).unwrap();
    assert_eq!(r.trigger, Trigger::Running("steam.exe".into()));
}

#[test]
fn ui_rule_errors() {
    assert_eq!(
        rule_from_input("x", "power", "mains", "p".into(), 0),
        Err("power trigger must be 'ac' or 'battery', got 'mains'".to_string())
    );
    assert_eq!(
        rule_from_input("x", "schedule", "9am", "p".into(), 0),
        Err("unknown trigger kind 'schedule'".to_string())
    );
    assert_eq!(
        rule_from_input("  ", "running", "a.exe", "p".into(), 0),
        Err("rule name cannot be empty".to_string())
    );
}

#[test]
fn switching_to_native_confirms_and_unpins() {
    let o = after_profile_switch("Native", true, true, 10);
    assert_eq!(o.pin, None);
    assert_eq!(o.cause, None);
    assert!(o.confirm_now);
    assert_eq!(o.countdown, None);
}

#[test]
fn switching_to_another_profile_pins_it() {
    let o = after_profile_switch("Octave", false, true, 10);
    assert_eq!(o.pin.as_deref(), Some("Octave"));
    assert_eq!(o.cause.as_deref(), Some("pinned"));
    assert!(!o.confirm_now);
    assert_eq!(o.countdown, Some(10));
    let o = after_profile_switch("Octave", false, false, 10);
    assert_eq!(o.countdown, None);
    assert!(!o.confirm_now);
}

fn ds(width: u32, height: u32, hz: u32, scale: u32) -> DisplayState {
    DisplayState { mode: Mode { width, height, hz }, scale }
}

fn rule(name: &str, trigger: Trigger, profile: &str) -> Rule {
    Rule { name: name.into(), trigger, profile: profile.into(), priority: 0, restore: Restore::OnExit }
}

#[test]
fn snapshot_shows_profiles_and_the_driving_rule() {
    let state = ds(3840, 2160, 60, 200);
    let profiles = vec![
        ("Native".to_string(), Some(ds(1920, 1080, 144, 100))),
        ("Octave".to_string(), Some(ds(3840, 2160, 60, 200))),
        ("Broken".to_string(), None),
    ];
    let rules = vec![
        rule("Photoshop", Trigger::Foreground("photoshop.exe".into()), "Octave"),
        rule("Battery", Trigger::Power(PowerSource::Battery), "Native"),
    ];
    let s = snapshot(
        state,
        (1920, 1080),
        true,
        "NVIDIA GeForce RTX 3060 Ti".to_string(),
        "DELL U2720Q".to_string(),
        10,
        &profiles,
        &rules,
        true,
        &Some("Octave".into()),
        &Some("rule: Photoshop".into()),
        &None,
    );
    assert!(s.super_res);
    assert!(s.guard_pending);
    assert_eq!(s.adapter, "NVIDIA GeForce RTX 3060 Ti");
    assert_eq!(s.monitor, "DELL U2720Q");
    assert_eq!(s.confirm_timeout, 10);
    assert_eq!(s.mode, state.mode);
    assert_eq!(s.scale, 200);
    assert_eq!(s.native, (1920, 1080));
    assert_eq!(s.active_cause.as_deref(), Some("rule: Photoshop"));
    assert_eq!(s.pinned, None);
    assert_eq!(s.profiles.len(), 3);
    assert!(s.profiles[0].available && !s.profiles[0].active);
    assert!(s.profiles[1].available && s.profiles[1].active);
    assert_eq!(s.profiles[1].mode, Some(state.mode));
    assert_eq!(s.profiles[1].scale, Some(200));
    assert!(!s.profiles[2].available && !s.profiles[2].active);
    assert_eq!(s.profiles[2].mode, None);
    assert_eq!(s.rules[0].trigger, "when photoshop.exe is focused");
    assert!(s.rules[0].active);
    assert!(!s.rules[1].active);
}

#[test]
fn a_pinned_profile_is_not_driven_by_a_rule() {
    let rules = vec![rule("Photoshop", Trigger::Foreground("photoshop.exe".into()), "Octave")];
    let s = snapshot(
        ds(1920, 1080, 60, 100),
        (1920, 1080),
        false,
        String::new(),
        String::new(),
        10,
        &Vec::new(),
        &rules,
        false,
        &Some("Octave".into()),
        &Some("pinned".into()),
        &Some("Octave".into()),
    );
    assert!(!s.super_res);
    assert!(!s.rules[0].active);
    assert_eq!(s.pinned.as_deref(), Some("Octave"));
}

#[test]
fn causes_read_naturally() {
    assert_eq!(cause_text(&Cause::Pin), "pinned");
    assert_eq!(cause_text(&Cause::Rule("Photoshop gets DLDSR".into())), "rule: Photoshop gets DLDSR");
}

#[test]
fn cycling_moves_to_the_profile_after_the_current_one() {
    let m = |w: u32, h: u32| Some(Mode { width: w, height: h, hz: 60 });
    let resolved = vec![m(1920, 1080), None, m(3840, 2160), m(2880, 1620)];
    assert_eq!(next_profile_index(&resolved, m(3840, 2160)), Some(3));
    assert_eq!(next_profile_index(&resolved, m(2880, 1620)), Some(0));
    // nothing shows the current mode: the second profile
    assert_eq!(next_profile_index(&resolved, m(1280, 720)), Some(1));
    assert_eq!(next_profile_index(&resolved, None), Some(1));
    assert_eq!(next_profile_index(&vec![m(1920, 1080)], m(1920, 1080)), Some(0));
    assert_eq!(next_profile_index(&Vec::new(), None), None);
}
