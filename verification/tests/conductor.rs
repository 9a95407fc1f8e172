use resonance::conductor::{decide, trigger_matches, Decision, SystemState};
use resonance::rules::{PowerSource, Restore, Rule, Trigger};

fn rule(name: &str, trigger: Trigger, profile: &str, priority: i32) -> Rule {
    Rule {
        name: name.into(),
        trigger,
        profile: profile.into(),
        priority,
        restore: Restore::OnExit,
    }
}

fn state() -> SystemState {
    SystemState {
        foreground: Some("photoshop.exe".into()),
        running: vec!["photoshop.exe".into(), "steam.exe".into()],
        power: Some(PowerSource::Ac),
        pinned_profile: None,
    }
}

#[test]
fn foreground_beats_nothing() {
    let rules = [rule(
        "ps",
        Trigger::Foreground("Photoshop.exe".into()),
        "fifth",
        0,
    )];
    assert_eq!(decide(&rules, &state()), Decision::Rule(&rules[0]));
}

#[test]
fn higher_priority_wins_regardless_of_order() {
    let rules = [
        rule(
            "ps",
            Trigger::Foreground("photoshop.exe".into()),
            "fifth",
            0,
        ),
        rule(
            "battery",
            Trigger::Power(PowerSource::Ac),
            "fundamental",
            100,
        ),
    ];
    let s = state();
    let Decision::Rule(winner) = decide(&rules, &s) else {
        panic!("expected rule")
    };
    assert_eq!(winner.name, "battery");
}

#[test]
fn equal_priority_falls_back_to_declaration_order() {
    let rules = [
        rule("first", Trigger::Running("steam.exe".into()), "octave", 5),
        rule(
            "second",
            Trigger::Foreground("photoshop.exe".into()),
            "fifth",
            5,
        ),
    ];
    let s = state();
    let Decision::Rule(winner) = decide(&rules, &s) else {
        panic!("expected rule")
    };
    assert_eq!(winner.name, "first");
}

#[test]
fn pin_beats_everything() {
    let rules = [rule(
        "battery",
        Trigger::Power(PowerSource::Ac),
        "fundamental",
        i32::MAX,
    )];
    let mut s = state();
    s.pinned_profile = Some("octave".into());
    assert_eq!(decide(&rules, &s), Decision::Pinned("octave"));
}

#[test]
fn no_match_is_baseline() {
    let rules = [rule(
        "battery",
        Trigger::Power(PowerSource::Battery),
        "fundamental",
        0,
    )];
    assert_eq!(decide(&rules, &state()), Decision::Baseline);
}

#[test]
fn trigger_matching_is_case_insensitive() {
    let s = state();
    assert!(trigger_matches(&Trigger::Foreground("PHOTOSHOP.EXE".into()), &s));
    assert!(trigger_matches(&Trigger::Running("Steam.exe".into()), &s));
    assert!(!trigger_matches(&Trigger::Running("blender.exe".into()), &s));
}
