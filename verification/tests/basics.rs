use resonance::conductor::{file_name_lower, sample};
use resonance::config::{default_confirm_timeout, Config, ConfigError, CURRENT_VERSION};
use resonance::model::Profile;
use resonance::rules::{PowerSource, Restore};
use resonance::text::{eq_ignore_ascii_case, to_ascii_lowercase};
use resonance::vendor::Vendor;

#[test]
fn file_names_come_from_the_last_component_lower_cased() {
    let p: Vec<u16> = "C:\\Program Files\\Adobe\\Photoshop.EXE".encode_utf16().collect();
    assert_eq!(file_name_lower(&p), "photoshop.exe");
    let p: Vec<u16> = "/usr/bin/Steam".encode_utf16().collect();
    assert_eq!(file_name_lower(&p), "steam");
    let p: Vec<u16> = "plain.exe".encode_utf16().collect();
    assert_eq!(file_name_lower(&p), "plain.exe");
    let p: Vec<u16> = "dir\\".encode_utf16().collect();
    assert_eq!(file_name_lower(&p), "");
}

#[test]
fn sampling_drops_process_list_unless_needed() {
    let s = sample(false, None, Some("a.exe".into()), vec!["b.exe".into()], Some(PowerSource::Ac));
    assert!(s.running.is_empty());
    assert_eq!(s.foreground.as_deref(), Some("a.exe"));
    let s = sample(true, Some("octave".into()), None, vec!["b.exe".into()], None);
    assert_eq!(s.running, vec!["b.exe".to_string()]);
    assert_eq!(s.pinned_profile.as_deref(), Some("octave"));
}

#[test]
fn default_config_shape() {
    let c = Config::default_for(2560, 1440);
    assert_eq!(c.version, CURRENT_VERSION);
    assert_eq!(c.confirm_timeout_s, 10);
    assert_eq!(default_confirm_timeout(), 10);
    assert!(c.rules.is_empty());
    let names: Vec<&str> = c.profiles.iter().map(|p| p.name.as_str()).collect();
    assert_eq!(names, vec!["fundamental", "fifth", "octave"]);
    assert_eq!(c.profiles[1].resolution, Some((3840, 2160)));
    assert_eq!(c.profiles[2].scale, Some(200));
    assert!(c.profile("OCTAVE").is_some());
    assert!(c.profile("ninth").is_none());
}

#[test]
fn profile_lookup_takes_first_match() {
    let mut c = Config::default_for(1920, 1080);
    c.profiles.push(Profile { name: "Fifth".into(), resolution: None, refresh: Some(60), scale: None });
    assert_eq!(c.profile("FIFTH").unwrap().scale, Some(150));
}

#[test]
fn newer_configs_are_refused() {
    let mut c = Config::default_for(1920, 1080);
    assert!(c.clone().migrate().is_ok());
    c.version = CURRENT_VERSION + 1;
    assert_eq!(c.migrate().err(), Some(ConfigError::NewerVersion(2)));
}

#[test]
fn restore_defaults_to_on_exit() {
    assert_eq!(Restore::default(), Restore::OnExit);
}

#[test]
fn ascii_case_helpers() {
    assert!(eq_ignore_ascii_case("Steam.EXE", "steam.exe"));
    assert!(!eq_ignore_ascii_case("steam.exe", "steam.ex"));
    assert!(!eq_ignore_ascii_case("é", "É"));
    assert_eq!(to_ascii_lowercase("MiXeD Ünïcode"), "mixed Ünïcode");
}

#[test]
fn vendor_texts() {
    assert_eq!(Vendor::Nvidia.name(), "NVIDIA");
    assert_eq!(Vendor::Amd.feature_name(), "Virtual Super Resolution (VSR)");
    assert_eq!(Vendor::Intel.enable_hint(), "Intel Graphics Command Center → Display → Custom Resolutions");
    assert_eq!(Vendor::Unknown.name(), "Unknown");
    assert_eq!(Vendor::detect("ATI Radeon"), Vendor::Amd);
    assert_eq!(Vendor::detect("Quadro P2000"), Vendor::Nvidia);
}
