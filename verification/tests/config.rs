use resonance::config::Config;

#[test]
fn default_profiles_follow_harmonic_ratios() {
    let c = Config::default_for(1920, 1080);
    assert_eq!(c.profile("fifth").unwrap().resolution, Some((2880, 1620)));
    assert_eq!(c.profile("octave").unwrap().resolution, Some((3840, 2160)));
    assert!(c.profile("fundamental").unwrap().is_native());
}
