use resonance::probe::{looks_dsr, nvapi_version, u32_from_blob};

#[test]
fn dsr_settings_are_recognised() {
    assert!(looks_dsr("DSR - Factors"));
    assert!(looks_dsr("Deep Learning Super Resolution"));
    assert!(looks_dsr("DSR - Smoothness"));
    assert!(looks_dsr("Smooth Scaling"));
    assert!(!looks_dsr("Vertical Sync"));
}

#[test]
fn blobs_are_little_endian() {
    assert_eq!(u32_from_blob(&[0x78, 0x56, 0x34, 0x12, 0xFF]), 0x1234_5678);
    assert_eq!(u32_from_blob(&[0xFF, 0xFF, 0xFF, 0xFF]), u32::MAX);
}

#[test]
fn versions_tag_the_size() {
    assert_eq!(nvapi_version::<[u8; 12320]>(), 12320 | (1 << 16));
    assert_eq!(nvapi_version::<u32>(), 4 | 0x10000);
}
