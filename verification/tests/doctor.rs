use resonance::doctor::{above_native, run};
use resonance::model::Mode;
use resonance::vendor::Vendor;

fn mode(width: u32, height: u32, hz: u32) -> Mode {
    Mode { width, height, hz }
}

#[test]
fn above_native_lists_distinct_resolutions_with_max_refresh() {
    let modes = vec![
        mode(1280, 720, 60),
        mode(1920, 1080, 144),
        mode(2880, 1620, 60),
        mode(2560, 1080, 60),
        mode(2880, 1620, 120),
        mode(3840, 2160, 60),
        mode(2880, 1620, 100),
    ];
    assert_eq!(
        above_native(&modes, (1920, 1080)),
        vec![(2880, 1620, 120), (2560, 1080, 60), (3840, 2160, 60)]
    );
    assert!(above_native(&modes, (3840, 2160)).is_empty());
}

#[test]
fn report_asks_nvapi_only_of_nvidia() {
    let modes = vec![mode(1920, 1080, 144), mode(3840, 2160, 60)];
    let r = run(
        "NVIDIA GeForce RTX 3060 Ti".to_string(),
        "ASUS VG259".to_string(),
        true,
        (1920, 1080),
        mode(1920, 1080, 144),
        100,
        (100, 175),
        &modes,
    );
    assert_eq!(r.vendor, Vendor::Nvidia);
    assert!(r.nvapi_present);
    assert_eq!(r.above_native, vec![(3840, 2160, 60)]);
    assert_eq!(r.scale_range, (100, 175));
    let r = run(
        "AMD Radeon RX 7900 XTX".to_string(),
        "LG".to_string(),
        true,
        (1920, 1080),
        mode(1920, 1080, 144),
        100,
        (100, 175),
        &modes,
    );
    assert_eq!(r.vendor, Vendor::Amd);
    assert!(!r.nvapi_present);
}

#[test]
fn report_text_lists_the_ladder_heads() {
    let modes = vec![mode(1920, 1080, 144), mode(3840, 2160, 60), mode(2880, 1620, 120)];
    let r = run(
        "NVIDIA GeForce RTX 3060 Ti".to_string(),
        "ASUS VG259".to_string(),
        true,
        (1920, 1080),
        mode(1920, 1080, 144),
        100,
        (100, 175),
        &modes,
    );
    assert_eq!(
        r.head_text(),
        "adapter : NVIDIA GeForce RTX 3060 Ti [NVIDIA · NVAPI present]\n\
         monitor : ASUS VG259 (native 1920x1080)\n\
         current : 1920x1080 @144Hz @ 100% scale\n\
         scale   : 100%..175%\n\
         super-resolution: 2 above-native mode(s) ready:\n"
    );
    assert_eq!(r.ladder_line_head(0), "  3840x2160 up to 60Hz");
    assert_eq!(r.ladder_line_head(1), "  2880x1620 up to 120Hz");
}

#[test]
fn report_text_without_super_resolution_says_how_to_enable_it() {
    let modes = vec![mode(1920, 1080, 144)];
    let r = run(
        "AMD Radeon RX 7900 XTX".to_string(),
        "LG".to_string(),
        false,
        (1920, 1080),
        mode(1920, 1080, 60),
        125,
        (100, 150),
        &modes,
    );
    assert_eq!(
        r.head_text(),
        "adapter : AMD Radeon RX 7900 XTX [AMD]\n\
         monitor : LG (native 1920x1080)\n\
         current : 1920x1080 @60Hz @ 125% scale\n\
         scale   : 100%..150%\n\
         super-resolution: none available — no above-native modes exposed\n  \
         enable Virtual Super Resolution (VSR):\n  \
         AMD Software → Display → Virtual Super Resolution → Enabled\n"
    );
}

#[test]
fn modes_read_as_width_height_and_refresh() {
    assert_eq!(mode(1920, 1080, 144).text(), "1920x1080 @144Hz");
    assert_eq!(mode(0, 7, 4294967295).text(), "0x7 @4294967295Hz");
}
