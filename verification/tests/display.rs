use resonance::conductor::file_name_lower;
use resonance::display::{list_modes, nul_len, resolve_mode, scale_from_dpi, utf16_str, RawMode};
use resonance::model::{Failure, Mode};

fn raw(width: u32, height: u32, hz: u32, bits_per_pel: u32) -> RawMode {
    RawMode { width, height, hz, bits_per_pel }
}

fn mode(width: u32, height: u32, hz: u32) -> Mode {
    Mode { width, height, hz }
}

#[test]
fn list_modes_keeps_32bpp_sorted_and_deduplicated() {
    let modes = list_modes(&vec![
        raw(2880, 1620, 60, 32),
        raw(1920, 1080, 144, 32),
        raw(1920, 1080, 60, 16),
        raw(1920, 1080, 60, 32),
        raw(2880, 1620, 60, 32),
        raw(1280, 720, 60, 32),
        raw(1920, 1200, 60, 32),
    ]);
    assert_eq!(
        modes,
        vec![mode(1280, 720, 60), mode(1920, 1080, 60), mode(1920, 1080, 144), mode(1920, 1200, 60), mode(2880, 1620, 60)]
    );
}

#[test]
fn list_modes_of_nothing_is_empty() {
    assert!(list_modes(&vec![raw(800, 600, 60, 8)]).is_empty());
}

#[test]
fn resolve_mode_picks_highest_refresh() {
    let modes = vec![mode(1920, 1080, 60), mode(1920, 1080, 144), mode(1920, 1080, 120), mode(2560, 1440, 165)];
    assert_eq!(resolve_mode(1920, 1080, None, &modes), Ok(mode(1920, 1080, 144)));
    assert_eq!(resolve_mode(1920, 1080, Some(120), &modes), Ok(mode(1920, 1080, 120)));
    assert_eq!(
        resolve_mode(1920, 1080, Some(75), &modes),
        Err(Failure::ModeNotOffered { width: 1920, height: 1080, refresh: Some(75) })
    );
    assert_eq!(
        resolve_mode(3840, 2160, None, &modes),
        Err(Failure::ModeNotOffered { width: 3840, height: 2160, refresh: None })
    );
}

#[test]
fn scale_from_dpi_rounds_to_nearest_percent() {
    assert_eq!(scale_from_dpi(96), 100);
    assert_eq!(scale_from_dpi(120), 125);
    assert_eq!(scale_from_dpi(144), 150);
    assert_eq!(scale_from_dpi(192), 200);
    assert_eq!(scale_from_dpi(0), 0);
}

#[test]
fn utf16_str_stops_at_nul() {
    let mut buf = [0u16; 16];
    for (i, c) in "ASUS VG259".encode_utf16().enumerate() {
        buf[i] = c;
    }
    assert_eq!(utf16_str(&buf), "ASUS VG259");
    let full: Vec<u16> = "abc".encode_utf16().collect();
    assert_eq!(utf16_str(&full), "abc");
}

#[test]
fn utf16_str_replaces_lone_surrogates() {
    assert_eq!(utf16_str(&[0x61, 0xD800, 0x62, 0]), "a\u{FFFD}b");
    assert_eq!(utf16_str(&[0xD83D, 0xDE00]), "\u{1F600}");
}

#[test]
fn nul_len_stops_at_the_first_nul() {
    let mut buf = [0u16; 16];
    for (i, u) in "Steam.exe".encode_utf16().enumerate() {
        buf[i] = u;
    }
    assert_eq!(nul_len(&buf), 9);
    assert_eq!(file_name_lower(&buf[..nul_len(&buf)]), "steam.exe");
    let full: Vec<u16> = "ab".encode_utf16().collect();
    assert_eq!(nul_len(&full), 2);
    assert_eq!(nul_len(&[0u16, 65]), 0);
}
