use resonance::cli::{
    confirm_skipped, is_super_resolution, mode_mark, parse_command, parse_hex, parse_number, restores_pending_first,
    Command, ModeMark,
};
use resonance::model::Mode;
use resonance::text::IntErrorKind;

#[test]
fn commands_by_name() {
    assert_eq!(parse_command(Some("status")), Command::Status);
    assert_eq!(parse_command(Some("apply")), Command::Apply);
    assert_eq!(parse_command(Some("dpi")), Command::Dpi);
    assert_eq!(parse_command(Some("Status")), Command::Help);
    assert_eq!(parse_command(None), Command::Help);
}

#[test]
fn guard_commands_skip_crash_recovery() {
    assert!(!restores_pending_first(Command::Revert));
    assert!(!restores_pending_first(Command::Apply));
    assert!(restores_pending_first(Command::Status));
    assert!(restores_pending_first(Command::Help));
}

#[test]
fn yes_flags_skip_confirm() {
    let args: Vec<String> = vec!["apply".into(), "fifth".into(), "-y".into()];
    assert!(confirm_skipped(&args));
    let args: Vec<String> = vec!["apply".into(), "--yes".into(), "fifth".into()];
    assert!(confirm_skipped(&args));
    let args: Vec<String> = vec!["apply".into(), "fifth".into()];
    assert!(!confirm_skipped(&args));
}

#[test]
fn mode_marks() {
    let cur = Mode { width: 1920, height: 1080, hz: 144 };
    assert_eq!(mode_mark(cur, cur, (1920, 1080)), ModeMark::Current);
    assert_eq!(mode_mark(Mode { width: 2880, height: 1620, hz: 60 }, cur, (1920, 1080)), ModeMark::Super);
    assert_eq!(mode_mark(Mode { width: 1920, height: 1200, hz: 60 }, cur, (1920, 1080)), ModeMark::Super);
    assert_eq!(mode_mark(Mode { width: 1280, height: 720, hz: 60 }, cur, (1920, 1080)), ModeMark::Plain);
    assert!(is_super_resolution(Mode { width: 2560, height: 1080, hz: 60 }, (1920, 1080)));
    assert!(!is_super_resolution(cur, (1920, 1080)));
}

#[test]
fn numbers_parse_like_from_str_radix() {
    assert_eq!(parse_number("150"), Ok(150));
    assert_eq!(parse_number("+7"), Ok(7));
    assert_eq!(parse_number(""), Err(IntErrorKind::Empty));
    assert_eq!(parse_number("+"), Err(IntErrorKind::InvalidDigit));
    assert_eq!(parse_number("-1"), Err(IntErrorKind::InvalidDigit));
    assert_eq!(parse_number("12a"), Err(IntErrorKind::InvalidDigit));
    assert_eq!(parse_number("4294967295"), Ok(u32::MAX));
    assert_eq!(parse_number("4294967296"), Err(IntErrorKind::PosOverflow));
    assert_eq!(parse_number("99999999999x"), Err(IntErrorKind::PosOverflow));
    for s in ["0", "42", "+100", "-0", "x", "4294967296", ""] {
        let ours = parse_number(s);
        let std = s.parse::<u32>();
        assert_eq!(ours.is_ok(), std.is_ok(), "{s}");
        if let (Ok(a), Ok(b)) = (ours, std) {
            assert_eq!(a, b);
        }
    }
}

#[test]
fn hex_arguments() {
    assert_eq!(parse_hex("0x10"), Ok(16));
    assert_eq!(parse_hex("1F"), Ok(31));
    assert_eq!(parse_hex("0x0x1f"), Ok(31));
    assert_eq!(parse_hex("0x"), Err(IntErrorKind::Empty));
    assert_eq!(parse_hex("0xg"), Err(IntErrorKind::InvalidDigit));
    assert_eq!(parse_hex("0x100000000"), Err(IntErrorKind::PosOverflow));
}
