//! The command vocabulary of the command-line shell and its small decisions.

use vstd::prelude::*;
use crate::model::Mode;
use crate::text::{chars_of, parse_u32, spec_parse_u32, str_eq, IntErrorKind};

verus! {

/// A command of the shell.
#[derive(Clone, Copy, PartialEq, Eq, Structural, Debug)]
pub enum Command {
    Status,
    Doctor,
    Modes,
    Profiles,
    Apply,
    Native,
    Revert,
    Dpi,
    Help,
}

/// The command a word names; anything else (or nothing) asks for help.
pub open spec fn command_named(word: Option<Seq<char>>) -> Command {
    match word {
        Some(w) => if w == "status"@ {
            Command::Status
        } else if w == "doctor"@ {
            Command::Doctor
        } else if w == "modes"@ {
            Command::Modes
        } else if w == "profiles"@ {
            Command::Profiles
        } else if w == "apply"@ {
            Command::Apply
        } else if w == "native"@ {
            Command::Native
        } else if w == "revert"@ {
            Command::Revert
        } else if w == "dpi"@ {
            Command::Dpi
        } else {
            Command::Help
        },
        None => Command::Help,
    }
}

/// The word the usage text gives for a command ("help" for the fallback).
pub open spec fn usage_word(c: Command) -> Seq<char> {
    match c {
        Command::Status => "status"@,
        Command::Doctor => "doctor"@,
        Command::Modes => "modes"@,
        Command::Profiles => "profiles"@,
        Command::Apply => "apply"@,
        Command::Native => "native"@,
        Command::Revert => "revert"@,
        Command::Dpi => "dpi"@,
        Command::Help => "help"@,
    }
}

/// Every command of the usage text is reached by its own word, and a word
/// that reaches a command other than help is that command's word.
pub proof fn law_each_command_has_its_word(c: Command, w: Seq<char>)
    ensures
        c != Command::Help ==> command_named(Some(usage_word(c))) == c,
        command_named(Some(w)) != Command::Help ==> usage_word(command_named(Some(w))) == w,
        command_named(None) == Command::Help,
{
    reveal_strlit("status");
    reveal_strlit("doctor");
    reveal_strlit("modes");
    reveal_strlit("profiles");
    reveal_strlit("apply");
    reveal_strlit("native");
    reveal_strlit("revert");
    reveal_strlit("dpi");
    // the words differ in their first letter, and "doctor" and "dpi" in length
    assert("status"@[0] == 's' && "doctor"@[0] == 'd' && "modes"@[0] == 'm' && "profiles"@[0] == 'p');
    assert("apply"@[0] == 'a' && "native"@[0] == 'n' && "revert"@[0] == 'r' && "dpi"@[0] == 'd');
    assert("doctor"@.len() == 6 && "dpi"@.len() == 3);
}

/// The command named by the first argument.
pub fn parse_command(word: Option<&str>) -> (c: Command)
    ensures
        c == command_named(match word {
            Some(w) => Some(w@),
            None => None,
        }),
{
    match word {
        Some(w) => if str_eq(w, "status") {
            Command::Status
        } else if str_eq(w, "doctor") {
            Command::Doctor
        } else if str_eq(w, "modes") {
            Command::Modes
        } else if str_eq(w, "profiles") {
            Command::Profiles
        } else if str_eq(w, "apply") {
            Command::Apply
        } else if str_eq(w, "native") {
            Command::Native
        } else if str_eq(w, "revert") {
            Command::Revert
        } else if str_eq(w, "dpi") {
            Command::Dpi
        } else {
            Command::Help
        },
        None => Command::Help,
    }
}

/// A leftover guard means a previous process died mid-switch: every command
/// restores it first, except the two that manage the guard themselves.
pub fn restores_pending_first(c: Command) -> (r: bool)
    ensures
        r == !(c == Command::Revert || c == Command::Apply),
{
    !(c == Command::Revert || c == Command::Apply)
}

/// Some argument asks to skip the confirm countdown (`-y` or `--yes`).
pub fn confirm_skipped(args: &Vec<String>) -> (r: bool)
    ensures
        r == exists|i: int| 0 <= i < args@.len() && (#[trigger] args@[i]@ == "-y"@ || args@[i]@ == "--yes"@),
{
    let mut i: usize = 0;
    while i < args.len()
        invariant
            i <= args.len(),
            forall|j: int| 0 <= j < i ==> !(#[trigger] args@[j]@ == "-y"@ || args@[j]@ == "--yes"@),
        decreases args.len() - i,
    {
        if str_eq(args[i].as_str(), "-y") || str_eq(args[i].as_str(), "--yes") {
            assert(args@[i as int]@ == "-y"@ || args@[i as int]@ == "--yes"@);
            return true;
        }
        i = i + 1;
    }
    false
}

/// A mode above the native resolution in either dimension is super resolution.
pub fn is_super_resolution(mode: Mode, native: (u32, u32)) -> (r: bool)
    ensures
        r == (mode.width > native.0 || mode.height > native.1),
{
    mode.width > native.0 || mode.height > native.1
}

/// How the mode list marks a mode.
#[derive(Clone, Copy, PartialEq, Eq, Structural, Debug)]
pub enum ModeMark {
    /// The mode in use.
    Current,
    /// An above-native (super-resolution) mode.
    Super,
    Plain,
}

/// The mark of `m` in the mode list: the current mode first, then
/// above-native modes.
pub fn mode_mark(m: Mode, current: Mode, native: (u32, u32)) -> (r: ModeMark)
    ensures
        r == if m == current {
            ModeMark::Current
        } else if m.width > native.0 || m.height > native.1 {
            ModeMark::Super
        } else {
            ModeMark::Plain
        },
{
    if m == current {
        ModeMark::Current
    } else if is_super_resolution(m, native) {
        ModeMark::Super
    } else {
        ModeMark::Plain
    }
}

/// `s` with every leading "0x" removed (`trim_start_matches("0x")`).
pub open spec fn strip_hex_prefixes(s: Seq<char>) -> Seq<char>
    decreases s.len(),
{
    if s.len() >= 2 && s[0] == '0' && s[1] == 'x' {
        strip_hex_prefixes(s.skip(2))
    } else {
        s
    }
}

/// A decimal argument.
pub fn parse_number(raw: &str) -> (r: Result<u32, IntErrorKind>)
    ensures
        match spec_parse_u32(raw@, 10) {
            Ok(v) => v <= u32::MAX && r == Ok::<u32, IntErrorKind>(v as u32),
            Err(e) => r == Err::<u32, IntErrorKind>(e),
        },
{
    parse_u32(raw, 10)
}

/// A hexadecimal argument, with or without leading "0x".
pub fn parse_hex(raw: &str) -> (r: Result<u32, IntErrorKind>)
    ensures
        match spec_parse_u32(strip_hex_prefixes(raw@), 16) {
            Ok(v) => v <= u32::MAX && r == Ok::<u32, IntErrorKind>(v as u32),
            Err(e) => r == Err::<u32, IntErrorKind>(e),
        },
{
    let cs = chars_of(raw);
    let mut start: usize = 0;
    assert(cs@.skip(0) =~= cs@);
    while start < cs.len() && cs.len() - start >= 2 && cs[start] == '0' && cs[start + 1] == 'x'
        invariant
            start <= cs.len(),
            strip_hex_prefixes(cs@) == strip_hex_prefixes(cs@.skip(start as int)),
        decreases cs.len() - start,
    {
        assert(cs@.skip(start as int).skip(2) =~= cs@.skip(start + 2));
        start = start + 2;
    }
    let mut rest: Vec<char> = Vec::new();
    let mut i: usize = start;
    while i < cs.len()
        invariant
            start <= i <= cs.len(),
            rest@ == cs@.subrange(start as int, i as int),
        decreases cs.len() - i,
    {
        rest.push(cs[i]);
        assert(cs@.subrange(start as int, i + 1) =~= cs@.subrange(start as int, i as int).push(cs@[i as int]));
        i = i + 1;
    }
    assert(rest@ =~= cs@.skip(start as int));
    assert(strip_hex_prefixes(cs@.skip(start as int)) == cs@.skip(start as int));
    let text = crate::text::string_from_chars(&rest);
    parse_u32(text.as_str(), 16)
}

} // verus!
