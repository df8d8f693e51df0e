use ember::kwin::KWinPid;
use ember::platform::{
    elf_offset, get_pid, platform_mismatch, ElfError, PidError, Platform, Root, RootError, RootStep,
};
use ember::text::{find, find_byte, parse_number, rfind, rfind_byte, trim};

const LISTING: &[u8] = b"    PID TTY      STAT   TIME COMMAND\n   1203 ?        Ss     0:00 /usr/lib/systemd/systemd --user\n   1410 ?        Sl     3:12 /usr/bin/kwin_wayland --wayland-fd 7\n   1522 ?        Sl     0:01 /usr/bin/kwin_wayland --other\n";

#[test]
fn pid_of_first_matching_line() {
    assert_eq!(get_pid(LISTING, b"kwin_wayland"), Ok(1410));
    assert_eq!(get_pid(LISTING, b"  kwin_wayland\n"), Ok(1410));
    assert_eq!(get_pid(LISTING, b"systemd"), Ok(1203));
    assert_eq!(KWinPid::search(LISTING), Ok(KWinPid(1410)));
}

#[test]
fn pid_errors() {
    assert_eq!(get_pid(LISTING, b"plasmashell"), Err(PidError::NoProcess));
    assert_eq!(get_pid(b"", b"x"), Err(PidError::NoProcess));
    assert_eq!(get_pid(b"/x ", b"x"), Err(PidError::NoField));
    assert_eq!(get_pid(b"abc /x y", b"x"), Err(PidError::NotANumber));
    assert_eq!(get_pid(b"99999999999999999999999 /x y", b"x"), Err(PidError::NotANumber));
    assert_eq!(get_pid(b"12 /a\nb c", b"a\nb"), Err(PidError::NoProcess));
    assert_eq!(KWinPid::search(b"4294967296 /kwin_wayland "), Err(PidError::NotANumber));
    assert_eq!(KWinPid::search(b"no such thing"), Err(PidError::NoProcess));
}

#[test]
fn pid_on_last_line_without_feed() {
    assert_eq!(get_pid(b"1 /a b\n  77 /x y", b"x"), Ok(77));
    assert_eq!(get_pid(b"+77 /x y\r\n", b"x"), Ok(77));
}

const TABLE: &[u8] = b"Symbol table '.dynsym' contains 3 entries:\n   Num:    Value          Size Type    Bind   Vis      Ndx Name\n     1: 0000000000000000     0 FUNC    GLOBAL DEFAULT  UND free\n  7052: 00000000009f3a10     8 OBJECT  GLOBAL DEFAULT   27 KWin::Cursors::s_self\n  7053: 00000000009f3b20     8 OBJECT  GLOBAL DEFAULT   27 KWin::Workspace::_self\n";

#[test]
fn offset_of_symbol() {
    assert_eq!(elf_offset(TABLE, b"Cursors::s_self"), Ok(0x9f3a10));
    assert_eq!(elf_offset(TABLE, b"Workspace::_self"), Ok(0x9f3b20));
    assert_eq!(elf_offset(TABLE, b"free"), Ok(0));
}

#[test]
fn offset_errors() {
    assert_eq!(elf_offset(TABLE, b"Nothing::here"), Err(ElfError::NoSymbol));
    assert_eq!(elf_offset(b"1: 00ff 0 x sym", b"sym"), Err(ElfError::NoLine));
    assert_eq!(elf_offset(b"\n1 00ff 0 x sym", b"sym"), Err(ElfError::NoColon));
    assert_eq!(elf_offset(b"\n1: sym", b"sym"), Err(ElfError::NoSpace));
    assert_eq!(elf_offset(b"\n1: zz 0 sym", b"sym"), Err(ElfError::NotHex));
    assert_eq!(elf_offset(b"\n1: 10000000000000000 0 sym", b"sym"), Err(ElfError::NotHex));
    assert_eq!(elf_offset(TABLE, b""), Err(ElfError::NoLine));
}

#[test]
fn root_claim_and_release() {
    let mut root = Root::new(1000);
    assert_eq!(root, Root(1000));
    assert_eq!(root.claim(1000), RootStep::SetUid { uid: 0, needless: false });
    assert_eq!(root.claim(0), RootStep::SetUid { uid: 0, needless: true });
    assert_eq!(root.release(0), Ok(RootStep::SetUid { uid: 1000, needless: false }));
    assert_eq!(root.release(1000), Ok(RootStep::Nothing));
    assert_eq!(root.release(33), Err(RootError::Mismatch { current: 33 }));
    assert_eq!(root, Root(1000));
    assert_eq!(Root::confirm(0), Ok(()));
    assert_eq!(Root::confirm(-1), Err(RootError::Refused { status: -1 }));
}

#[test]
fn mismatch_message() {
    assert_eq!(
        platform_mismatch(Platform::LINUX, Platform::WINDOWS),
        "Linux-specific functionality missing on Windows-build!"
    );
    assert_eq!(
        platform_mismatch(Platform::WINDOWS, Platform::LINUX),
        "Windows-specific functionality missing on Linux-build!"
    );
    assert_eq!(Platform::LINUX.name(), "Linux");
}

#[test]
fn finding_bytes() {
    assert_eq!(find(b"abcabc", b"bc"), Some(1));
    assert_eq!(rfind(b"abcabc", b"bc"), Some(4));
    assert_eq!(find(b"abc", b""), Some(0));
    assert_eq!(rfind(b"abc", b""), Some(3));
    assert_eq!(find(b"ab", b"abc"), None);
    assert_eq!(find(b"abab", b"ba"), Some(1));
    assert_eq!(find(b"aaa", b"b"), None);
    assert_eq!(find_byte(b"a:b:c", b':'), Some(1));
    assert_eq!(rfind_byte(b"a:b:c", b':'), Some(3));
    assert_eq!(find_byte(b"", b':'), None);
    assert_eq!(rfind_byte(b"abc", b':'), None);
}

#[test]
fn trimming() {
    assert_eq!(trim(b"  \t ab c \r\n"), b"ab c");
    assert_eq!(trim(b" \n "), b"");
    assert_eq!(trim(b""), b"");
    assert_eq!(trim(b"x"), b"x");
    assert_eq!(trim(b"\x0b\x0cx\x0b"), b"x");
}

#[test]
fn numbers() {
    assert_eq!(parse_number(b"0", 10), Some(0));
    assert_eq!(parse_number(b"+42", 10), Some(42));
    assert_eq!(parse_number(b"18446744073709551615", 10), Some(u64::MAX));
    assert_eq!(parse_number(b"18446744073709551616", 10), None);
    assert_eq!(parse_number(b"ffffffffffffffff", 16), Some(u64::MAX));
    assert_eq!(parse_number(b"10000000000000000", 16), None);
    assert_eq!(parse_number(b"7fFf", 16), Some(0x7fff));
    assert_eq!(parse_number(b"", 10), None);
    assert_eq!(parse_number(b"+", 10), None);
    assert_eq!(parse_number(b"-1", 10), None);
    assert_eq!(parse_number(b"1a", 10), None);
    assert_eq!(parse_number(b"12 ", 10), None);
    assert_eq!(parse_number(b"z", 36), Some(35));
    assert_eq!(parse_number(b"9999999999999999999999x", 10), None);
}
