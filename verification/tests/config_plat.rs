//! Tests for command line parsing, number parsing, the platform interface
//! action sequences and the PAT computation.

use r4boot::arch::x86_64::cpu::{features_from_query, pat_value};
use r4boot::arch::x86_64::paging::{PDPTTable, PDTable, PML4Table, PTTable, Table};
use r4boot::config::BootConfig;
use r4boot::plat::pc99::pic;
use r4boot::plat::pc99::DEFAULT_DEBUG_PORT;
use r4boot::plat::{get_platform, write_bytes, PlatInterface, PortAction};
use r4boot::types::BootError;
use r4boot::util::string::FromStrExt;

#[test]
fn cmdline_iter_splits_on_spaces_keeping_empties() {
    let config = BootConfig::new("a bc  d");
    let parts = config.cmdline_iter();
    assert_eq!(parts.len(), 4);
    assert_eq!(parts[0], b"a".to_vec());
    assert_eq!(parts[1], b"bc".to_vec());
    assert_eq!(parts[2], Vec::<u8>::new());
    assert_eq!(parts[3], b"d".to_vec());
    let empty = BootConfig::new("");
    assert_eq!(empty.cmdline_iter().len(), 1);
}

#[test]
fn option_iter_reads_name_value_pairs() {
    let config = BootConfig::new("plain a=1 b=2=3 trailing");
    let mut iter = config.cmdline_option_iter();
    let first = iter.next().unwrap();
    assert_eq!(first.name, b"a".to_vec());
    assert_eq!(first.value, b"1".to_vec());
    // only the piece between the first and second separator is the value
    let second = iter.next().unwrap();
    assert_eq!(second.name, b"b".to_vec());
    assert_eq!(second.value, b"2".to_vec());
    assert!(iter.next().is_none());
}

#[test]
fn option_find_picks_first_match() {
    let config = BootConfig::new("x=1 y=2 x=3");
    let found = config.cmdline_option_find("x").unwrap();
    assert_eq!(found.value, b"1".to_vec());
    assert!(config.cmdline_option_find("z").is_none());
}

#[test]
fn option_from_str_parses_with_prefix() {
    let config = BootConfig::new("--debug-port=0x3f9 count=12 bad=12junk");
    let port: u16 = config.cmdline_option_from_str("--debug-port").unwrap();
    assert_eq!(port, 0x3f9);
    let count: u16 = config.cmdline_option_from_str("count").unwrap();
    assert_eq!(count, 12);
    let bad: Option<u16> = config.cmdline_option_from_str("bad");
    assert!(bad.is_none());
}

#[test]
fn u16_from_str_radix_exact() {
    assert_eq!(<u16 as FromStrExt>::from_str_radix(b"123", 10), Some(123));
    assert_eq!(<u16 as FromStrExt>::from_str_radix(b"ff", 16), Some(255));
    assert_eq!(<u16 as FromStrExt>::from_str_radix(b"FF", 16), Some(255));
    assert_eq!(<u16 as FromStrExt>::from_str_radix(b"101", 2), Some(5));
    assert_eq!(<u16 as FromStrExt>::from_str_radix(b"65535", 10), Some(65535));
    // overflow, empty and invalid digits are all rejected
    assert_eq!(<u16 as FromStrExt>::from_str_radix(b"65536", 10), None);
    assert_eq!(<u16 as FromStrExt>::from_str_radix(b"", 10), None);
    assert_eq!(<u16 as FromStrExt>::from_str_radix(b"12a", 10), None);
    assert_eq!(<u16 as FromStrExt>::from_str_radix(b"2", 2), None);
}

#[test]
fn u16_from_str_prefix_overrides_radix() {
    assert_eq!(<u16 as FromStrExt>::from_str_prefix(b"0x10"), Some(16));
    assert_eq!(<u16 as FromStrExt>::from_str_prefix(b"0X10"), Some(16));
    assert_eq!(<u16 as FromStrExt>::from_str_prefix(b"10"), Some(10));
    assert_eq!(<u16 as FromStrExt>::from_str_prefix_radix(b"10", 8), Some(8));
    assert_eq!(<u16 as FromStrExt>::from_str_prefix_radix(b"0x10", 8), Some(16));
    // the prefix alone carries no digits
    assert_eq!(<u16 as FromStrExt>::from_str_prefix(b"0x"), None);
}

#[test]
fn platform_uses_configured_or_default_port() {
    let config = BootConfig::new("--debug-port=0x2f8");
    let plat = get_platform(&config);
    assert_eq!(plat.debug_port, Some((false, 0x2f8)));
    let config = BootConfig::new("");
    let plat = get_platform(&config);
    assert_eq!(plat.debug_port, Some((false, DEFAULT_DEBUG_PORT)));
    // an unparsable override falls back to the default
    let config = BootConfig::new("--debug-port=zzz");
    let plat = get_platform(&config);
    assert_eq!(plat.debug_port, Some((false, DEFAULT_DEBUG_PORT)));
}

#[test]
fn serial_init_emits_uart_bringup_once() {
    let config = BootConfig::new("--debug-port=0x3f8");
    let mut plat = get_platform(&config);
    let acts = plat.init_serial();
    assert_eq!(
        acts,
        vec![
            PortAction::WaitTxReady(0x3f8),
            PortAction::Out8(0x3f9, 0),
            PortAction::Out8(0x3fb, 0x80),
            PortAction::Out8(0x3f8, 0x01),
            PortAction::Out8(0x3f9, 0x00),
            PortAction::Out8(0x3fb, 0x03),
            PortAction::Out8(0x3fc, 0x0b),
            PortAction::In8(0x3f8),
            PortAction::In8(0x3fd),
            PortAction::In8(0x3fe),
        ]
    );
    assert_eq!(plat.debug_port, Some((true, 0x3f8)));
    // a second init does nothing
    assert_eq!(plat.init_serial(), Vec::new());
}

#[test]
fn putchar_waits_writes_and_handles_newline() {
    let config = BootConfig::new("");
    let mut plat = get_platform(&config);
    // before the serial is initialized characters are discarded
    assert_eq!(plat.putchar(b'x'), Vec::new());
    plat.init_serial();
    assert_eq!(
        plat.putchar(b'x'),
        vec![
            PortAction::WaitTxReady(DEFAULT_DEBUG_PORT),
            PortAction::Out8(DEFAULT_DEBUG_PORT, b'x'),
        ]
    );
    assert_eq!(
        plat.putchar(b'\n'),
        vec![
            PortAction::WaitTxReady(DEFAULT_DEBUG_PORT),
            PortAction::Out8(DEFAULT_DEBUG_PORT, b'\n'),
            PortAction::WaitTxReady(DEFAULT_DEBUG_PORT),
            PortAction::Out8(DEFAULT_DEBUG_PORT, b'\r'),
        ]
    );
}

#[test]
fn write_bytes_sends_each_character() {
    let config = BootConfig::new("");
    let mut plat = get_platform(&config);
    plat.init_serial();
    let acts = write_bytes(&mut plat, b"ab");
    assert_eq!(
        acts,
        vec![
            PortAction::WaitTxReady(DEFAULT_DEBUG_PORT),
            PortAction::Out8(DEFAULT_DEBUG_PORT, b'a'),
            PortAction::WaitTxReady(DEFAULT_DEBUG_PORT),
            PortAction::Out8(DEFAULT_DEBUG_PORT, b'b'),
        ]
    );
}

#[test]
fn pic_disable_sequence_exact() {
    let acts = pic::disable();
    assert_eq!(
        acts,
        vec![
            PortAction::Out8(0x20, 0x11),
            PortAction::Out8(0xa0, 0x11),
            PortAction::Out8(0x21, 32),
            PortAction::Out8(0xa1, 40),
            PortAction::Out8(0x21, 0x4),
            PortAction::Out8(0xa1, 0x2),
            PortAction::Out8(0x21, 0x1),
            PortAction::Out8(0xa1, 0x1),
            PortAction::Out8(0x21, 0),
            PortAction::Out8(0xa1, 0),
            PortAction::Out8(0x21, 0xff),
            PortAction::Out8(0xa1, 0xff),
        ]
    );
}

#[test]
fn pic_remap_respects_base() {
    let acts = pic::remap(0x40);
    assert_eq!(acts[2], PortAction::Out8(0x21, 0x40));
    assert_eq!(acts[3], PortAction::Out8(0xa1, 0x48));
    assert_eq!(acts.len(), 10);
}

#[test]
fn pat_value_restores_defaults_and_adds_write_combining() {
    let r = pat_value(0xAABB_CCDD_EEFF_0011);
    assert_eq!(r, 0xAABB_CC01_0007_0406);
    // entry bytes: WB, WT, UC-, UC, WC; the top three are kept
    let r2 = pat_value(0);
    assert_eq!(r2, 0x0000_0001_0007_0406);
}

#[test]
fn page_tables_are_one_page_at_every_level() {
    assert_eq!(Table::<PML4Table>::mem_align(), 4096);
    assert_eq!(Table::<PDPTTable>::mem_align(), 4096);
    assert_eq!(Table::<PDTable>::mem_align(), 4096);
    assert_eq!(Table::<PTTable>::mem_align(), 4096);
}

#[test]
fn features_require_pat() {
    assert!(features_from_query(Some(true)).is_ok());
    match features_from_query(Some(false)) {
        Err(BootError::PlatformOrCpuInitFailure) => {},
        _ => panic!("a missing PAT must fail platform init"),
    }
    match features_from_query(None) {
        Err(BootError::PlatformOrCpuInitFailure) => {},
        _ => panic!("an unreadable feature set must fail platform init"),
    }
}
