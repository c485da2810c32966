use daedalus::drivers::gpio::{Function, Pull};
use daedalus::shell::{
    daif_flags, mair_attributes, parse_address, parse_function, parse_gpio_mode, parse_gpio_pin, parse_gpio_pull,
    parse_gpio_set, parse_level, parse_pin, parse_pull, tcr_summary, trim, two_words, uptime_breakdown, uptime_text,
    command_kind, Command, CommandKind, GpioArgError, Granule, History, LineEditor, LineEvent, LINE_BUFFER_SIZE, MAX_HISTORY,
};

#[test]
fn test_shell_parse_simple_command() {
    let cmd = Command::parse("help").unwrap();
    assert_eq!(cmd.name, "help");
    assert_eq!(cmd.args, "");
}

#[test]
fn test_shell_parse_command_with_args() {
    let cmd = Command::parse("echo hello world").unwrap();
    assert_eq!(cmd.name, "echo");
    assert_eq!(cmd.args, "hello world");
}

#[test]
fn test_shell_parse_whitespace_trimming() {
    let cmd = Command::parse("  version  ").unwrap();
    assert_eq!(cmd.name, "version");
    assert_eq!(cmd.args, "");
}

#[test]
fn test_debug_command_exists() {
    let cmd = Command::parse("debug").unwrap();
    assert_eq!(cmd.name, "debug");
    assert_eq!(cmd.args, "");
}

#[test]
fn test_exit_command_aliases() {
    let exit_cmd = Command::parse("exit").unwrap();
    assert_eq!(exit_cmd.name, "exit");

    let shutdown_cmd = Command::parse("shutdown").unwrap();
    assert_eq!(shutdown_cmd.name, "shutdown");

    let halt_cmd = Command::parse("halt").unwrap();
    assert_eq!(halt_cmd.name, "halt");
}

#[test]
fn test_shell_parse_empty_line() {
    assert!(Command::parse("").is_none());
    assert!(Command::parse("   ").is_none());
    assert!(Command::parse("\t \n").is_none());
}

#[test]
fn test_shell_parse_multiple_spaces() {
    let cmd = Command::parse("echo    test   with   spaces").unwrap();
    assert_eq!(cmd.name, "echo");
    assert_eq!(cmd.args, "   test   with   spaces");
}

#[test]
fn shell_parse_tabs_and_trailing_args() {
    let cmd = Command::parse("\tmem-read 0x1000  \t").unwrap();
    assert_eq!(cmd.name, "mem-read");
    assert_eq!(cmd.args, "0x1000");
    assert_eq!(trim("  a b  "), "a b");
    assert_eq!(trim(""), "");
}

#[test]
fn words_and_gpio_arguments() {
    assert_eq!(two_words("  17   output  extra"), (Some("17"), Some("output")));
    assert_eq!(two_words("17"), (Some("17"), None));
    assert_eq!(two_words("   "), (None, None));

    assert_eq!(parse_pin("42"), Ok(42));
    assert_eq!(parse_pin("57"), Ok(57));
    assert_eq!(parse_pin("58"), Err(GpioArgError::PinOutOfRange));
    assert_eq!(parse_pin("x1"), Err(GpioArgError::InvalidPin));
    assert_eq!(parse_pin("99999999999"), Err(GpioArgError::InvalidPin));

    assert_eq!(parse_gpio_mode("42 OUT"), Ok((42, Function::Output)));
    assert_eq!(parse_gpio_mode("4 alt5"), Ok((4, Function::Alt5)));
    assert_eq!(parse_gpio_mode("4 alt6"), Err(GpioArgError::InvalidMode));
    assert_eq!(parse_gpio_mode("4"), Err(GpioArgError::Usage));
    assert_eq!(parse_gpio_pull("2 Pull-Up"), Ok((2, Pull::Up)));
    assert_eq!(parse_gpio_pull("2 off"), Ok((2, Pull::NoPull)));
    assert_eq!(parse_gpio_set("42 high"), Ok((42, true)));
    assert_eq!(parse_gpio_set("42 0"), Ok((42, false)));
    assert_eq!(parse_gpio_set("42 HIGH"), Err(GpioArgError::InvalidMode));
    assert_eq!(parse_gpio_set("60 1"), Err(GpioArgError::PinOutOfRange));
    assert_eq!(parse_gpio_pin("  7 "), Ok(7));
    assert_eq!(parse_gpio_pin(""), Err(GpioArgError::Usage));

    assert_eq!(parse_function("In"), Some(Function::Input));
    assert_eq!(parse_pull("DOWN"), Some(Pull::Down));
    assert_eq!(parse_level("on"), Some(true));
    assert_eq!(parse_level("nope"), None);
}

#[test]
fn addresses_and_system_registers() {
    assert_eq!(parse_address("0x1000000"), Some(0x100_0000));
    assert_eq!(parse_address("0XfF"), Some(255));
    assert_eq!(parse_address("16777216"), Some(16_777_216));
    assert_eq!(parse_address("0x"), None);
    assert_eq!(parse_address("12ab"), None);

    let u = uptime_breakdown(90_061_000_000);
    assert_eq!((u.days, u.hours, u.minutes, u.seconds), (1, 1, 1, 1));

    // T0SZ = 16 (48-bit addresses), 4 KiB granule.
    assert_eq!(tcr_summary(16), (48, 262_144, Granule::K4));
    assert_eq!(tcr_summary(25 | (1 << 14)), (39, 512, Granule::K64));
    assert_eq!(tcr_summary(32 | (2 << 14)), (32, 4, Granule::K16));
    assert_eq!(mair_attributes(0xFF00), (0x00, 0xFF));
    assert_eq!(daif_flags(0x3C0), (true, true, true, true));
    assert_eq!(daif_flags(1 << 7), (false, false, true, false));
}

#[test]
fn line_editor_keys() {
    let mut ed = LineEditor::new();
    assert_eq!(ed.feed(b'l'), LineEvent::Echo(b'l'));
    assert_eq!(ed.feed(b's'), LineEvent::Echo(b's'));
    assert_eq!(ed.feed(0x7F), LineEvent::Erased(1));
    assert_eq!(ed.line(), b"l");
    assert_eq!(ed.feed(0x1B), LineEvent::Ignored);
    assert_eq!(ed.feed(b'\r'), LineEvent::Done);
    assert_eq!(ed.line(), b"l");
    assert_eq!(ed.feed(0x15), LineEvent::Erased(1));
    assert_eq!(ed.feed(8), LineEvent::Erased(0));
    ed.feed(b'x');
    assert_eq!(ed.feed(3), LineEvent::Cancelled);
    assert_eq!(ed.line(), b"");

    for _ in 0..LINE_BUFFER_SIZE {
        assert_eq!(ed.feed(b'a'), LineEvent::Echo(b'a'));
    }
    assert_eq!(ed.feed(b'a'), LineEvent::Ignored);
    assert_eq!(ed.line().len(), LINE_BUFFER_SIZE);
    ed.clear();
    assert!(ed.line().is_empty());
}

#[test]
fn history_records_and_caps() {
    let mut h = History::new();
    assert!(h.is_empty());
    h.record("echo", "echo hi");
    h.record("history", "history");
    assert_eq!(h.len(), 1);
    assert_eq!(h.get(0), "echo hi");
    for i in 0..(MAX_HISTORY + 5) {
        let line = format!("cmd {}", i);
        h.record("cmd", &line);
    }
    assert_eq!(h.len(), MAX_HISTORY);
    assert_eq!(h.get(0), "cmd 5");
    assert_eq!(h.get(MAX_HISTORY - 1), format!("cmd {}", MAX_HISTORY + 4));
}

#[test]
fn uptime_lines() {
    assert_eq!(uptime_text(0), "Uptime: 0 seconds");
    assert_eq!(uptime_text(59_999_999), "Uptime: 59 seconds");
    assert_eq!(uptime_text(61_000_000), "Uptime: 1 minutes, 1 seconds");
    assert_eq!(uptime_text(3_600_000_000), "Uptime: 1 hours, 0 minutes, 0 seconds");
    assert_eq!(uptime_text(90_061_000_000), "Uptime: 1 days, 1 hours, 1 minutes, 1 seconds");
    assert_eq!(uptime_text(10 * 86_400_000_000 + 5_000_000), "Uptime: 10 days, 0 hours, 0 minutes, 5 seconds");
}

#[test]
fn command_names() {
    assert_eq!(command_kind("help"), Some(CommandKind::Help));
    assert_eq!(command_kind("exit"), Some(CommandKind::Exit));
    assert_eq!(command_kind("shutdown"), Some(CommandKind::Exit));
    assert_eq!(command_kind("halt"), Some(CommandKind::Exit));
    assert_eq!(command_kind("gpio-toggle"), Some(CommandKind::GpioToggle));
    assert_eq!(command_kind("netstats"), Some(CommandKind::Netstats));
    assert_eq!(command_kind("kexec"), Some(CommandKind::Kexec));
    assert_eq!(command_kind("HELP"), None);
    assert_eq!(command_kind("gpio"), None);
    assert_eq!(command_kind(""), None);
    let cmd = Command::parse("  debug  ").unwrap();
    assert_eq!(command_kind(cmd.name), Some(CommandKind::Debug));
}
