use cadence_core::Command;

#[test]
fn parses_transport_words() {
    assert_eq!(Command::parse("pause"), Ok(Command::Pause));
    assert_eq!(Command::parse("  resume \t"), Ok(Command::Resume));
    assert_eq!(Command::parse("stop now"), Ok(Command::Stop));
    assert_eq!(Command::parse("quit"), Ok(Command::Quit));
    assert_eq!(Command::parse("q"), Ok(Command::Quit));
    assert_eq!(Command::parse("exit"), Ok(Command::Quit));
    assert_eq!(Command::parse("help"), Ok(Command::Help));
    assert_eq!(Command::parse("h"), Ok(Command::Help));
}

#[test]
fn parses_skips() {
    assert_eq!(Command::parse("+ 5"), Ok(Command::Advance { seconds: 5 }));
    assert_eq!(Command::parse("-   10"), Ok(Command::Advance { seconds: -10 }));
    assert_eq!(Command::parse("- 0"), Ok(Command::Advance { seconds: 0 }));
    assert_eq!(
        Command::parse("- 9223372036854775808"),
        Ok(Command::Advance { seconds: i64::MIN })
    );
    assert_eq!(
        Command::parse("+ 9223372036854775807"),
        Ok(Command::Advance { seconds: i64::MAX })
    );
}

#[test]
fn rejects_bad_numbers() {
    assert_eq!(
        Command::parse("+ 9223372036854775808"),
        Err("Invalid number: 9223372036854775808".to_string())
    );
    assert_eq!(Command::parse("+ abc"), Err("Invalid number: abc".to_string()));
    assert_eq!(Command::parse("+ -5"), Err("Invalid number: -5".to_string()));
    assert_eq!(Command::parse("- 1x"), Err("Invalid number: 1x".to_string()));
}

#[test]
fn rejects_missing_number() {
    assert_eq!(
        Command::parse("+"),
        Err("Usage: +/- <seconds>. Enter a number after +/-".to_string())
    );
}

#[test]
fn rejects_empty_and_unknown() {
    assert_eq!(Command::parse(""), Err("Empty command".to_string()));
    assert_eq!(Command::parse(" \u{3000} "), Err("Empty command".to_string()));
    assert_eq!(
        Command::parse("jump 4"),
        Err("Unknown command: jump. Type 'help' for commands.".to_string())
    );
    assert_eq!(
        Command::parse("+5"),
        Err("Unknown command: +5. Type 'help' for commands.".to_string())
    );
}

#[test]
fn from_str_agrees_with_parse() {
    assert_eq!("pause".parse::<Command>(), Ok(Command::Pause));
    assert_eq!("- 3".parse::<Command>(), Ok(Command::Advance { seconds: -3 }));
}

#[test]
fn from_str_handles_edge_lines() {
    assert_eq!("".parse::<Command>(), Err("Empty command".to_string()));
    assert_eq!("  pause now ".parse::<Command>(), Ok(Command::Pause));
    assert_eq!("+ 5 extra".parse::<Command>(), Ok(Command::Advance { seconds: 5 }));
    assert_eq!(
        "Pause".parse::<Command>(),
        Err("Unknown command: Pause. Type 'help' for commands.".to_string())
    );
    assert_eq!(
        "+ 99999999999999999999".parse::<Command>(),
        Err("Invalid number: 99999999999999999999".to_string())
    );
}
