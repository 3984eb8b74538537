use textquest_dll::hooks::game_loop::stick::{
    float_text_check, parse_movement_slash_command, parse_stick_slash_command, MovementSlashCommand, StickCommand,
    StickDistance, StickMode, StickOptions,
};

fn no_options() -> StickOptions {
    StickOptions {
        hold: false,
        always: false,
        moveback: false,
        healer: false,
        autopause: false,
        mode: None,
        id: None,
        behind_arc: None,
        not_front_arc: None,
        backup_dist: None,
        distance: None,
    }
}

fn chars(s: &str) -> Vec<char> {
    s.chars().collect()
}

fn args(s: &[&str]) -> Vec<String> {
    s.iter().map(|a| a.to_string()).collect()
}

#[test]
fn parse_stick_slash_defaults_to_basic_start() {
    let parsed = parse_movement_slash_command("/stick").unwrap().unwrap();
    assert_eq!(parsed, MovementSlashCommand::Stick(StickCommand::Start(no_options())));
}

#[test]
fn parse_stick_slash_supports_distance_mode_and_flags() {
    let parsed = parse_movement_slash_command("/stick 18 behind hold moveback").unwrap().unwrap();
    match parsed {
        MovementSlashCommand::Stick(StickCommand::Start(config)) => {
            assert_eq!(config.distance, Some(StickDistance::Absolute("18".to_string())));
            assert_eq!(config.mode, Some(StickMode::Behind));
            assert!(config.hold);
            assert!(config.moveback);
        }
        other => panic!("expected stick start, got {other:?}"),
    }
}

#[test]
fn parse_stick_slash_supports_percent_and_mod() {
    let percent = parse_movement_slash_command("/stick 80% !front").unwrap().unwrap();
    match percent {
        MovementSlashCommand::Stick(StickCommand::Start(config)) => {
            assert_eq!(config.distance, Some(StickDistance::Percent("80".to_string())));
            assert_eq!(config.mode, Some(StickMode::NotFront));
        }
        other => panic!("expected stick start, got {other:?}"),
    }
    let delta = parse_movement_slash_command("/stick mod -5").unwrap().unwrap();
    assert_eq!(delta, MovementSlashCommand::Stick(StickCommand::Mod("-5".to_string())));
}

#[test]
fn stick_options_with_values_and_errors() {
    let parsed = parse_stick_slash_command(&args(&["id", "42", "behindarc", "45.5", "BackupDist", "1e1", "snaproll"]));
    let mut expected = no_options();
    expected.id = Some(42);
    expected.behind_arc = Some("45.5".to_string());
    expected.backup_dist = Some("1e1".to_string());
    expected.mode = Some(StickMode::SnapRoll);
    assert_eq!(parsed, Ok(StickCommand::Start(expected)));
    assert_eq!(parse_stick_slash_command(&args(&["off"])), Ok(StickCommand::Off));
    assert_eq!(
        parse_stick_slash_command(&args(&["off", "hold"])),
        Err("unsupported /stick token: off".to_string())
    );
    assert_eq!(parse_stick_slash_command(&args(&["mod"])), Err("missing distance delta for /stick mod".to_string()));
    assert_eq!(parse_stick_slash_command(&args(&["mod", "x"])), Err("invalid /stick mod value: x".to_string()));
    assert_eq!(parse_stick_slash_command(&args(&["id"])), Err("missing spawn id for /stick id".to_string()));
    assert_eq!(parse_stick_slash_command(&args(&["id", "-1"])), Err("invalid /stick id value: -1".to_string()));
    assert_eq!(
        parse_stick_slash_command(&args(&["!frontarc", "wide"])),
        Err("invalid /stick !frontarc value: wide".to_string())
    );
    assert_eq!(
        parse_stick_slash_command(&args(&["x%"])),
        Err("invalid /stick distance percentage: x%".to_string())
    );
    assert_eq!(parse_stick_slash_command(&args(&["close"])), Err("unsupported /stick token: close".to_string()));
    assert_eq!(parse_movement_slash_command("/sit"), None);
}

#[test]
fn float_text_matches_std_parsing() {
    for text in [
        "0", "18", "-5", "+2.5", ".5", "5.", "1e10", "1E-3", "2.5e+7", "inf", "-Infinity", "NaN", "1e400", "", ".",
        "e5", "1e", "1.2.3", " 1", "1 ", "--1", "0x10", "1_000", "infinit", "5%", "+", "1e+", "nan1",
    ] {
        assert_eq!(float_text_check(&chars(text)), text.parse::<f32>().is_ok(), "{text:?}");
    }
}
