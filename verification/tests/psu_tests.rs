use testeq_cli::psu::handle_command;
use testeq_cli::psu::psu_status_lines;
use testeq_cli::psu::PsuAction;
use testeq_cli::psu::PsuChannelReport;
use testeq_cli::router::CmdError;

fn args(tokens: &[&str]) -> Vec<String> {
    tokens.iter().map(|t| t.to_string()).collect()
}

#[test]
fn empty_args_runs_status_directly() {
    assert_eq!(handle_command(&args(&[])), Ok(PsuAction::Status));
}

#[test]
fn set_is_ambiguous_between_voltage_and_current() {
    assert_eq!(
        handle_command(&args(&["set"])),
        Err(CmdError::Ambiguous(vec![
            "set_voltage".to_string(),
            "set_current".to_string()
        ]))
    );
}

#[test]
fn stat_abbreviates_status() {
    assert_eq!(handle_command(&args(&["stat"])), Ok(PsuAction::Status));
}

#[test]
fn read_is_ambiguous_between_the_readbacks() {
    assert_eq!(
        handle_command(&args(&["read"])),
        Err(CmdError::Ambiguous(vec![
            "read_voltage".to_string(),
            "read_current".to_string(),
            "read_power".to_string()
        ]))
    );
}

#[test]
fn enable_with_bogus_state_is_invalid_value() {
    assert_eq!(
        handle_command(&args(&["enable", "2", "bogus"])),
        Err(CmdError::InvalidValue("bogus".to_string()))
    );
}

#[test]
fn enable_get_and_set() {
    assert_eq!(
        handle_command(&args(&["enable", "0"])),
        Ok(PsuAction::GetEnabled { chan: 0 })
    );
    assert_eq!(
        handle_command(&args(&["enable", "1", "on"])),
        Ok(PsuAction::SetEnabled { chan: 1, state: true })
    );
    assert_eq!(
        handle_command(&args(&["enable", "1", "OFF"])),
        Ok(PsuAction::SetEnabled { chan: 1, state: false })
    );
}

#[test]
fn enable_wrong_argument_count_is_usage_error() {
    assert_eq!(
        handle_command(&args(&["enable"])),
        Err(CmdError::Usage("Usage: ... enable <channel> [<state>]".to_string()))
    );
    assert_eq!(
        handle_command(&args(&["enable", "1", "on", "extra"])),
        Err(CmdError::Usage("Usage: ... enable <channel> [<state>]".to_string()))
    );
}

#[test]
fn enable_with_unresolvable_channel_fails() {
    assert_eq!(
        handle_command(&args(&["enable", "abc", "on"])),
        Err(CmdError::BadChannel("abc".to_string()))
    );
}

#[test]
fn set_voltage_selector_only_reads_back() {
    assert_eq!(
        handle_command(&args(&["set_voltage", "0"])),
        Ok(PsuAction::GetVoltage { chan: 0 })
    );
}

#[test]
fn set_voltage_with_value_hands_it_on() {
    assert_eq!(
        handle_command(&args(&["set_voltage", "1", "5.5"])),
        Ok(PsuAction::SetVoltage { chan: 1, value: "5.5".to_string() })
    );
}

#[test]
fn set_current_get_and_set() {
    assert_eq!(
        handle_command(&args(&["set_current", "2"])),
        Ok(PsuAction::GetCurrent { chan: 2 })
    );
    assert_eq!(
        handle_command(&args(&["set_current", "2", "0.1"])),
        Ok(PsuAction::SetCurrent { chan: 2, value: "0.1".to_string() })
    );
    assert_eq!(
        handle_command(&args(&["set_current"])),
        Err(CmdError::Usage("Usage: ... set_current <channel> [<current>]".to_string()))
    );
}

#[test]
fn readbacks_need_exactly_the_selector() {
    assert_eq!(
        handle_command(&args(&["read_voltage", "1"])),
        Ok(PsuAction::ReadVoltage { chan: 1 })
    );
    assert_eq!(
        handle_command(&args(&["read_current", "0"])),
        Ok(PsuAction::ReadCurrent { chan: 0 })
    );
    assert_eq!(
        handle_command(&args(&["read_power", "3"])),
        Ok(PsuAction::ReadPower { chan: 3 })
    );
    assert_eq!(
        handle_command(&args(&["read_voltage"])),
        Err(CmdError::Usage("Usage: ... read_voltage <channel>".to_string()))
    );
    assert_eq!(
        handle_command(&args(&["read_power", "1", "2"])),
        Err(CmdError::Usage("Usage: ... read_power <channel>".to_string()))
    );
}

#[test]
fn unknown_command_is_no_match() {
    assert_eq!(
        handle_command(&args(&["query"])),
        Err(CmdError::NoMatch("query".to_string()))
    );
}

#[test]
fn help_lists_the_whole_table_once() {
    let expected = vec![
        "Power Supply commands:".to_string(),
        "  status: Show status".to_string(),
        "  enable <chan> [<enable>]: Get/set power supply channel enabled".to_string(),
        "  set_voltage <chan> [<voltage>]: Get/set power supply channel set voltage".to_string(),
        "  set_current <chan> [<current>]: Get/set power supply channel set current".to_string(),
        "  read_voltage <chan>: Get power supply channel readback voltage".to_string(),
        "  read_current <chan>: Get power supply channel readback voltage".to_string(),
        "  read_power <chan>: Get power supply channel readback voltage".to_string(),
    ];
    assert_eq!(handle_command(&args(&["help"])), Ok(PsuAction::Help(expected)));
}

#[test]
fn help_is_idempotent_on_the_psu_table() {
    let first = handle_command(&args(&["help"]));
    let second = handle_command(&args(&["help"]));
    assert_eq!(first, second);
}

#[test]
fn status_lines_render_each_channel() {
    let reports = vec![PsuChannelReport {
        name: "CH1".to_string(),
        enabled: "true".to_string(),
        set_voltage: "5".to_string(),
        set_current: "0.5".to_string(),
        read_voltage: "4.98".to_string(),
        read_current: "0.12".to_string(),
        read_power: "0.6".to_string(),
    }];
    let expected = vec![
        "Channel CH1".to_string(),
        "  state: true".to_string(),
        "  set voltage:  5 V".to_string(),
        "  set current:  0.5 A".to_string(),
        "  read voltage: 4.98 V".to_string(),
        "  read current: 0.12 A".to_string(),
        "  read power:   0.6 W".to_string(),
    ];
    assert_eq!(psu_status_lines(&reports), expected);
    assert_eq!(psu_status_lines(&Vec::new()), Vec::<String>::new());
}
