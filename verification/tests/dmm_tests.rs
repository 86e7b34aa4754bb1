use testeq_cli::dmm::dmm_status_lines;
use testeq_cli::dmm::handle_command;
use testeq_cli::dmm::DmmAction;
use testeq_cli::dmm::DmmChannelReport;
use testeq_cli::router::CmdError;

fn args(tokens: &[&str]) -> Vec<String> {
    tokens.iter().map(|t| t.to_string()).collect()
}

#[test]
fn dmm_empty_args_runs_status_directly() {
    assert_eq!(handle_command(&args(&[])), Ok(DmmAction::Status));
}

#[test]
fn read_exact_name_is_still_ambiguous_with_read_now() {
    assert_eq!(
        handle_command(&args(&["read"])),
        Err(CmdError::Ambiguous(vec![
            "read".to_string(),
            "read_now".to_string()
        ]))
    );
}

#[test]
fn longer_prefix_disambiguates_read_now() {
    assert_eq!(
        handle_command(&args(&["read_", "1"])),
        Ok(DmmAction::ReadNow { chan: 1 })
    );
    assert_eq!(
        handle_command(&args(&["read_now", "0"])),
        Ok(DmmAction::ReadNow { chan: 0 })
    );
}

#[test]
fn mode_get_and_set() {
    assert_eq!(
        handle_command(&args(&["mode", "0"])),
        Ok(DmmAction::GetMode { chan: 0 })
    );
    assert_eq!(
        handle_command(&args(&["mode", "0", "VoltsDC"])),
        Ok(DmmAction::SetMode { chan: 0, value: "VoltsDC".to_string() })
    );
    assert_eq!(
        handle_command(&args(&["m"])),
        Err(CmdError::Usage("Usage: ... mode <channel> [<mode>]".to_string()))
    );
    assert_eq!(
        handle_command(&args(&["mode", "x"])),
        Err(CmdError::BadChannel("x".to_string()))
    );
}

#[test]
fn trig_source_get_set_and_usage() {
    assert_eq!(
        handle_command(&args(&["trig_source"])),
        Ok(DmmAction::GetTrigSource)
    );
    assert_eq!(
        handle_command(&args(&["t", "bus"])),
        Ok(DmmAction::SetTrigSource { value: "bus".to_string() })
    );
    assert_eq!(
        handle_command(&args(&["trig_source", "bus", "extra"])),
        Err(CmdError::Usage("Usage: ... trig_source [<source>]".to_string()))
    );
}

#[test]
fn arm_dispatches() {
    assert_eq!(handle_command(&args(&["arm"])), Ok(DmmAction::Arm));
    assert_eq!(handle_command(&args(&["a"])), Ok(DmmAction::Arm));
}

#[test]
fn dmm_unknown_command_is_no_match() {
    assert_eq!(
        handle_command(&args(&["zero"])),
        Err(CmdError::NoMatch("zero".to_string()))
    );
}

#[test]
fn dmm_help_lists_the_whole_table_once() {
    let expected = vec![
        "Multimeter commands:".to_string(),
        "  status: Show status".to_string(),
        "  mode <chan> [<mode>]: Get/set DMM channel mode".to_string(),
        "  read <chan>: Read current DMM channel reading".to_string(),
        "  read_now <chan>: Trigger DMM and get reading from channel".to_string(),
        "  trig_source [<source>]: Get/set DMM trigger source".to_string(),
        "  arm: Arm trigger".to_string(),
    ];
    assert_eq!(handle_command(&args(&["help"])), Ok(DmmAction::Help(expected)));
}

#[test]
fn status_lines_render_trigger_then_channels() {
    let reports = vec![
        DmmChannelReport { name: "1".to_string(), mode: "VoltsDC".to_string() },
        DmmChannelReport { name: "2".to_string(), mode: "Ohms".to_string() },
    ];
    let expected = vec![
        "trig mode: immediate".to_string(),
        "Channel 1".to_string(),
        "  mode: VoltsDC".to_string(),
        "Channel 2".to_string(),
        "  mode: Ohms".to_string(),
    ];
    assert_eq!(dmm_status_lines(&"immediate".to_string(), &reports), expected);
    assert_eq!(
        dmm_status_lines(&"bus".to_string(), &Vec::new()),
        vec!["trig mode: bus".to_string()]
    );
}
