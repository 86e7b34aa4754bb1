use testeq_cli::router::CmdError;
use testeq_cli::router::CommandHandler;
use testeq_cli::router::Commands;
use testeq_cli::router::Resolution;

fn handler(cmd: &str, usage: Option<&str>, help: &str) -> CommandHandler {
    CommandHandler {
        cmd: cmd.to_string(),
        args: usage.map(|u| u.to_string()),
        help: help.to_string(),
    }
}

fn table(names: &[&str]) -> Commands {
    Commands {
        mod_name: "Test".to_string(),
        handlers: names.iter().map(|n| handler(n, None, "h")).collect(),
    }
}

fn args(tokens: &[&str]) -> Vec<String> {
    tokens.iter().map(|t| t.to_string()).collect()
}

#[test]
fn empty_input_is_missing_command() {
    let c = table(&["status"]);
    assert_eq!(c.run_command(&args(&[])), Err(CmdError::MissingCommand));
}

#[test]
fn unknown_token_is_no_match() {
    let c = table(&["status", "enable"]);
    assert_eq!(
        c.run_command(&args(&["zz"])),
        Err(CmdError::NoMatch("zz".to_string()))
    );
}

#[test]
fn ambiguous_prefix_lists_candidates() {
    let c = table(&["status", "set_voltage", "set_current"]);
    assert_eq!(
        c.run_command(&args(&["set"])),
        Err(CmdError::Ambiguous(vec![
            "set_voltage".to_string(),
            "set_current".to_string()
        ]))
    );
}

#[test]
fn unique_strict_prefix_dispatches() {
    let c = table(&["status", "set_voltage"]);
    assert_eq!(c.run_command(&args(&["stat"])), Ok(Resolution::Invoke(0)));
}

#[test]
fn exact_full_name_dispatches_among_shared_prefixes() {
    let c = table(&["set_voltage", "set_current", "status"]);
    assert_eq!(
        c.run_command(&args(&["set_voltage"])),
        Ok(Resolution::Invoke(0))
    );
    assert_eq!(
        c.run_command(&args(&["set_current"])),
        Ok(Resolution::Invoke(1))
    );
}

#[test]
fn exact_name_extended_by_another_is_ambiguous() {
    let c = table(&["read", "read_now"]);
    assert_eq!(
        c.run_command(&args(&["read"])),
        Err(CmdError::Ambiguous(vec![
            "read".to_string(),
            "read_now".to_string()
        ]))
    );
}

#[test]
fn duplicate_names_are_reported_as_ambiguous() {
    let c = table(&["status", "status"]);
    assert_eq!(
        c.run_command(&args(&["status"])),
        Err(CmdError::Ambiguous(vec![
            "status".to_string(),
            "status".to_string()
        ]))
    );
}

#[test]
fn matching_is_case_sensitive() {
    let c = table(&["status"]);
    assert_eq!(
        c.run_command(&args(&["STAT"])),
        Err(CmdError::NoMatch("STAT".to_string()))
    );
}

#[test]
fn help_lists_every_handler_in_order() {
    let c = Commands {
        mod_name: "Power Supply".to_string(),
        handlers: vec![
            handler("status", None, "Show status"),
            handler(
                "enable",
                Some("<chan> [<enable>]"),
                "Get/set power supply channel enabled",
            ),
        ],
    };
    let expected = vec![
        "Power Supply commands:".to_string(),
        "  status: Show status".to_string(),
        "  enable <chan> [<enable>]: Get/set power supply channel enabled".to_string(),
    ];
    assert_eq!(c.run_command(&args(&["help"])), Ok(Resolution::Help(expected)));
}

#[test]
fn help_is_idempotent_and_ignores_other_arguments() {
    let c = table(&["status", "enable"]);
    let first = c.run_command(&args(&["help"]));
    let second = c.run_command(&args(&["help"]));
    let with_noise = c.run_command(&args(&["help", "junk", "more"]));
    assert_eq!(first, second);
    assert_eq!(first, with_noise);
    assert!(matches!(first, Ok(Resolution::Help(_))));
}

#[test]
fn help_wins_even_when_a_handler_name_extends_it() {
    let c = table(&["helper"]);
    assert!(matches!(
        c.run_command(&args(&["help"])),
        Ok(Resolution::Help(_))
    ));
    assert_eq!(c.run_command(&args(&["helpe"])), Ok(Resolution::Invoke(0)));
}

#[test]
fn message_of_missing_command() {
    assert_eq!(CmdError::MissingCommand.message(), "Missing command argument");
}

#[test]
fn message_of_no_match_names_the_token() {
    assert_eq!(
        CmdError::NoMatch("zz".to_string()).message(),
        "No command matching 'zz'"
    );
}

#[test]
fn message_of_ambiguous_lists_all_candidates() {
    let e = CmdError::Ambiguous(vec!["set_voltage".to_string(), "set_current".to_string()]);
    assert_eq!(
        e.message(),
        "Ambiguous command, multiple matches: [\"set_voltage\", \"set_current\"]"
    );
    let one = CmdError::Ambiguous(vec!["read".to_string()]);
    assert_eq!(one.message(), "Ambiguous command, multiple matches: [\"read\"]");
}

#[test]
fn message_of_usage_is_the_usage_line() {
    let e = CmdError::Usage("Usage: ... enable <channel> [<state>]".to_string());
    assert_eq!(e.message(), "Usage: ... enable <channel> [<state>]");
}

#[test]
fn message_of_bad_channel_names_the_selector() {
    let e = CmdError::BadChannel("abc".to_string());
    assert_eq!(e.message(), "Cannot resolve channel 'abc'");
}

#[test]
fn message_of_invalid_value_names_the_value() {
    let e = CmdError::InvalidValue("bogus".to_string());
    assert_eq!(e.message(), "Invalid state value 'bogus'");
}
