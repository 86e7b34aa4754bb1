use testeq_cli::text::parse_channel_index;
use testeq_cli::text::parse_enable_state;
use testeq_cli::text::str_eq;
use testeq_cli::text::str_is_prefix;

#[test]
fn str_eq_basic() {
    assert!(str_eq("help", "help"));
    assert!(!str_eq("help", "hel"));
    assert!(!str_eq("hel", "help"));
    assert!(!str_eq("help", "heLp"));
    assert!(str_eq("", ""));
}

#[test]
fn str_is_prefix_basic() {
    assert!(str_is_prefix("set", "set_voltage"));
    assert!(str_is_prefix("set_voltage", "set_voltage"));
    assert!(str_is_prefix("", "status"));
    assert!(!str_is_prefix("set_voltage", "set"));
    assert!(!str_is_prefix("sta", "set_voltage"));
    assert!(!str_is_prefix("Set", "set_voltage"));
}

#[test]
fn enable_state_disable_vocabulary() {
    assert_eq!(parse_enable_state("0"), Some(false));
    assert_eq!(parse_enable_state("off"), Some(false));
    assert_eq!(parse_enable_state("OFF"), Some(false));
    assert_eq!(parse_enable_state("false"), Some(false));
    assert_eq!(parse_enable_state("False"), Some(false));
}

#[test]
fn enable_state_enable_vocabulary() {
    assert_eq!(parse_enable_state("1"), Some(true));
    assert_eq!(parse_enable_state("on"), Some(true));
    assert_eq!(parse_enable_state("On"), Some(true));
    assert_eq!(parse_enable_state("true"), Some(true));
    assert_eq!(parse_enable_state("TRUE"), Some(true));
}

#[test]
fn enable_state_rejects_everything_else() {
    assert_eq!(parse_enable_state("bogus"), None);
    assert_eq!(parse_enable_state(""), None);
    assert_eq!(parse_enable_state("2"), None);
    assert_eq!(parse_enable_state("of"), None);
    assert_eq!(parse_enable_state("offf"), None);
    assert_eq!(parse_enable_state("yes"), None);
}

#[test]
fn channel_index_accepts_decimal() {
    assert_eq!(parse_channel_index("0"), Some(0));
    assert_eq!(parse_channel_index("2"), Some(2));
    assert_eq!(parse_channel_index("12"), Some(12));
    assert_eq!(parse_channel_index("007"), Some(7));
    assert_eq!(parse_channel_index("+3"), Some(3));
}

#[test]
fn channel_index_rejects_malformed() {
    assert_eq!(parse_channel_index(""), None);
    assert_eq!(parse_channel_index("+"), None);
    assert_eq!(parse_channel_index("-1"), None);
    assert_eq!(parse_channel_index("3a"), None);
    assert_eq!(parse_channel_index("a3"), None);
    assert_eq!(parse_channel_index("1.5"), None);
    assert_eq!(parse_channel_index(" 1"), None);
}

#[test]
fn channel_index_rejects_overflow() {
    assert_eq!(parse_channel_index("99999999999999999999999999"), None);
    let max = format!("{}", usize::MAX);
    assert_eq!(parse_channel_index(&max), Some(usize::MAX));
}
