//! Power-supply command module: builds the handler table for a power supply,
//! validates arguments, and turns each invocation into a device action. The
//! surrounding binary connects to the instrument and carries the action out.

use vstd::prelude::*;
use vstd::string::StringExecFns;

use crate::router::CmdError;
use crate::router::CmdErrorView;
use crate::router::Commands;
use crate::router::CommandHandler;
use crate::router::CommandsView;
use crate::router::HandlerView;
use crate::router::Resolution;
use crate::router::ResolutionView;
use crate::router::run_resolution;
use crate::text::channel_index;
use crate::text::enable_value;
use crate::text::parse_channel_index;
use crate::text::parse_enable_state;

verus! {

/// The device work a power-supply invocation asks for, with every argument
/// already validated: a status summary, a help listing, a get or set of a
/// channel's enable state or set-points, or a read-back. Set-point values
/// are passed on textually; their numeric grammar belongs to the device
/// layer.
#[derive(Debug, Clone, PartialEq, Eq)]
pub enum PsuAction {
    Status,
    Help(Vec<String>),
    GetEnabled { chan: usize },
    SetEnabled { chan: usize, state: bool },
    GetVoltage { chan: usize },
    SetVoltage { chan: usize, value: String },
    GetCurrent { chan: usize },
    SetCurrent { chan: usize, value: String },
    ReadVoltage { chan: usize },
    ReadCurrent { chan: usize },
    ReadPower { chan: usize },
}

/// Mathematical model of a [`PsuAction`].
#[verifier::ext_equal]
pub ghost enum PsuActionView {
    Status,
    Help(Seq<Seq<char>>),
    GetEnabled { chan: int },
    SetEnabled { chan: int, state: bool },
    GetVoltage { chan: int },
    SetVoltage { chan: int, value: Seq<char> },
    GetCurrent { chan: int },
    SetCurrent { chan: int, value: Seq<char> },
    ReadVoltage { chan: int },
    ReadCurrent { chan: int },
    ReadPower { chan: int },
}

impl DeepView for PsuAction {
    type V = PsuActionView;

    open spec fn deep_view(&self) -> PsuActionView {
        match self {
            PsuAction::Status => PsuActionView::Status,
            PsuAction::Help(lines) => PsuActionView::Help(lines.deep_view()),
            PsuAction::GetEnabled { chan } => PsuActionView::GetEnabled { chan: *chan as int },
            PsuAction::SetEnabled { chan, state } => PsuActionView::SetEnabled {
                chan: *chan as int,
                state: *state,
            },
            PsuAction::GetVoltage { chan } => PsuActionView::GetVoltage { chan: *chan as int },
            PsuAction::SetVoltage { chan, value } => PsuActionView::SetVoltage {
                chan: *chan as int,
                value: value@,
            },
            PsuAction::GetCurrent { chan } => PsuActionView::GetCurrent { chan: *chan as int },
            PsuAction::SetCurrent { chan, value } => PsuActionView::SetCurrent {
                chan: *chan as int,
                value: value@,
            },
            PsuAction::ReadVoltage { chan } => PsuActionView::ReadVoltage { chan: *chan as int },
            PsuAction::ReadCurrent { chan } => PsuActionView::ReadCurrent { chan: *chan as int },
            PsuAction::ReadPower { chan } => PsuActionView::ReadPower { chan: *chan as int },
        }
    }
}

/// Model of a power-supply command result.
pub open spec fn psu_outcome_view(r: Result<PsuAction, CmdError>) -> Result<
    PsuActionView,
    CmdErrorView,
> {
    match r {
        Ok(a) => Ok(a.deep_view()),
        Err(e) => Err(e.deep_view()),
    }
}

/// The power-supply handler table, in registration order.
pub open spec fn psu_table() -> Seq<HandlerView> {
    seq![
        HandlerView { cmd: "status"@, args: None, help: "Show status"@ },
        HandlerView {
            cmd: "enable"@,
            args: Some("<chan> [<enable>]"@),
            help: "Get/set power supply channel enabled"@,
        },
        HandlerView {
            cmd: "set_voltage"@,
            args: Some("<chan> [<voltage>]"@),
            help: "Get/set power supply channel set voltage"@,
        },
        HandlerView {
            cmd: "set_current"@,
            args: Some("<chan> [<current>]"@),
            help: "Get/set power supply channel set current"@,
        },
        HandlerView {
            cmd: "read_voltage"@,
            args: Some("<chan>"@),
            help: "Get power supply channel readback voltage"@,
        },
        HandlerView {
            cmd: "read_current"@,
            args: Some("<chan>"@),
            help: "Get power supply channel readback voltage"@,
        },
        HandlerView {
            cmd: "read_power"@,
            args: Some("<chan>"@),
            help: "Get power supply channel readback voltage"@,
        },
    ]
}

/// The power-supply command table as the router sees it.
pub open spec fn psu_commands_view() -> CommandsView {
    CommandsView { mod_name: "Power Supply"@, handlers: psu_table() }
}

/// Builds the power-supply command table.
pub fn psu_commands() -> (c: Commands)
    ensures
        c@ == psu_commands_view(),
        c.handlers.len() == 7,
{
    let mut handlers: Vec<CommandHandler> = Vec::new();
    handlers.push(
        CommandHandler {
            cmd: String::from_str("status"),
            args: None,
            help: String::from_str("Show status"),
        },
    );
    handlers.push(
        CommandHandler {
            cmd: String::from_str("enable"),
            args: Some(String::from_str("<chan> [<enable>]")),
            help: String::from_str("Get/set power supply channel enabled"),
        },
    );
    handlers.push(
        CommandHandler {
            cmd: String::from_str("set_voltage"),
            args: Some(String::from_str("<chan> [<voltage>]")),
            help: String::from_str("Get/set power supply channel set voltage"),
        },
    );
    handlers.push(
        CommandHandler {
            cmd: String::from_str("set_current"),
            args: Some(String::from_str("<chan> [<current>]")),
            help: String::from_str("Get/set power supply channel set current"),
        },
    );
    handlers.push(
        CommandHandler {
            cmd: String::from_str("read_voltage"),
            args: Some(String::from_str("<chan>")),
            help: String::from_str("Get power supply channel readback voltage"),
        },
    );
    handlers.push(
        CommandHandler {
            cmd: String::from_str("read_current"),
            args: Some(String::from_str("<chan>")),
            help: String::from_str("Get power supply channel readback voltage"),
        },
    );
    handlers.push(
        CommandHandler {
            cmd: String::from_str("read_power"),
            args: Some(String::from_str("<chan>")),
            help: String::from_str("Get power supply channel readback voltage"),
        },
    );
    let c = Commands { mod_name: String::from_str("Power Supply"), handlers };
    proof {
        assert(c@.handlers =~~= psu_table());
        assert(c@ =~~= psu_commands_view());
    }
    c
}

/// Resolves a channel selector, or reports it as unresolvable.
fn get_chan(sel: &String) -> (r: Result<usize, CmdError>)
    ensures
        match r {
            Ok(n) => channel_index(sel@) == Some(n as int),
            Err(e) => channel_index(sel@) is None && e.deep_view() == CmdErrorView::BadChannel(
                sel@,
            ),
        },
{
    match parse_channel_index(sel.as_str()) {
        Some(n) => Ok(n),
        None => Err(CmdError::BadChannel(sel.clone())),
    }
}

/// What the `status` command does: always a status summary.
pub open spec fn status_step() -> Result<PsuActionView, CmdErrorView> {
    Ok(PsuActionView::Status)
}

/// What the `enable` command does with its arguments: channel selector alone
/// reads the enable state, selector plus a vocabulary value sets it; any
/// other argument count is a usage error, and a value outside the vocabulary
/// is an invalid-value error.
pub open spec fn enable_step(args: Seq<Seq<char>>) -> Result<PsuActionView, CmdErrorView> {
    if args.len() < 2 || args.len() > 3 {
        Err(CmdErrorView::Usage("Usage: ... enable <channel> [<state>]"@))
    } else {
        match channel_index(args[1]) {
            None => Err(CmdErrorView::BadChannel(args[1])),
            Some(chan) => {
                if args.len() == 2 {
                    Ok(PsuActionView::GetEnabled { chan })
                } else {
                    match enable_value(args[2]) {
                        Some(state) => Ok(PsuActionView::SetEnabled { chan, state }),
                        None => Err(CmdErrorView::InvalidValue(args[2])),
                    }
                }
            },
        }
    }
}

/// What the `set_voltage` command does: selector alone reads the configured
/// voltage, selector plus a value hands the value on to be applied.
pub open spec fn set_voltage_step(args: Seq<Seq<char>>) -> Result<PsuActionView, CmdErrorView> {
    if args.len() < 2 || args.len() > 3 {
        Err(CmdErrorView::Usage("Usage: ... set_voltage <channel> [<voltage>]"@))
    } else {
        match channel_index(args[1]) {
            None => Err(CmdErrorView::BadChannel(args[1])),
            Some(chan) => {
                if args.len() == 2 {
                    Ok(PsuActionView::GetVoltage { chan })
                } else {
                    Ok(PsuActionView::SetVoltage { chan, value: args[2] })
                }
            },
        }
    }
}

/// What the `set_current` command does: selector alone reads the configured
/// current, selector plus a value hands the value on to be applied.
pub open spec fn set_current_step(args: Seq<Seq<char>>) -> Result<PsuActionView, CmdErrorView> {
    if args.len() < 2 || args.len() > 3 {
        Err(CmdErrorView::Usage("Usage: ... set_current <channel> [<current>]"@))
    } else {
        match channel_index(args[1]) {
            None => Err(CmdErrorView::BadChannel(args[1])),
            Some(chan) => {
                if args.len() == 2 {
                    Ok(PsuActionView::GetCurrent { chan })
                } else {
                    Ok(PsuActionView::SetCurrent { chan, value: args[2] })
                }
            },
        }
    }
}

/// What the `read_voltage` command does: exactly the channel selector.
pub open spec fn read_voltage_step(args: Seq<Seq<char>>) -> Result<PsuActionView, CmdErrorView> {
    if args.len() != 2 {
        Err(CmdErrorView::Usage("Usage: ... read_voltage <channel>"@))
    } else {
        match channel_index(args[1]) {
            None => Err(CmdErrorView::BadChannel(args[1])),
            Some(chan) => Ok(PsuActionView::ReadVoltage { chan }),
        }
    }
}

/// What the `read_current` command does: exactly the channel selector.
pub open spec fn read_current_step(args: Seq<Seq<char>>) -> Result<PsuActionView, CmdErrorView> {
    if args.len() != 2 {
        Err(CmdErrorView::Usage("Usage: ... read_current <channel>"@))
    } else {
        match channel_index(args[1]) {
            None => Err(CmdErrorView::BadChannel(args[1])),
            Some(chan) => Ok(PsuActionView::ReadCurrent { chan }),
        }
    }
}

/// What the `read_power` command does: exactly the channel selector.
pub open spec fn read_power_step(args: Seq<Seq<char>>) -> Result<PsuActionView, CmdErrorView> {
    if args.len() != 2 {
        Err(CmdErrorView::Usage("Usage: ... read_power <channel>"@))
    } else {
        match channel_index(args[1]) {
            None => Err(CmdErrorView::BadChannel(args[1])),
            Some(chan) => Ok(PsuActionView::ReadPower { chan }),
        }
    }
}

/// The command selected by a unique match at table index `i`, applied to the
/// arguments.
pub open spec fn psu_invoke_step(i: int, args: Seq<Seq<char>>) -> Result<
    PsuActionView,
    CmdErrorView,
> {
    if i == 0 {
        status_step()
    } else if i == 1 {
        enable_step(args)
    } else if i == 2 {
        set_voltage_step(args)
    } else if i == 3 {
        set_current_step(args)
    } else if i == 4 {
        read_voltage_step(args)
    } else if i == 5 {
        read_current_step(args)
    } else {
        read_power_step(args)
    }
}

/// What a power-supply invocation does with its arguments: empty input is the
/// default status view, bypassing the router; anything else resolves through
/// the router against the power-supply table.
pub open spec fn psu_step(args: Seq<Seq<char>>) -> Result<PsuActionView, CmdErrorView> {
    if args.len() == 0 {
        Ok(PsuActionView::Status)
    } else {
        match run_resolution(psu_commands_view(), args) {
            Err(e) => Err(e),
            Ok(ResolutionView::Help(lines)) => Ok(PsuActionView::Help(lines)),
            Ok(ResolutionView::Invoke(i)) => psu_invoke_step(i, args),
        }
    }
}

/// The `status` command: a status summary of every channel.
pub fn command_status(_args: &Vec<String>) -> (r: Result<PsuAction, CmdError>)
    ensures
        psu_outcome_view(r) == status_step(),
{
    Ok(PsuAction::Status)
}

/// The `enable` command: get or set a channel's enable state.
pub fn command_enable(args: &Vec<String>) -> (r: Result<PsuAction, CmdError>)
    ensures
        psu_outcome_view(r) == enable_step(args.deep_view()),
{
    if args.len() < 2 || args.len() > 3 {
        return Err(CmdError::Usage(String::from_str("Usage: ... enable <channel> [<state>]")));
    }
    let chan = match get_chan(&args[1]) {
        Ok(chan) => chan,
        Err(e) => {
            return Err(e);
        },
    };
    if args.len() == 2 {
        Ok(PsuAction::GetEnabled { chan })
    } else {
        match parse_enable_state(args[2].as_str()) {
            Some(state) => Ok(PsuAction::SetEnabled { chan, state }),
            None => Err(CmdError::InvalidValue(args[2].clone())),
        }
    }
}

/// The `set_voltage` command: read or apply a channel's voltage set-point.
pub fn command_set_voltage(args: &Vec<String>) -> (r: Result<PsuAction, CmdError>)
    ensures
        psu_outcome_view(r) == set_voltage_step(args.deep_view()),
{
    if args.len() < 2 || args.len() > 3 {
        return Err(
            CmdError::Usage(String::from_str("Usage: ... set_voltage <channel> [<voltage>]")),
        );
    }
    let chan = match get_chan(&args[1]) {
        Ok(chan) => chan,
        Err(e) => {
            return Err(e);
        },
    };
    if args.len() == 2 {
        Ok(PsuAction::GetVoltage { chan })
    } else {
        Ok(PsuAction::SetVoltage { chan, value: args[2].clone() })
    }
}

/// The `set_current` command: read or apply a channel's current set-point.
pub fn command_set_current(args: &Vec<String>) -> (r: Result<PsuAction, CmdError>)
    ensures
        psu_outcome_view(r) == set_current_step(args.deep_view()),
{
    if args.len() < 2 || args.len() > 3 {
        return Err(
            CmdError::Usage(String::from_str("Usage: ... set_current <channel> [<current>]")),
        );
    }
    let chan = match get_chan(&args[1]) {
        Ok(chan) => chan,
        Err(e) => {
            return Err(e);
        },
    };
    if args.len() == 2 {
        Ok(PsuAction::GetCurrent { chan })
    } else {
        Ok(PsuAction::SetCurrent { chan, value: args[2].clone() })
    }
}

/// The `read_voltage` command: read back a channel's output voltage.
pub fn command_read_voltage(args: &Vec<String>) -> (r: Result<PsuAction, CmdError>)
    ensures
        psu_outcome_view(r) == read_voltage_step(args.deep_view()),
{
    if args.len() != 2 {
        return Err(CmdError::Usage(String::from_str("Usage: ... read_voltage <channel>")));
    }
    match get_chan(&args[1]) {
        Ok(chan) => Ok(PsuAction::ReadVoltage { chan }),
        Err(e) => Err(e),
    }
}

/// The `read_current` command: read back a channel's output current.
pub fn command_read_current(args: &Vec<String>) -> (r: Result<PsuAction, CmdError>)
    ensures
        psu_outcome_view(r) == read_current_step(args.deep_view()),
{
    if args.len() != 2 {
        return Err(CmdError::Usage(String::from_str("Usage: ... read_current <channel>")));
    }
    match get_chan(&args[1]) {
        Ok(chan) => Ok(PsuAction::ReadCurrent { chan }),
        Err(e) => Err(e),
    }
}

/// The `read_power` command: read back a channel's output power.
pub fn command_read_power(args: &Vec<String>) -> (r: Result<PsuAction, CmdError>)
    ensures
        psu_outcome_view(r) == read_power_step(args.deep_view()),
{
    if args.len() != 2 {
        return Err(CmdError::Usage(String::from_str("Usage: ... read_power <channel>")));
    }
    match get_chan(&args[1]) {
        Ok(chan) => Ok(PsuAction::ReadPower { chan }),
        Err(e) => Err(e),
    }
}

/// Resolves a power-supply invocation to the device action it asks for:
/// exactly the decision described by [`psu_step`].
pub fn handle_command(args: &Vec<String>) -> (r: Result<PsuAction, CmdError>)
    ensures
        psu_outcome_view(r) == psu_step(args.deep_view()),
{
    if args.len() == 0 {
        return Ok(PsuAction::Status);
    }
    let commands = psu_commands();
    match commands.run_command(args) {
        Err(e) => Err(e),
        Ok(Resolution::Help(lines)) => Ok(PsuAction::Help(lines)),
        Ok(Resolution::Invoke(i)) => {
            if i == 0 {
                command_status(args)
            } else if i == 1 {
                command_enable(args)
            } else if i == 2 {
                command_set_voltage(args)
            } else if i == 3 {
                command_set_current(args)
            } else if i == 4 {
                command_read_voltage(args)
            } else if i == 5 {
                command_read_current(args)
            } else {
                command_read_power(args)
            }
        },
    }
}

/// One channel's status, every value already rendered as text by the device
/// layer: the channel name, the enable state, the configured set-points and
/// the read-back values.
#[derive(Debug, Clone, PartialEq, Eq)]
pub struct PsuChannelReport {
    pub name: String,
    pub enabled: String,
    pub set_voltage: String,
    pub set_current: String,
    pub read_voltage: String,
    pub read_current: String,
    pub read_power: String,
}

/// Mathematical model of a [`PsuChannelReport`].
#[verifier::ext_equal]
pub ghost struct PsuChannelReportView {
    pub name: Seq<char>,
    pub enabled: Seq<char>,
    pub set_voltage: Seq<char>,
    pub set_current: Seq<char>,
    pub read_voltage: Seq<char>,
    pub read_current: Seq<char>,
    pub read_power: Seq<char>,
}

impl View for PsuChannelReport {
    type V = PsuChannelReportView;

    open spec fn view(&self) -> PsuChannelReportView {
        PsuChannelReportView {
            name: self.name@,
            enabled: self.enabled@,
            set_voltage: self.set_voltage@,
            set_current: self.set_current@,
            read_voltage: self.read_voltage@,
            read_current: self.read_current@,
            read_power: self.read_power@,
        }
    }
}

impl DeepView for PsuChannelReport {
    type V = PsuChannelReportView;

    open spec fn deep_view(&self) -> PsuChannelReportView {
        self.view()
    }
}

/// The seven status lines of one power-supply channel.
pub open spec fn psu_channel_lines(r: PsuChannelReportView) -> Seq<Seq<char>> {
    seq![
        "Channel "@ + r.name,
        "  state: "@ + r.enabled,
        "  set voltage:  "@ + r.set_voltage + " V"@,
        "  set current:  "@ + r.set_current + " A"@,
        "  read voltage: "@ + r.read_voltage + " V"@,
        "  read current: "@ + r.read_current + " A"@,
        "  read power:   "@ + r.read_power + " W"@,
    ]
}

/// The status lines of a whole power supply: each channel's lines in
/// enumeration order.
pub open spec fn psu_status_lines_view(reports: Seq<PsuChannelReportView>) -> Seq<Seq<char>>
    decreases reports.len(),
{
    if reports.len() == 0 {
        Seq::empty()
    } else {
        psu_status_lines_view(reports.drop_last()) + psu_channel_lines(reports.last())
    }
}

/// Renders the status summary of a power supply: seven lines per channel, in
/// enumeration order.
pub fn psu_status_lines(reports: &Vec<PsuChannelReport>) -> (lines: Vec<String>)
    ensures
        lines.deep_view() == psu_status_lines_view(reports.deep_view()),
{
    let ghost greps = reports.deep_view();
    let mut lines: Vec<String> = Vec::new();
    let mut i: usize = 0;
    proof {
        assert(lines.deep_view() =~~= psu_status_lines_view(greps.take(0)));
    }
    while i < reports.len()
        invariant
            i <= reports.len(),
            greps == reports.deep_view(),
            greps.len() == reports@.len(),
            lines@.len() == 7 * i,
            lines.deep_view() == psu_status_lines_view(greps.take(i as int)),
        decreases reports.len() - i,
    {
        let r = &reports[i];
        let ghost prev = lines.deep_view();
        let ghost ext = greps.take(i + 1);
        proof {
            assert(ext.drop_last() =~= greps.take(i as int));
            assert(ext.last() == greps[i as int]);
        }
        let mut l0 = String::from_str("Channel ");
        l0.append(r.name.as_str());
        lines.push(l0);
        let mut l1 = String::from_str("  state: ");
        l1.append(r.enabled.as_str());
        lines.push(l1);
        let mut l2 = String::from_str("  set voltage:  ");
        l2.append(r.set_voltage.as_str());
        l2.append(" V");
        lines.push(l2);
        let mut l3 = String::from_str("  set current:  ");
        l3.append(r.set_current.as_str());
        l3.append(" A");
        lines.push(l3);
        let mut l4 = String::from_str("  read voltage: ");
        l4.append(r.read_voltage.as_str());
        l4.append(" V");
        lines.push(l4);
        let mut l5 = String::from_str("  read current: ");
        l5.append(r.read_current.as_str());
        l5.append(" A");
        lines.push(l5);
        let mut l6 = String::from_str("  read power:   ");
        l6.append(r.read_power.as_str());
        l6.append(" W");
        lines.push(l6);
        proof {
            assert(lines@.len() == 7 * i + 7);
            assert(forall|m: int| 0 <= m < 7 * i ==> lines.deep_view()[m] == prev[m]);
            assert(lines.deep_view() =~~= prev + psu_channel_lines(greps[i as int]));
            assert(lines.deep_view() =~~= psu_status_lines_view(ext));
        }
        i = i + 1;
    }
    proof {
        assert(greps.take(reports@.len() as int) =~= greps);
    }
    lines
}

} // verus!
