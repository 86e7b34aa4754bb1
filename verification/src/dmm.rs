//! Multimeter command module: builds the handler table for a multimeter,
//! validates arguments, and turns each invocation into a device action. The
//! surrounding binary connects to the instrument and carries the action out.

use vstd::prelude::*;
use vstd::string::StringExecFns;

use crate::router::CmdError;
use crate::router::CmdErrorView;
use crate::router::Commands;
use crate::router::CommandHandler;
use crate::router::CommandsView;
use crate::router::HandlerView;
use crate::router::Resolution;
use crate::router::ResolutionView;
use crate::router::run_resolution;
use crate::text::channel_index;
use crate::text::parse_channel_index;

verus! {

/// The device work a multimeter invocation asks for, with every argument
/// already validated. Mode and trigger-source values are handed on
/// textually; the device layer folds their case and parses them against the
/// device's own grammar.
#[derive(Debug, Clone, PartialEq, Eq)]
pub enum DmmAction {
    Status,
    Help(Vec<String>),
    GetMode { chan: usize },
    SetMode { chan: usize, value: String },
    Read { chan: usize },
    ReadNow { chan: usize },
    GetTrigSource,
    SetTrigSource { value: String },
    Arm,
}

/// Mathematical model of a [`DmmAction`].
#[verifier::ext_equal]
pub ghost enum DmmActionView {
    Status,
    Help(Seq<Seq<char>>),
    GetMode { chan: int },
    SetMode { chan: int, value: Seq<char> },
    Read { chan: int },
    ReadNow { chan: int },
    GetTrigSource,
    SetTrigSource { value: Seq<char> },
    Arm,
}

impl DeepView for DmmAction {
    type V = DmmActionView;

    open spec fn deep_view(&self) -> DmmActionView {
        match self {
            DmmAction::Status => DmmActionView::Status,
            DmmAction::Help(lines) => DmmActionView::Help(lines.deep_view()),
            DmmAction::GetMode { chan } => DmmActionView::GetMode { chan: *chan as int },
            DmmAction::SetMode { chan, value } => DmmActionView::SetMode {
                chan: *chan as int,
                value: value@,
            },
            DmmAction::Read { chan } => DmmActionView::Read { chan: *chan as int },
            DmmAction::ReadNow { chan } => DmmActionView::ReadNow { chan: *chan as int },
            DmmAction::GetTrigSource => DmmActionView::GetTrigSource,
            DmmAction::SetTrigSource { value } => DmmActionView::SetTrigSource { value: value@ },
            DmmAction::Arm => DmmActionView::Arm,
        }
    }
}

/// Model of a multimeter command result.
pub open spec fn dmm_outcome_view(r: Result<DmmAction, CmdError>) -> Result<
    DmmActionView,
    CmdErrorView,
> {
    match r {
        Ok(a) => Ok(a.deep_view()),
        Err(e) => Err(e.deep_view()),
    }
}

/// The multimeter handler table, in registration order.
pub open spec fn dmm_table() -> Seq<HandlerView> {
    seq![
        HandlerView { cmd: "status"@, args: None, help: "Show status"@ },
        HandlerView {
            cmd: "mode"@,
            args: Some("<chan> [<mode>]"@),
            help: "Get/set DMM channel mode"@,
        },
        HandlerView {
            cmd: "read"@,
            args: Some("<chan>"@),
            help: "Read current DMM channel reading"@,
        },
        HandlerView {
            cmd: "read_now"@,
            args: Some("<chan>"@),
            help: "Trigger DMM and get reading from channel"@,
        },
        HandlerView {
            cmd: "trig_source"@,
            args: Some("[<source>]"@),
            help: "Get/set DMM trigger source"@,
        },
        HandlerView { cmd: "arm"@, args: None, help: "Arm trigger"@ },
    ]
}

/// The multimeter command table as the router sees it.
pub open spec fn dmm_commands_view() -> CommandsView {
    CommandsView { mod_name: "Multimeter"@, handlers: dmm_table() }
}

/// Builds the multimeter command table.
pub fn dmm_commands() -> (c: Commands)
    ensures
        c@ == dmm_commands_view(),
        c.handlers.len() == 6,
{
    let mut handlers: Vec<CommandHandler> = Vec::new();
    handlers.push(
        CommandHandler {
            cmd: String::from_str("status"),
            args: None,
            help: String::from_str("Show status"),
        },
    );
    handlers.push(
        CommandHandler {
            cmd: String::from_str("mode"),
            args: Some(String::from_str("<chan> [<mode>]")),
            help: String::from_str("Get/set DMM channel mode"),
        },
    );
    handlers.push(
        CommandHandler {
            cmd: String::from_str("read"),
            args: Some(String::from_str("<chan>")),
            help: String::from_str("Read current DMM channel reading"),
        },
    );
    handlers.push(
        CommandHandler {
            cmd: String::from_str("read_now"),
            args: Some(String::from_str("<chan>")),
            help: String::from_str("Trigger DMM and get reading from channel"),
        },
    );
    handlers.push(
        CommandHandler {
            cmd: String::from_str("trig_source"),
            args: Some(String::from_str("[<source>]")),
            help: String::from_str("Get/set DMM trigger source"),
        },
    );
    handlers.push(
        CommandHandler {
            cmd: String::from_str("arm"),
            args: None,
            help: String::from_str("Arm trigger"),
        },
    );
    let c = Commands { mod_name: String::from_str("Multimeter"), handlers };
    proof {
        assert(c@.handlers =~~= dmm_table());
        assert(c@ =~~= dmm_commands_view());
    }
    c
}

/// Resolves a channel selector, or reports it as unresolvable.
fn get_chan(sel: &String) -> (r: Result<usize, CmdError>)
    ensures
        match r {
            Ok(n) => channel_index(sel@) == Some(n as int),
            Err(e) => channel_index(sel@) is None && e.deep_view() == CmdErrorView::BadChannel(
                sel@,
            ),
        },
{
    match parse_channel_index(sel.as_str()) {
        Some(n) => Ok(n),
        None => Err(CmdError::BadChannel(sel.clone())),
    }
}

/// What the `status` command does: always a status summary.
pub open spec fn status_step() -> Result<DmmActionView, CmdErrorView> {
    Ok(DmmActionView::Status)
}

/// What the `mode` command does: channel selector alone reads the mode,
/// selector plus a value hands the value on to be applied; any other
/// argument count is a usage error.
pub open spec fn mode_step(args: Seq<Seq<char>>) -> Result<DmmActionView, CmdErrorView> {
    if args.len() < 2 || args.len() > 3 {
        Err(CmdErrorView::Usage("Usage: ... mode <channel> [<mode>]"@))
    } else {
        match channel_index(args[1]) {
            None => Err(CmdErrorView::BadChannel(args[1])),
            Some(chan) => {
                if args.len() == 2 {
                    Ok(DmmActionView::GetMode { chan })
                } else {
                    Ok(DmmActionView::SetMode { chan, value: args[2] })
                }
            },
        }
    }
}

/// What the `read` command does: exactly the channel selector, and a read of
/// the channel's current reading.
pub open spec fn read_step(args: Seq<Seq<char>>) -> Result<DmmActionView, CmdErrorView> {
    if args.len() != 2 {
        Err(CmdErrorView::Usage("Usage: ... read <channel>"@))
    } else {
        match channel_index(args[1]) {
            None => Err(CmdErrorView::BadChannel(args[1])),
            Some(chan) => Ok(DmmActionView::Read { chan }),
        }
    }
}

/// What the `read_now` command does: exactly the channel selector, and an
/// arm-trigger-read sequence against that channel.
pub open spec fn read_now_step(args: Seq<Seq<char>>) -> Result<DmmActionView, CmdErrorView> {
    if args.len() != 2 {
        Err(CmdErrorView::Usage("Usage: ... read_now <channel>"@))
    } else {
        match channel_index(args[1]) {
            None => Err(CmdErrorView::BadChannel(args[1])),
            Some(chan) => Ok(DmmActionView::ReadNow { chan }),
        }
    }
}

/// What the `trig_source` command does: with no further argument it reads the
/// trigger source, with one it hands the value on to be applied; more than
/// one further argument is a usage error.
pub open spec fn trig_source_step(args: Seq<Seq<char>>) -> Result<DmmActionView, CmdErrorView> {
    if args.len() > 2 {
        Err(CmdErrorView::Usage("Usage: ... trig_source [<source>]"@))
    } else if args.len() == 2 {
        Ok(DmmActionView::SetTrigSource { value: args[1] })
    } else {
        Ok(DmmActionView::GetTrigSource)
    }
}

/// What the `arm` command does: always an arm of the trigger.
pub open spec fn arm_step() -> Result<DmmActionView, CmdErrorView> {
    Ok(DmmActionView::Arm)
}

/// The command selected by a unique match at table index `i`, applied to the
/// arguments.
pub open spec fn dmm_invoke_step(i: int, args: Seq<Seq<char>>) -> Result<
    DmmActionView,
    CmdErrorView,
> {
    if i == 0 {
        status_step()
    } else if i == 1 {
        mode_step(args)
    } else if i == 2 {
        read_step(args)
    } else if i == 3 {
        read_now_step(args)
    } else if i == 4 {
        trig_source_step(args)
    } else {
        arm_step()
    }
}

/// What a multimeter invocation does with its arguments: empty input is the
/// default status view, bypassing the router; anything else resolves through
/// the router against the multimeter table.
pub open spec fn dmm_step(args: Seq<Seq<char>>) -> Result<DmmActionView, CmdErrorView> {
    if args.len() == 0 {
        Ok(DmmActionView::Status)
    } else {
        match run_resolution(dmm_commands_view(), args) {
            Err(e) => Err(e),
            Ok(ResolutionView::Help(lines)) => Ok(DmmActionView::Help(lines)),
            Ok(ResolutionView::Invoke(i)) => dmm_invoke_step(i, args),
        }
    }
}

/// The `status` command: a status summary of the trigger source and every
/// channel's mode.
pub fn command_status(_args: &Vec<String>) -> (r: Result<DmmAction, CmdError>)
    ensures
        dmm_outcome_view(r) == status_step(),
{
    Ok(DmmAction::Status)
}

/// The `mode` command: get or set a channel's measurement mode.
pub fn command_mode(args: &Vec<String>) -> (r: Result<DmmAction, CmdError>)
    ensures
        dmm_outcome_view(r) == mode_step(args.deep_view()),
{
    if args.len() < 2 || args.len() > 3 {
        return Err(CmdError::Usage(String::from_str("Usage: ... mode <channel> [<mode>]")));
    }
    let chan = match get_chan(&args[1]) {
        Ok(chan) => chan,
        Err(e) => {
            return Err(e);
        },
    };
    if args.len() == 2 {
        Ok(DmmAction::GetMode { chan })
    } else {
        Ok(DmmAction::SetMode { chan, value: args[2].clone() })
    }
}

/// The `read` command: read a channel's current reading.
pub fn command_read(args: &Vec<String>) -> (r: Result<DmmAction, CmdError>)
    ensures
        dmm_outcome_view(r) == read_step(args.deep_view()),
{
    if args.len() != 2 {
        return Err(CmdError::Usage(String::from_str("Usage: ... read <channel>")));
    }
    match get_chan(&args[1]) {
        Ok(chan) => Ok(DmmAction::Read { chan }),
        Err(e) => Err(e),
    }
}

/// The `read_now` command: arm, trigger and read a channel in one exclusive
/// sequence.
pub fn command_read_now(args: &Vec<String>) -> (r: Result<DmmAction, CmdError>)
    ensures
        dmm_outcome_view(r) == read_now_step(args.deep_view()),
{
    if args.len() != 2 {
        return Err(CmdError::Usage(String::from_str("Usage: ... read_now <channel>")));
    }
    match get_chan(&args[1]) {
        Ok(chan) => Ok(DmmAction::ReadNow { chan }),
        Err(e) => Err(e),
    }
}

/// The `trig_source` command: get or set the device's trigger source.
pub fn command_trig_source(args: &Vec<String>) -> (r: Result<DmmAction, CmdError>)
    ensures
        dmm_outcome_view(r) == trig_source_step(args.deep_view()),
{
    if args.len() > 2 {
        return Err(CmdError::Usage(String::from_str("Usage: ... trig_source [<source>]")));
    }
    if args.len() == 2 {
        Ok(DmmAction::SetTrigSource { value: args[1].clone() })
    } else {
        Ok(DmmAction::GetTrigSource)
    }
}

/// The `arm` command: arm the device's trigger.
pub fn command_arm(_args: &Vec<String>) -> (r: Result<DmmAction, CmdError>)
    ensures
        dmm_outcome_view(r) == arm_step(),
{
    Ok(DmmAction::Arm)
}

/// Resolves a multimeter invocation to the device action it asks for:
/// exactly the decision described by [`dmm_step`].
pub fn handle_command(args: &Vec<String>) -> (r: Result<DmmAction, CmdError>)
    ensures
        dmm_outcome_view(r) == dmm_step(args.deep_view()),
{
    if args.len() == 0 {
        return Ok(DmmAction::Status);
    }
    let commands = dmm_commands();
    match commands.run_command(args) {
        Err(e) => Err(e),
        Ok(Resolution::Help(lines)) => Ok(DmmAction::Help(lines)),
        Ok(Resolution::Invoke(i)) => {
            if i == 0 {
                command_status(args)
            } else if i == 1 {
                command_mode(args)
            } else if i == 2 {
                command_read(args)
            } else if i == 3 {
                command_read_now(args)
            } else if i == 4 {
                command_trig_source(args)
            } else {
                command_arm(args)
            }
        },
    }
}

/// One channel's status, every value already rendered as text by the device
/// layer: the channel name and its measurement mode. The status view never
/// forces a reading, since the trigger mode might not be immediate.
#[derive(Debug, Clone, PartialEq, Eq)]
pub struct DmmChannelReport {
    pub name: String,
    pub mode: String,
}

/// Mathematical model of a [`DmmChannelReport`].
#[verifier::ext_equal]
pub ghost struct DmmChannelReportView {
    pub name: Seq<char>,
    pub mode: Seq<char>,
}

impl View for DmmChannelReport {
    type V = DmmChannelReportView;

    open spec fn view(&self) -> DmmChannelReportView {
        DmmChannelReportView { name: self.name@, mode: self.mode@ }
    }
}

impl DeepView for DmmChannelReport {
    type V = DmmChannelReportView;

    open spec fn deep_view(&self) -> DmmChannelReportView {
        self.view()
    }
}

/// The two status lines of one multimeter channel.
pub open spec fn dmm_channel_lines(r: DmmChannelReportView) -> Seq<Seq<char>> {
    seq!["Channel "@ + r.name, "  mode: "@ + r.mode]
}

/// The per-channel status lines of a multimeter, in enumeration order.
pub open spec fn dmm_channel_lines_view(reports: Seq<DmmChannelReportView>) -> Seq<Seq<char>>
    decreases reports.len(),
{
    if reports.len() == 0 {
        Seq::empty()
    } else {
        dmm_channel_lines_view(reports.drop_last()) + dmm_channel_lines(reports.last())
    }
}

/// The status lines of a whole multimeter: the trigger source first, then
/// each channel's lines in enumeration order.
pub open spec fn dmm_status_lines_view(
    trig_source: Seq<char>,
    reports: Seq<DmmChannelReportView>,
) -> Seq<Seq<char>> {
    seq!["trig mode: "@ + trig_source] + dmm_channel_lines_view(reports)
}

/// Renders the status summary of a multimeter: the trigger source, then two
/// lines per channel, in enumeration order.
pub fn dmm_status_lines(trig_source: &String, reports: &Vec<DmmChannelReport>) -> (lines: Vec<
    String,
>)
    ensures
        lines.deep_view() == dmm_status_lines_view(trig_source@, reports.deep_view()),
{
    let ghost greps = reports.deep_view();
    let mut lines: Vec<String> = Vec::new();
    let mut head = String::from_str("trig mode: ");
    head.append(trig_source.as_str());
    lines.push(head);
    let mut i: usize = 0;
    proof {
        assert(lines.deep_view() =~~= dmm_status_lines_view(trig_source@, greps.take(0)));
    }
    while i < reports.len()
        invariant
            i <= reports.len(),
            greps == reports.deep_view(),
            greps.len() == reports@.len(),
            lines@.len() == 1 + 2 * i,
            lines.deep_view() == dmm_status_lines_view(trig_source@, greps.take(i as int)),
        decreases reports.len() - i,
    {
        let r = &reports[i];
        let ghost prev = lines.deep_view();
        let ghost ext = greps.take(i + 1);
        proof {
            assert(ext.drop_last() =~= greps.take(i as int));
            assert(ext.last() == greps[i as int]);
        }
        let mut l0 = String::from_str("Channel ");
        l0.append(r.name.as_str());
        lines.push(l0);
        let mut l1 = String::from_str("  mode: ");
        l1.append(r.mode.as_str());
        lines.push(l1);
        proof {
            assert(lines@.len() == 1 + 2 * i + 2);
            assert(forall|m: int| 0 <= m < 1 + 2 * i ==> lines.deep_view()[m] == prev[m]);
            assert(lines.deep_view() =~~= prev + dmm_channel_lines(greps[i as int]));
            assert(dmm_channel_lines_view(ext) =~= dmm_channel_lines_view(greps.take(i as int))
                + dmm_channel_lines(greps[i as int]));
            assert(lines.deep_view() =~~= dmm_status_lines_view(trig_source@, ext));
        }
        i = i + 1;
    }
    proof {
        assert(greps.take(reports@.len() as int) =~= greps);
    }
    lines
}

} // verus!
