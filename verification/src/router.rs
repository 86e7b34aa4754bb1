//! The command router: resolves a user-supplied token to a unique registered
//! handler by literal prefix match, serves a synthesized help listing for the
//! token `help`, and reports ambiguous abbreviations instead of guessing.

use vstd::prelude::*;
use vstd::string::StrSliceExecFns;
use vstd::string::StringExecFns;

use crate::text::cmd_matches;
use crate::text::str_eq;
use crate::text::str_is_prefix;

verus! {

/// An immutable record pairing a command name with an optional usage string
/// for its positional arguments and a short help text. The handler's action
/// itself is selected by index: the router reports which table entry matched
/// and the caller carries out that entry's work.
#[derive(Debug, Clone, PartialEq, Eq)]
pub struct CommandHandler {
    pub cmd: String,
    pub args: Option<String>,
    pub help: String,
}

/// Mathematical model of a [`CommandHandler`]: its strings as character
/// sequences.
#[verifier::ext_equal]
pub ghost struct HandlerView {
    pub cmd: Seq<char>,
    pub args: Option<Seq<char>>,
    pub help: Seq<char>,
}

impl View for CommandHandler {
    type V = HandlerView;

    open spec fn view(&self) -> HandlerView {
        HandlerView { cmd: self.cmd@, args: self.args.deep_view(), help: self.help@ }
    }
}

impl DeepView for CommandHandler {
    type V = HandlerView;

    open spec fn deep_view(&self) -> HandlerView {
        self.view()
    }
}

/// An ordered table of command handlers together with the module label shown
/// in help output. Order is significant only for help display; matching never
/// resolves ambiguity by order.
#[derive(Debug, Clone, PartialEq, Eq)]
pub struct Commands {
    pub mod_name: String,
    pub handlers: Vec<CommandHandler>,
}

/// Mathematical model of a [`Commands`] table.
#[verifier::ext_equal]
pub ghost struct CommandsView {
    pub mod_name: Seq<char>,
    pub handlers: Seq<HandlerView>,
}

impl View for Commands {
    type V = CommandsView;

    open spec fn view(&self) -> CommandsView {
        CommandsView { mod_name: self.mod_name@, handlers: self.handlers.deep_view() }
    }
}

/// What the router decided: either serve the given help lines, or invoke the
/// handler at the given table index.
#[derive(Debug, Clone, PartialEq, Eq)]
pub enum Resolution {
    Help(Vec<String>),
    Invoke(usize),
}

/// Mathematical model of a [`Resolution`].
#[verifier::ext_equal]
pub ghost enum ResolutionView {
    Help(Seq<Seq<char>>),
    Invoke(int),
}

impl DeepView for Resolution {
    type V = ResolutionView;

    open spec fn deep_view(&self) -> ResolutionView {
        match self {
            Resolution::Help(lines) => ResolutionView::Help(lines.deep_view()),
            Resolution::Invoke(i) => ResolutionView::Invoke(*i as int),
        }
    }
}

/// The failures a command can end in before any device work is attempted:
/// no command token at all, an unknown token, an ambiguous abbreviation,
/// a wrong argument count, an unresolvable channel selector, or a malformed
/// value.
#[derive(Debug, Clone, PartialEq, Eq)]
pub enum CmdError {
    MissingCommand,
    NoMatch(String),
    Ambiguous(Vec<String>),
    Usage(String),
    BadChannel(String),
    InvalidValue(String),
}

/// Mathematical model of a [`CmdError`].
#[verifier::ext_equal]
pub ghost enum CmdErrorView {
    MissingCommand,
    NoMatch(Seq<char>),
    Ambiguous(Seq<Seq<char>>),
    Usage(Seq<char>),
    BadChannel(Seq<char>),
    InvalidValue(Seq<char>),
}

impl DeepView for CmdError {
    type V = CmdErrorView;

    open spec fn deep_view(&self) -> CmdErrorView {
        match self {
            CmdError::MissingCommand => CmdErrorView::MissingCommand,
            CmdError::NoMatch(t) => CmdErrorView::NoMatch(t@),
            CmdError::Ambiguous(ns) => CmdErrorView::Ambiguous(ns.deep_view()),
            CmdError::Usage(u) => CmdErrorView::Usage(u@),
            CmdError::BadChannel(s) => CmdErrorView::BadChannel(s@),
            CmdError::InvalidValue(v) => CmdErrorView::InvalidValue(v@),
        }
    }
}

/// Model of a router result: decision on success, typed failure otherwise.
pub open spec fn outcome_view(r: Result<Resolution, CmdError>) -> Result<
    ResolutionView,
    CmdErrorView,
> {
    match r {
        Ok(a) => Ok(a.deep_view()),
        Err(e) => Err(e.deep_view()),
    }
}

/// The command names of a table, in registration order.
pub open spec fn handler_names(c: CommandsView) -> Seq<Seq<char>> {
    c.handlers.map_values(|h: HandlerView| h.cmd)
}

/// The indices of the handlers whose names the token matches, in registration
/// order.
pub open spec fn match_indices(names: Seq<Seq<char>>, token: Seq<char>) -> Seq<int>
    decreases names.len(),
{
    if names.len() == 0 {
        Seq::empty()
    } else {
        let prefix = match_indices(names.drop_last(), token);
        if cmd_matches(names.last(), token) {
            prefix.push(names.len() - 1)
        } else {
            prefix
        }
    }
}

/// `match_indices` is sound, complete and strictly increasing: every listed
/// index is in range and matches, every matching index is listed, and the
/// listing follows registration order.
pub proof fn lemma_match_indices(names: Seq<Seq<char>>, token: Seq<char>)
    ensures
        forall|k: int|
            0 <= k < match_indices(names, token).len() ==> 0 <= #[trigger] match_indices(
                names,
                token,
            )[k] < names.len() && cmd_matches(names[match_indices(names, token)[k]], token),
        forall|i: int|
            0 <= i < names.len() && cmd_matches(#[trigger] names[i], token) ==> match_indices(
                names,
                token,
            ).contains(i),
        forall|k1: int, k2: int|
            #![trigger match_indices(names, token)[k1], match_indices(names, token)[k2]]
            0 <= k1 < k2 < match_indices(names, token).len() ==> match_indices(names, token)[k1]
                < match_indices(names, token)[k2],
    decreases names.len(),
{
    let mi = match_indices(names, token);
    if names.len() > 0 {
        let head = names.drop_last();
        lemma_match_indices(head, token);
        let prev = match_indices(head, token);
        assert(forall|i: int| 0 <= i < head.len() ==> head[i] == names[i]);
        assert forall|i: int|
            0 <= i < names.len() && cmd_matches(#[trigger] names[i], token) implies mi.contains(
            i,
        ) by {
            if i < names.len() - 1 {
                assert(prev.contains(i));
                let k = choose|k: int| 0 <= k < prev.len() && prev[k] == i;
                assert(mi[k] == i);
            } else {
                assert(mi.last() == i);
            }
        }
    }
}

/// A token that matches two handlers at distinct indices yields at least two
/// match indices.
pub proof fn lemma_two_matches(names: Seq<Seq<char>>, token: Seq<char>, i: int, j: int)
    requires
        0 <= i < names.len(),
        0 <= j < names.len(),
        i != j,
        cmd_matches(names[i], token),
        cmd_matches(names[j], token),
    ensures
        match_indices(names, token).len() >= 2,
{
    lemma_match_indices(names, token);
    let mi = match_indices(names, token);
    assert(mi.contains(i));
    assert(mi.contains(j));
    let ki = choose|k: int| 0 <= k < mi.len() && mi[k] == i;
    let kj = choose|k: int| 0 <= k < mi.len() && mi[k] == j;
    assert(ki != kj);
}

/// A token that matches exactly one handler index `k` yields precisely the
/// singleton listing of `k`.
pub proof fn lemma_unique_match(names: Seq<Seq<char>>, token: Seq<char>, k: int)
    requires
        0 <= k < names.len(),
        cmd_matches(names[k], token),
        forall|j: int| 0 <= j < names.len() && j != k ==> !cmd_matches(#[trigger] names[j], token),
    ensures
        match_indices(names, token) =~= seq![k],
{
    lemma_match_indices(names, token);
    let mi = match_indices(names, token);
    assert(mi.contains(k));
    assert(forall|m: int| 0 <= m < mi.len() ==> mi[m] == k);
    if mi.len() >= 2 {
        assert(mi[0] < mi[1]);
    }
    let km = choose|m: int| 0 <= m < mi.len() && mi[m] == k;
    assert(mi.len() == 1);
}

/// One help line for one handler: two spaces, the command name, the usage
/// string if there is one, a colon, and the help text.
pub open spec fn help_line(h: HandlerView) -> Seq<char> {
    match h.args {
        Some(u) => "  "@ + h.cmd + " "@ + u + ": "@ + h.help,
        None => "  "@ + h.cmd + ": "@ + h.help,
    }
}

/// The heading of the help listing: the module label and the word `commands`.
pub open spec fn help_header(mod_name: Seq<char>) -> Seq<char> {
    mod_name + " commands:"@
}

/// The full help listing: the heading, then one line per registered handler
/// in registration order.
pub open spec fn help_lines(c: CommandsView) -> Seq<Seq<char>> {
    Seq::new(
        c.handlers.len() + 1,
        |i: int|
            if i == 0 {
                help_header(c.mod_name)
            } else {
                help_line(c.handlers[i - 1])
            },
    )
}

/// What the router does with an argument list: reject empty input, serve the
/// help listing for the token `help`, and otherwise match the token as a
/// literal prefix against every registered name — no match and multiple
/// matches are errors, a unique match selects that handler.
pub open spec fn run_resolution(c: CommandsView, args: Seq<Seq<char>>) -> Result<
    ResolutionView,
    CmdErrorView,
> {
    if args.len() == 0 {
        Err(CmdErrorView::MissingCommand)
    } else if args[0] == "help"@ {
        Ok(ResolutionView::Help(help_lines(c)))
    } else {
        let names = handler_names(c);
        let mi = match_indices(names, args[0]);
        if mi.len() == 0 {
            Err(CmdErrorView::NoMatch(args[0]))
        } else if mi.len() == 1 {
            Ok(ResolutionView::Invoke(mi[0]))
        } else {
            Err(CmdErrorView::Ambiguous(mi.map_values(|k: int| names[k])))
        }
    }
}

impl Commands {
    /// Resolves `args` against this table: exactly the decision described by
    /// [`run_resolution`]. On a unique match the returned index selects the
    /// matched handler.
    pub fn run_command(&self, args: &Vec<String>) -> (r: Result<Resolution, CmdError>)
        ensures
            outcome_view(r) == run_resolution(self@, args.deep_view()),
            r matches Ok(Resolution::Invoke(i)) ==> i < self.handlers.len(),
    {
        let ghost gargs = args.deep_view();
        if args.len() == 0 {
            return Err(CmdError::MissingCommand);
        }
        let token: &str = args[0].as_str();
        proof {
            assert(token@ == gargs[0]);
        }
        if str_eq(token, "help") {
            let lines = self.help_listing();
            return Ok(Resolution::Help(lines));
        }
        let ghost names = handler_names(self@);
        let mut matched: Vec<usize> = Vec::new();
        let mut i: usize = 0;
        proof {
            assert(names.take(0) =~= Seq::<Seq<char>>::empty());
        }
        while i < self.handlers.len()
            invariant
                i <= self.handlers.len(),
                names == handler_names(self@),
                names.len() == self.handlers.len(),
                forall|j: int| 0 <= j < names.len() ==> names[j] == self@.handlers[j].cmd,
                token@ == gargs[0],
                matched@.map_values(|u: usize| u as int) == match_indices(
                    names.take(i as int),
                    token@,
                ),
                forall|j: int| 0 <= j < matched@.len() ==> #[trigger] matched@[j] < i,
            decreases self.handlers.len() - i,
        {
            let ghost pre = names.take(i as int);
            let ghost ext = names.take(i + 1);
            proof {
                assert(ext.drop_last() =~= pre);
                assert(ext.last() == names[i as int]);
            }
            if str_is_prefix(token, self.handlers[i].cmd.as_str()) {
                matched.push(i);
            }
            proof {
                assert(matched@.map_values(|u: usize| u as int) =~= match_indices(ext, token@));
            }
            i = i + 1;
        }
        proof {
            assert(names.take(self.handlers.len() as int) =~= names);
        }
        let ghost mi = match_indices(names, token@);
        if matched.len() == 0 {
            Err(CmdError::NoMatch(args[0].clone()))
        } else if matched.len() == 1 {
            let k = matched[0];
            proof {
                assert(mi[0] == k as int);
            }
            Ok(Resolution::Invoke(k))
        } else {
            let mut names_out: Vec<String> = Vec::new();
            let mut j: usize = 0;
            let ghost listed = mi.map_values(|k: int| names[k]);
            while j < matched.len()
                invariant
                    j <= matched.len(),
                    names.len() == self.handlers.len(),
                    forall|m: int| 0 <= m < names.len() ==> names[m] == self@.handlers[m].cmd,
                    matched@.map_values(|u: usize| u as int) == mi,
                    forall|m: int| 0 <= m < matched@.len() ==> #[trigger] matched@[m]
                        < self.handlers.len(),
                    listed == mi.map_values(|k: int| names[k]),
                    listed.len() == matched@.len(),
                    names_out@.len() == j,
                    names_out.deep_view() == listed.take(j as int),
                decreases matched.len() - j,
            {
                let idx = matched[j];
                proof {
                    assert(mi[j as int] == idx as int);
                    assert(listed[j as int] == names[idx as int]);
                }
                let ghost prev = names_out.deep_view();
                names_out.push(self.handlers[idx].cmd.clone());
                proof {
                    assert(names_out@.len() == j + 1);
                    assert(forall|m: int| 0 <= m < j ==> names_out.deep_view()[m] == prev[m]);
                    assert(names_out.deep_view()[j as int] == names[idx as int]);
                    assert(names_out.deep_view() =~~= listed.take(j + 1));
                }
                j = j + 1;
            }
            proof {
                assert(listed.take(matched@.len() as int) =~= listed);
            }
            Err(CmdError::Ambiguous(names_out))
        }
    }

    /// Renders the help listing: the module heading, then one line per
    /// handler in registration order.
    pub fn help_listing(&self) -> (lines: Vec<String>)
        ensures
            lines.deep_view() == help_lines(self@),
    {
        let mut lines: Vec<String> = Vec::new();
        let mut header = self.mod_name.clone();
        header.append(" commands:");
        lines.push(header);
        proof {
            assert(lines.deep_view() =~~= help_lines(self@).take(1));
        }
        let mut i: usize = 0;
        while i < self.handlers.len()
            invariant
                i <= self.handlers.len(),
                help_lines(self@).len() == self.handlers.len() + 1,
                lines@.len() == i + 1,
                lines.deep_view() == help_lines(self@).take(i + 1),
            decreases self.handlers.len() - i,
        {
            let h = &self.handlers[i];
            let mut line = String::from_str("  ");
            line.append(h.cmd.as_str());
            if let Some(u) = &h.args {
                line.append(" ");
                line.append(u.as_str());
            }
            line.append(": ");
            line.append(h.help.as_str());
            proof {
                assert(line@ =~= help_line(self@.handlers[i as int]));
            }
            let ghost prev = lines.deep_view();
            let ghost gline = line@;
            lines.push(line);
            proof {
                assert(lines@.len() == i + 2);
                assert(forall|m: int| 0 <= m < i + 1 ==> lines.deep_view()[m] == prev[m]);
                assert(lines.deep_view()[i + 1] == gline);
                assert(lines.deep_view() =~~= help_lines(self@).take(i + 2));
            }
            i = i + 1;
        }
        proof {
            assert(help_lines(self@).take(self.handlers.len() + 1) =~= help_lines(self@));
        }
        lines
    }
}

/// The candidate names of an ambiguity report rendered as a quoted,
/// comma-separated list.
pub open spec fn quoted_list(names: Seq<Seq<char>>) -> Seq<char>
    decreases names.len(),
{
    if names.len() == 0 {
        Seq::empty()
    } else if names.len() == 1 {
        "\""@ + names[0] + "\""@
    } else {
        quoted_list(names.drop_last()) + ", \""@ + names.last() + "\""@
    }
}

/// The human-readable message of each failure kind: the offending token for
/// an unknown command, every candidate name for an ambiguous one, the correct
/// usage line for a wrong argument count, and the offending value for a
/// malformed one.
pub open spec fn error_message(e: CmdErrorView) -> Seq<char> {
    match e {
        CmdErrorView::MissingCommand => "Missing command argument"@,
        CmdErrorView::NoMatch(t) => "No command matching '"@ + t + "'"@,
        CmdErrorView::Ambiguous(names) => "Ambiguous command, multiple matches: ["@ + quoted_list(
            names,
        ) + "]"@,
        CmdErrorView::Usage(u) => u,
        CmdErrorView::BadChannel(s) => "Cannot resolve channel '"@ + s + "'"@,
        CmdErrorView::InvalidValue(v) => "Invalid state value '"@ + v + "'"@,
    }
}

impl CmdError {
    /// Renders this failure as the message described by [`error_message`].
    pub fn message(&self) -> (m: String)
        ensures
            m@ == error_message(self.deep_view()),
    {
        match self {
            CmdError::MissingCommand => String::from_str("Missing command argument"),
            CmdError::NoMatch(t) => {
                let mut m = String::from_str("No command matching '");
                m.append(t.as_str());
                m.append("'");
                proof {
                    assert(m@ =~= error_message(self.deep_view()));
                }
                m
            },
            CmdError::Ambiguous(names) => {
                let mut m = String::from_str("Ambiguous command, multiple matches: [");
                let ghost gnames = names.deep_view();
                let mut j: usize = 0;
                while j < names.len()
                    invariant
                        j <= names.len(),
                        gnames == names.deep_view(),
                        gnames.len() == names@.len(),
                        m@ == "Ambiguous command, multiple matches: ["@ + quoted_list(
                            gnames.take(j as int),
                        ),
                    decreases names.len() - j,
                {
                    let ghost pre = gnames.take(j as int);
                    let ghost ext = gnames.take(j + 1);
                    proof {
                        assert(ext.drop_last() =~= pre);
                        assert(ext.last() == gnames[j as int]);
                        assert(gnames[j as int] == names@[j as int]@);
                    }
                    if j == 0 {
                        m.append("\"");
                    } else {
                        m.append(", \"");
                    }
                    m.append(names[j].as_str());
                    m.append("\"");
                    proof {
                        if j == 0 {
                            assert(quoted_list(ext) =~= "\""@ + ext[0] + "\""@);
                        }
                        assert(m@ =~= "Ambiguous command, multiple matches: ["@ + quoted_list(
                            ext,
                        ));
                    }
                    j = j + 1;
                }
                m.append("]");
                proof {
                    assert(gnames.take(names@.len() as int) =~= gnames);
                    assert(m@ =~= error_message(self.deep_view()));
                }
                m
            },
            CmdError::Usage(u) => u.clone(),
            CmdError::BadChannel(s) => {
                let mut m = String::from_str("Cannot resolve channel '");
                m.append(s.as_str());
                m.append("'");
                proof {
                    assert(m@ =~= error_message(self.deep_view()));
                }
                m
            },
            CmdError::InvalidValue(v) => {
                let mut m = String::from_str("Invalid state value '");
                m.append(v.as_str());
                m.append("'");
                proof {
                    assert(m@ =~= error_message(self.deep_view()));
                }
                m
            },
        }
    }
}

/// Law: requesting a registered command by its exact full name dispatches
/// that handler, provided no other handler's name extends or equals that
/// name and the name is not the reserved token `help`. (With a second
/// handler whose name the token also prefixes — such as names `read` and
/// `read_now` with the token `read` — resolution is ambiguous instead, by
/// design.)
pub proof fn lemma_exact_name_dispatches(c: CommandsView, args: Seq<Seq<char>>, k: int)
    requires
        args.len() > 0,
        args[0] != "help"@,
        0 <= k < c.handlers.len(),
        args[0] == c.handlers[k].cmd,
        forall|j: int|
            0 <= j < c.handlers.len() && j != k ==> !cmd_matches(
                #[trigger] c.handlers[j].cmd,
                args[0],
            ),
    ensures
        run_resolution(c, args) == Ok::<ResolutionView, CmdErrorView>(ResolutionView::Invoke(k)),
{
    assert(args[0].is_prefix_of(c.handlers[k].cmd)) by {
        assert(args[0] =~= c.handlers[k].cmd.subrange(0, args[0].len() as int));
    }
    lemma_unique_prefix_dispatches(c, args, k);
}

/// Law: a token that matches exactly one registered command name — in
/// particular a strict prefix of exactly one name that prefixes no other —
/// dispatches that command.
pub proof fn lemma_unique_prefix_dispatches(c: CommandsView, args: Seq<Seq<char>>, k: int)
    requires
        args.len() > 0,
        args[0] != "help"@,
        0 <= k < c.handlers.len(),
        cmd_matches(c.handlers[k].cmd, args[0]),
        forall|j: int|
            0 <= j < c.handlers.len() && j != k ==> !cmd_matches(
                #[trigger] c.handlers[j].cmd,
                args[0],
            ),
    ensures
        run_resolution(c, args) == Ok::<ResolutionView, CmdErrorView>(ResolutionView::Invoke(k)),
{
    let names = handler_names(c);
    assert(forall|j: int| 0 <= j < names.len() ==> #[trigger] names[j] == c.handlers[j].cmd);
    lemma_unique_match(names, args[0], k);
}

/// Law: a token that matches two or more registered command names fails with
/// an ambiguity report that lists exactly the matching names, in registration
/// order, and no others.
pub proof fn lemma_ambiguous_lists_matches(c: CommandsView, args: Seq<Seq<char>>, i: int, j: int)
    requires
        args.len() > 0,
        args[0] != "help"@,
        0 <= i < j < c.handlers.len(),
        cmd_matches(c.handlers[i].cmd, args[0]),
        cmd_matches(c.handlers[j].cmd, args[0]),
    ensures
        ({
            let names = handler_names(c);
            let listed = match_indices(names, args[0]).map_values(|k: int| names[k]);
            &&& run_resolution(c, args) == Err::<ResolutionView, CmdErrorView>(
                CmdErrorView::Ambiguous(listed),
            )
            &&& forall|k: int| 0 <= k < listed.len() ==> cmd_matches(#[trigger] listed[k], args[0])
            &&& forall|m: int|
                0 <= m < c.handlers.len() && cmd_matches(#[trigger] c.handlers[m].cmd, args[0])
                    ==> listed.contains(c.handlers[m].cmd)
        }),
{
    let names = handler_names(c);
    let token = args[0];
    assert(forall|m: int| 0 <= m < names.len() ==> #[trigger] names[m] == c.handlers[m].cmd);
    lemma_two_matches(names, token, i, j);
    lemma_match_indices(names, token);
    let mi = match_indices(names, token);
    let listed = mi.map_values(|k: int| names[k]);
    assert forall|m: int|
        0 <= m < c.handlers.len() && cmd_matches(
            #[trigger] c.handlers[m].cmd,
            token,
        ) implies listed.contains(c.handlers[m].cmd) by {
        assert(names[m] == c.handlers[m].cmd);
        assert(cmd_matches(names[m], token));
        assert(mi.contains(m));
        let k = choose|k: int| 0 <= k < mi.len() && mi[k] == m;
        assert(listed[k] == names[m]);
    }
}

/// Law: the token `help` always succeeds and lists every registered handler
/// exactly once, in registration order, under the module heading — whatever
/// the remaining arguments are.
pub proof fn lemma_help_lists_all_handlers(c: CommandsView, args: Seq<Seq<char>>)
    requires
        args.len() > 0,
        args[0] == "help"@,
    ensures
        run_resolution(c, args) == Ok::<ResolutionView, CmdErrorView>(
            ResolutionView::Help(help_lines(c)),
        ),
        help_lines(c).len() == c.handlers.len() + 1,
        help_lines(c)[0] == help_header(c.mod_name),
        forall|i: int|
            0 <= i < c.handlers.len() ==> help_lines(c)[i + 1] == help_line(
                #[trigger] c.handlers[i],
            ),
{
}

/// Law: help is idempotent — any two invocations whose first token is `help`
/// against the same registry resolve to the same help listing, regardless of
/// the other arguments.
pub proof fn lemma_help_idempotent(c: CommandsView, args1: Seq<Seq<char>>, args2: Seq<Seq<char>>)
    requires
        args1.len() > 0,
        args1[0] == "help"@,
        args2.len() > 0,
        args2[0] == "help"@,
    ensures
        run_resolution(c, args1) == run_resolution(c, args2),
{
}

} // verus!
