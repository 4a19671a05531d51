//! Command-line surface of the agent: which command runs and whether a new
//! server URL was given.
use vstd::prelude::*;
use crate::text::{same_text, to_owned_text};

verus! {

/// What the agent is asked to do.
#[derive(Debug, Clone, Copy, PartialEq, Eq, Structural)]
pub enum CliCommand {
    /// Run in the foreground.
    Run,
    /// Print the resolved configuration and enrollment state.
    Status,
    /// Wipe the credential.
    Reset,
    /// Service-manager glue, handled by the platform.
    Install,
    Uninstall,
    Start,
    Stop,
}

/// A command line that cannot be understood.
#[derive(Debug, Clone, Copy, PartialEq, Eq, Structural)]
pub enum ArgError {
    /// `--url` ends the command line.
    MissingUrl,
    /// The argument at this position is not known.
    Unknown(usize),
}

/// A parsed command line.
#[derive(Debug)]
pub struct Invocation {
    pub command: CliCommand,
    pub url: Option<String>,
}

/// The command a word names.
pub open spec fn command_word(w: Seq<char>) -> Option<CliCommand> {
    if w == "run"@ {
        Some(CliCommand::Run)
    } else if w == "status"@ {
        Some(CliCommand::Status)
    } else if w == "--reset"@ {
        Some(CliCommand::Reset)
    } else if w == "install"@ {
        Some(CliCommand::Install)
    } else if w == "uninstall"@ {
        Some(CliCommand::Uninstall)
    } else if w == "start"@ {
        Some(CliCommand::Start)
    } else if w == "stop"@ {
        Some(CliCommand::Stop)
    } else {
        None
    }
}

/// Reads the arguments from position `i` on, with the command and URL seen
/// so far; a later command word replaces an earlier one, as does a later URL.
pub open spec fn parse_from(args: Seq<Seq<char>>, i: int, cmd: CliCommand, url: Option<Seq<char>>) -> Result<(CliCommand, Option<Seq<char>>), ArgError>
    decreases args.len() - i,
{
    if i < 0 || i >= args.len() {
        Ok((cmd, url))
    } else if args[i] == "--url"@ {
        if i + 1 < args.len() {
            parse_from(args, i + 2, cmd, Some(args[i + 1]))
        } else {
            Err(ArgError::MissingUrl)
        }
    } else {
        match command_word(args[i]) {
            Some(c) => parse_from(args, i + 1, c, url),
            None => Err(ArgError::Unknown(i as usize)),
        }
    }
}

/// The views of the arguments.
pub open spec fn arg_views(args: Seq<String>) -> Seq<Seq<char>> {
    Seq::new(args.len(), |i: int| args[i]@)
}

fn command_of(w: &str) -> (r: Option<CliCommand>)
    ensures
        r == command_word(w@),
{
    if same_text(w, "run") {
        Some(CliCommand::Run)
    } else if same_text(w, "status") {
        Some(CliCommand::Status)
    } else if same_text(w, "--reset") {
        Some(CliCommand::Reset)
    } else if same_text(w, "install") {
        Some(CliCommand::Install)
    } else if same_text(w, "uninstall") {
        Some(CliCommand::Uninstall)
    } else if same_text(w, "start") {
        Some(CliCommand::Start)
    } else if same_text(w, "stop") {
        Some(CliCommand::Stop)
    } else {
        None
    }
}

/// Parses the arguments after the program name. Without a command word the
/// agent runs.
pub fn parse_args(args: &Vec<String>) -> (r: Result<Invocation, ArgError>)
    ensures
        match parse_from(arg_views(args@), 0, CliCommand::Run, None) {
            Ok((cmd, url)) => r matches Ok(inv) && inv.command == cmd && match url {
                Some(u) => inv.url matches Some(s) && s@ == u,
                None => inv.url is None,
            },
            Err(e) => r == Err::<Invocation, ArgError>(e),
        },
{
    let ghost views = arg_views(args@);
    let mut i: usize = 0;
    let mut cmd = CliCommand::Run;
    let mut url: Option<String> = None;
    while i < args.len()
        invariant
            views == arg_views(args@),
            i <= args@.len(),
            parse_from(views, 0, CliCommand::Run, None) == parse_from(
                views,
                i as int,
                cmd,
                match url { Some(s) => Some(s@), None => None },
            ),
        decreases args@.len() - i,
    {
        let a = args[i].as_str();
        if same_text(a, "--url") {
            if i + 1 < args.len() {
                url = Some(to_owned_text(args[i + 1].as_str()));
                i = i + 2;
            } else {
                return Err(ArgError::MissingUrl);
            }
        } else {
            match command_of(a) {
                Some(c) => {
                    cmd = c;
                    i = i + 1;
                },
                None => return Err(ArgError::Unknown(i)),
            }
        }
    }
    Ok(Invocation { command: cmd, url })
}

} // verus!
