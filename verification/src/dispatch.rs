//! Handing a command that is not compiled in to an external plugin, and
//! turning the way the plugin ended into the way this program ends.

use crate::plugin::find_plugin;
use crate::plugin::SearchPath;
use crate::text::decimal;
use crate::text::decimal_text;
use crate::text::join;
use crate::text::joined;
use crate::text::opt_text;
use crate::text::texts;
use std::path::PathBuf;
use vstd::prelude::*;

verus! {

/// What every plugin's file name begins with.
pub const PLUGIN_PREFIX: &'static str = "fluvio-";

/// The exit status of a command whose plugin was not found.
pub const PLUGIN_NOT_FOUND: i32 = 1;

/// The file name of the plugin that serves `command`.
pub open spec fn plugin_name_of(command: Seq<char>) -> Seq<char> {
    PLUGIN_PREFIX@ + command
}

/// The file name of the plugin that serves `command`: the prefix, then the
/// command as it was typed.
pub fn plugin_name(command: &str) -> (name: String)
    ensures
        name@ == plugin_name_of(command@),
{
    let mut name = String::from_str(PLUGIN_PREFIX);
    name.append(command);
    name
}

/// What is to be done with an external command.
#[derive(Debug)]
pub enum Dispatch {
    /// Run `program` with `args` and wait for it.
    Launch {
        /// The file name that was looked for.
        plugin: String,
        /// The executable that was found.
        program: PathBuf,
        /// The arguments to hand on: all but the command itself.
        args: Vec<String>,
    },
    /// No stage of the search has the plugin.
    NotFound {
        /// The file name that was looked for.
        plugin: String,
    },
}

impl Dispatch {
    /// The file name that was looked for.
    pub open spec fn plugin(self) -> String {
        match self {
            Dispatch::Launch { plugin, .. } => plugin,
            Dispatch::NotFound { plugin } => plugin,
        }
    }

    /// The executable to run, if one was found.
    pub open spec fn program(self) -> Option<PathBuf> {
        match self {
            Dispatch::Launch { program, .. } => Some(program),
            Dispatch::NotFound { .. } => None,
        }
    }
}

/// Takes the first of `args` as the command, asks `lookup` once for the
/// plugin of that command, and hands the other arguments on to what was
/// found.
///
/// The name that `lookup` is asked for is the prefix followed by the command,
/// and the decision is the answer to that one question.
pub fn dispatch_external<F: FnOnce(String) -> Option<PathBuf>>(
    args: Vec<String>,
    lookup: F,
) -> (dispatch: Dispatch)
    requires
        args.len() > 0,
        forall|name: String| name@ == plugin_name_of(args[0]@) ==> call_requires(lookup, (name,)),
    ensures
        dispatch.plugin()@ == plugin_name_of(args[0]@),
        call_ensures(lookup, (dispatch.plugin(),), dispatch.program()),
        dispatch matches Dispatch::Launch { args: rest, .. } ==> rest@ == args@.skip(1),
{
    let mut args = args;
    let ghost given = args@;
    let command = args.remove(0);
    assert(args@ =~= given.skip(1));
    let plugin = plugin_name(command.as_str());
    match lookup(plugin.clone()) {
        Some(program) => Dispatch::Launch { plugin, program, args },
        None => Dispatch::NotFound { plugin },
    }
}

/// Whether `program` is what `find_plugin` answered when it was asked for the
/// file name `plugin` along `search`.
pub open spec fn searched(plugin: Seq<char>, search: &SearchPath, program: Option<PathBuf>) -> bool {
    exists|name: &str| name@ == plugin && #[trigger] call_ensures(find_plugin, (name, search), program)
}

/// Decides what to do with an external command: `args` holds the command and
/// then its arguments. The plugin of the command is looked for along
/// `search`: `find_plugin` is asked for the prefix followed by the command,
/// and its answer decides.
pub fn process_external_subcommand(args: Vec<String>, search: &SearchPath) -> (dispatch: Dispatch)
    requires
        args.len() > 0,
    ensures
        dispatch.plugin()@ == plugin_name_of(args[0]@),
        searched(dispatch.plugin()@, search, dispatch.program()),
        dispatch matches Dispatch::Launch { args: rest, .. } ==> rest@ == args@.skip(1),
{
    let lookup = |name: String| -> (answer: Option<PathBuf>)
        ensures
            searched(name@, search, answer),
        {
            let file_name = name.as_str();
            let answer = find_plugin(file_name, search);
            assert(call_ensures(find_plugin, (file_name, search), answer));
            answer
        };
    dispatch_external(args, lookup)
}

/// What is traced before a plugin is launched: the program as it is shown,
/// then the arguments with a space between each two.
pub open spec fn launch_text(program: Seq<char>, args: Seq<Seq<char>>) -> Seq<char> {
    "Launching external subcommand: "@ + program + " "@ + joined(args, " "@)
}

/// The line that is traced before a plugin is launched. `program` is the
/// path of the executable, written as it is to be shown.
pub fn launch_trace(program: &str, args: &Vec<String>) -> (line: String)
    ensures
        line@ == launch_text(program@, texts(args@)),
{
    let mut line = String::from_str("Launching external subcommand: ");
    line.append(program);
    line.append(" ");
    line.append(join(args, " ").as_str());
    line
}

/// The end of this program: the status it exits with, and a line to print
/// before, if there is one.
#[derive(Debug)]
pub struct Exit {
    /// The exit status.
    pub code: i32,
    /// The line to print on standard output before exiting.
    pub notice: Option<String>,
}

/// What is said when a plugin was not found: where it is expected to be
/// installed if that place is known, else that it has to be on the search
/// path.
pub open spec fn missing_plugin_text(plugin: Seq<char>, install_dir: Option<Seq<char>>) -> Seq<char> {
    match install_dir {
        Some(dir) => "Unable to find plugin '"@ + plugin + "'. Make sure it is installed in "@
            + dir + "."@,
        None => "Unable to find plugin '"@ + plugin + "'. Make sure it is in your PATH."@,
    }
}

/// The end of a command whose plugin was not found. `install_dir` is the
/// extensions directory, written as it is to be shown, where it is known.
pub fn missing_plugin_exit(plugin: &str, install_dir: Option<&str>) -> (exit: Exit)
    ensures
        exit.code == PLUGIN_NOT_FOUND,
        opt_text(exit.notice) == Some(
            missing_plugin_text(
                plugin@,
                match install_dir {
                    Some(dir) => Some(dir@),
                    None => None,
                },
            ),
        ),
{
    let mut notice = String::from_str("Unable to find plugin '");
    notice.append(plugin);
    match install_dir {
        Some(dir) => {
            notice.append("'. Make sure it is installed in ");
            notice.append(dir);
            notice.append(".");
        },
        None => {
            notice.append("'. Make sure it is in your PATH.");
        },
    }
    Exit { code: PLUGIN_NOT_FOUND, notice: Some(notice) }
}

/// What is said when a signal ended the plugin.
pub open spec fn killed_text(signal: int) -> Seq<char> {
    "Extension killed via "@ + decimal(signal) + " signal"@
}

/// How this program ends once the plugin has ended. `code` is the plugin's
/// exit status, if it exited; `signal` is the signal that ended it, where the
/// platform tells.
///
/// A plugin that exited hands its status on. One that a signal ended has the
/// signal's number become the status, with a line that names the signal. With
/// neither there is nothing to end: the caller returns normally.
pub fn plugin_ended(code: Option<i32>, signal: Option<i32>) -> (exit: Option<Exit>)
    ensures
        match (code, signal) {
            (Some(code), _) => exit matches Some(exit) && {
                &&& exit.code == code
                &&& exit.notice is None
            },
            (None, Some(signal)) => exit matches Some(exit) && {
                &&& exit.code == signal
                &&& opt_text(exit.notice) == Some(killed_text(signal as int))
            },
            (None, None) => exit is None,
        },
{
    match code {
        Some(code) => Some(Exit { code, notice: None }),
        None => match signal {
            Some(signal) => {
                let mut notice = String::from_str("Extension killed via ");
                notice.append(decimal_text(signal).as_str());
                notice.append(" signal");
                Some(Exit { code: signal, notice: Some(notice) })
            },
            None => None,
        },
    }
}

} // verus!
