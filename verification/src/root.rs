//! The top of the `fluvio` command line: which handler a parsed command goes
//! to, and with what.
//!
//! A command is either one of the compiled-in ones or an external one. The
//! handlers of the compiled-in commands are not part of this crate: routing
//! names the handler and says what it is given. An external command goes to
//! a plugin.

use crate::dispatch::dispatch_external;
use crate::dispatch::plugin_name_of;
use crate::dispatch::searched;
use crate::dispatch::Dispatch;
use crate::dispatch::PLUGIN_PREFIX;
use crate::plugin::find_plugin;
use crate::plugin::SearchPath;
use crate::text::strip_prefix;
use std::path::PathBuf;
use vstd::prelude::*;

verus! {

/// The options that all commands share: the cluster that is talked to.
#[derive(Debug)]
pub struct RootOpt<T> {
    pub target: T,
}

/// The options of `completions`.
#[derive(Debug)]
pub struct CompletionOpt {
    /// The name of the program that the completions are for.
    pub name: String,
}

/// The `completions` command: one variant for each shell.
#[derive(Debug)]
pub enum CompletionCmd {
    /// Completions for bash.
    Bash(CompletionOpt),
    /// Completions for zsh.
    Zsh(CompletionOpt),
    /// Completions for fish.
    Fish(CompletionOpt),
}

/// A shell that completions can be generated for.
#[derive(Clone, Copy, Debug, PartialEq, Eq, Structural)]
pub enum Shell {
    Bash,
    Zsh,
    Fish,
}

/// The completions to generate: for which shell, and for a program of which
/// name.
#[derive(Debug)]
pub struct Completion {
    pub shell: Shell,
    pub name: String,
}

impl CompletionCmd {
    /// The completions that the command asks for.
    pub open spec fn completion(self) -> Completion {
        match self {
            CompletionCmd::Bash(opt) => Completion { shell: Shell::Bash, name: opt.name },
            CompletionCmd::Zsh(opt) => Completion { shell: Shell::Zsh, name: opt.name },
            CompletionCmd::Fish(opt) => Completion { shell: Shell::Fish, name: opt.name },
        }
    }

    /// Says which completions to generate: for the shell of the variant and
    /// the program name of its options.
    pub fn process(self) -> (completion: Completion)
        ensures
            completion == self.completion(),
    {
        match self {
            CompletionCmd::Bash(opt) => Completion { shell: Shell::Bash, name: opt.name },
            CompletionCmd::Zsh(opt) => Completion { shell: Shell::Zsh, name: opt.name },
            CompletionCmd::Fish(opt) => Completion { shell: Shell::Fish, name: opt.name },
        }
    }
}

/// A parsed command. Exactly one variant holds for an invocation.
#[derive(Debug)]
pub enum RootCmd {
    /// One of the commands that need a client: produce, consume and the
    /// like.
    Fluvio,
    /// Manage profiles.
    Profile,
    /// Install or uninstall a cluster.
    Cluster,
    /// Print version information.
    Version,
    /// Generate completions for a shell.
    Completions(CompletionCmd),
    /// Generate the metadata of the base command line.
    Metadata,
    /// A command that is not compiled in: its name, then its arguments.
    External(Vec<String>),
}

/// A compiled-in command that has a handler outside this crate.
#[derive(Clone, Copy, Debug, PartialEq, Eq, Structural)]
pub enum Handler {
    Fluvio,
    Profile,
    Cluster,
    Version,
    Metadata,
}

/// The call of a handler: which one, and what it is given.
#[derive(Debug)]
pub struct HandlerCall<T> {
    /// The handler to call.
    pub handler: Handler,
    /// Whether the handler is given the shared output terminal.
    pub output: bool,
    /// The cluster to talk to, where the handler is given one.
    pub target: Option<T>,
    /// Whether the handler is given the version of this program. Before
    /// such a handler runs, the release channel is announced where one is
    /// set.
    pub version: bool,
}

/// Where a command goes.
#[derive(Debug)]
pub enum Routed<T> {
    /// To the handler of a compiled-in command.
    Handler(HandlerCall<T>),
    /// To the generator of completions.
    Completions(Completion),
    /// To a plugin, or to the end where there is none.
    Plugin(Dispatch),
}

impl Handler {
    /// The call of the handler, with `target` as the cluster to talk to.
    /// Commands that need a client get the output and the target; profiles
    /// get the output only; the cluster command gets output, target and
    /// version; the version command gets the target; metadata gets nothing.
    pub open spec fn call<T>(self, target: T) -> HandlerCall<T> {
        match self {
            Handler::Fluvio => HandlerCall { handler: self, output: true, target: Some(target), version: false },
            Handler::Profile => HandlerCall { handler: self, output: true, target: None, version: false },
            Handler::Cluster => HandlerCall { handler: self, output: true, target: Some(target), version: true },
            Handler::Version => HandlerCall { handler: self, output: false, target: Some(target), version: false },
            Handler::Metadata => HandlerCall { handler: self, output: false, target: None, version: false },
        }
    }
}

impl RootCmd {
    /// The handler of a compiled-in command, where the command has one.
    pub open spec fn handler(self) -> Option<Handler> {
        match self {
            RootCmd::Fluvio => Some(Handler::Fluvio),
            RootCmd::Profile => Some(Handler::Profile),
            RootCmd::Cluster => Some(Handler::Cluster),
            RootCmd::Version => Some(Handler::Version),
            RootCmd::Metadata => Some(Handler::Metadata),
            RootCmd::Completions(_) => None,
            RootCmd::External(_) => None,
        }
    }

    /// Whether the command can be routed: an external command has to name
    /// itself.
    pub open spec fn wf(self) -> bool {
        self matches RootCmd::External(args) ==> args.len() > 0
    }

    /// Whether `routed` is where the command goes. A compiled-in command
    /// goes to its handler, with what `Handler::call` lists, or to the
    /// generator of completions. An external command goes to the plugin
    /// whose file name is the prefix followed by the command's name, and the
    /// arguments after the name are handed on.
    pub open spec fn routes<T>(self, root: RootOpt<T>, routed: Routed<T>) -> bool {
        match self {
            RootCmd::Completions(completion) => routed matches Routed::Completions(c) && c
                == completion.completion(),
            RootCmd::External(args) => routed matches Routed::Plugin(dispatch) && {
                &&& dispatch.plugin()@ == plugin_name_of(args[0]@)
                &&& dispatch matches Dispatch::Launch { args: rest, .. } ==> rest@ == args@.skip(1)
            },
            _ => routed matches Routed::Handler(call) && call == self.handler().unwrap().call(
                root.target,
            ),
        }
    }

    /// Whether `routed` is where the command goes, with `lookup` as the
    /// search for plugins: besides what `routes` says, the decision on an
    /// external command is the answer of `lookup` to the plugin's file name.
    pub open spec fn routes_by<T, F: FnOnce(String) -> Option<PathBuf>>(
        self,
        root: RootOpt<T>,
        lookup: F,
        routed: Routed<T>,
    ) -> bool {
        &&& self.routes(root, routed)
        &&& routed matches Routed::Plugin(dispatch) ==> call_ensures(
            lookup,
            (dispatch.plugin(),),
            dispatch.program(),
        )
    }

    /// Routes the command, asking `lookup` for the plugin of an external
    /// command. `lookup` is asked once, for the prefix followed by the
    /// command's name, and for nothing where the command is compiled in.
    pub fn process_with<T, F: FnOnce(String) -> Option<PathBuf>>(
        self,
        root: RootOpt<T>,
        lookup: F,
    ) -> (routed: Routed<T>)
        requires
            self.wf(),
            self matches RootCmd::External(args) ==> forall|name: String|
                name@ == plugin_name_of(args[0]@) ==> call_requires(lookup, (name,)),
        ensures
            self.routes_by(root, lookup, routed),
    {
        match self {
            RootCmd::Fluvio => Routed::Handler(
                HandlerCall {
                    handler: Handler::Fluvio,
                    output: true,
                    target: Some(root.target),
                    version: false,
                },
            ),
            RootCmd::Profile => Routed::Handler(
                HandlerCall { handler: Handler::Profile, output: true, target: None, version: false },
            ),
            RootCmd::Cluster => Routed::Handler(
                HandlerCall {
                    handler: Handler::Cluster,
                    output: true,
                    target: Some(root.target),
                    version: true,
                },
            ),
            RootCmd::Version => Routed::Handler(
                HandlerCall {
                    handler: Handler::Version,
                    output: false,
                    target: Some(root.target),
                    version: false,
                },
            ),
            RootCmd::Completions(completion) => Routed::Completions(completion.process()),
            RootCmd::Metadata => Routed::Handler(
                HandlerCall { handler: Handler::Metadata, output: false, target: None, version: false },
            ),
            RootCmd::External(args) => Routed::Plugin(dispatch_external(args, lookup)),
        }
    }

    /// Whether `routed` is where the command goes, with `find_plugin` along
    /// `search` as the search for plugins: besides what `routes` says, the
    /// decision on an external command is the answer of `find_plugin` to the
    /// plugin's file name.
    pub open spec fn routes_along<T>(self, root: RootOpt<T>, search: &SearchPath, routed: Routed<T>) -> bool {
        &&& self.routes(root, routed)
        &&& routed matches Routed::Plugin(dispatch) ==> searched(
            dispatch.plugin()@,
            search,
            dispatch.program(),
        )
    }

    /// Routes the command. The plugin of an external command is looked for
    /// along `search`.
    pub fn process<T>(self, root: RootOpt<T>, search: &SearchPath) -> (routed: Routed<T>)
        requires
            self.wf(),
        ensures
            self.routes_along(root, search, routed),
    {
        let lookup = |name: String| -> (answer: Option<PathBuf>)
            ensures
                searched(name@, search, answer),
            {
                let file_name = name.as_str();
                let answer = find_plugin(file_name, search);
                assert(call_ensures(find_plugin, (file_name, search), answer));
                answer
            };
        self.process_with(root, lookup)
    }
}

/// What is said of the release channel before the cluster command runs.
pub open spec fn channel_text(channel: Seq<char>) -> Seq<char> {
    "Current channel: "@ + channel
}

/// The line that announces the release channel `channel`.
pub fn channel_notice(channel: &str) -> (notice: String)
    ensures
        notice@ == channel_text(channel@),
{
    let mut notice = String::from_str("Current channel: ");
    notice.append(channel);
    notice
}

/// An external command as its metadata describes it.
#[derive(Debug)]
pub struct ExternalCommand {
    /// The file name of the plugin, where its path has one.
    pub file_name: Option<String>,
    /// The title that the plugin gives itself.
    pub title: String,
    /// What the plugin says it does.
    pub description: String,
}

/// A line of the help text: a command and what it does.
#[derive(Debug)]
pub struct HelpEntry {
    pub name: String,
    pub about: String,
}

impl ExternalCommand {
    /// Whether the command can be listed: the file name of a plugin begins
    /// with the prefix.
    pub open spec fn wf(self) -> bool {
        self.file_name matches Some(file_name) ==> PLUGIN_PREFIX@.is_prefix_of(file_name@)
    }

    /// The name under which the command is listed: the file name without the
    /// prefix, or the title where there is no file name.
    pub open spec fn listed_name(self) -> Seq<char> {
        match self.file_name {
            Some(file_name) => file_name@.skip(PLUGIN_PREFIX@.len() as int),
            None => self.title@,
        }
    }

    /// The line of the help text that lists the command.
    pub fn help_entry(&self) -> (entry: HelpEntry)
        requires
            self.wf(),
        ensures
            entry.name@ == self.listed_name(),
            entry.about@ == self.description@,
    {
        let name = match &self.file_name {
            Some(file_name) => {
                let rest = strip_prefix(file_name.as_str(), PLUGIN_PREFIX);
                let name = rest.unwrap();
                assert(name@ =~= file_name@.skip(PLUGIN_PREFIX@.len() as int));
                name
            },
            None => self.title.clone(),
        };
        HelpEntry { name, about: self.description.clone() }
    }
}

/// The `help` command.
#[derive(Debug)]
pub struct HelpOpt {}

impl HelpOpt {
    /// The lines that the help text has for the external commands, one for
    /// each and in their order.
    pub fn process(self, external_commands: Vec<ExternalCommand>) -> (entries: Vec<HelpEntry>)
        requires
            forall|i: int| 0 <= i < external_commands.len() ==> #[trigger] external_commands[i].wf(),
        ensures
            entries.len() == external_commands.len(),
            forall|i: int|
                0 <= i < entries.len() ==> {
                    &&& (#[trigger] entries[i]).name@ == external_commands[i].listed_name()
                    &&& entries[i].about@ == external_commands[i].description@
                },
    {
        let mut entries: Vec<HelpEntry> = Vec::new();
        let mut i: usize = 0;
        while i < external_commands.len()
            invariant
                i <= external_commands.len(),
                entries.len() == i,
                forall|j: int| 0 <= j < external_commands.len() ==> #[trigger] external_commands[j].wf(),
                forall|j: int|
                    0 <= j < i ==> {
                        &&& (#[trigger] entries[j]).name@ == external_commands[j].listed_name()
                        &&& entries[j].about@ == external_commands[j].description@
                    },
            decreases external_commands.len() - i,
        {
            entries.push(external_commands[i].help_entry());
            i += 1;
        }
        entries
    }
}

/// The `fluvio` command line, parsed.
#[derive(Debug)]
pub struct Root<T> {
    pub opts: RootOpt<T>,
    pub command: RootCmd,
}

impl<T> Root<T> {
    /// Routes the command of the invocation.
    pub fn process(self, search: &SearchPath) -> (routed: Routed<T>)
        requires
            self.command.wf(),
        ensures
            self.command.routes_along(self.opts, search, routed),
    {
        self.command.process(self.opts, search)
    }
}

} // verus!
