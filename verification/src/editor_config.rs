//! The launcher settings of the editor and the command line they stand for.

use crate::launcher::{replace_all, replaced};
use crate::text::{join, str_join, views};
use vstd::prelude::*;

verus! {

/// The program that hosts the editor.
#[derive(Debug, Clone, Copy, PartialEq, Eq, Structural)]
pub enum LauncherType {
    Neovide,
    Terminal,
}

/// The kind of socket that a running editor listens on.
#[derive(Debug, Clone, Copy, PartialEq, Eq, Structural)]
pub enum SocketType {
    Fsock,
    Netsock,
}

/// How a terminal that is not known by name is started.
#[derive(Debug)]
pub struct TerminalLauncherSettings {
    pub class_argument: Option<String>,
    pub run_argument: Option<String>,
}

/// How the editor is launched from the game editor.
#[derive(Debug)]
pub struct LauncherSettings {
    pub launcher_type: LauncherType,
    pub executable: Option<String>,
    pub socket_type: Option<SocketType>,
    pub extra_arguments: Option<Vec<String>>,
    pub terminal: Option<TerminalLauncherSettings>,
    pub debug: Option<bool>,
}

/// The name of a launcher type on the command line.
pub open spec fn launcher_name(launcher_type: LauncherType) -> Seq<char> {
    match launcher_type {
        LauncherType::Neovide => "neovide"@,
        LauncherType::Terminal => "terminal"@,
    }
}

/// The name of a socket type on the command line.
pub open spec fn socket_name(socket_type: SocketType) -> Seq<char> {
    match socket_type {
        SocketType::Fsock => "fsock"@,
        SocketType::Netsock => "netsock"@,
    }
}

/// An option and its value where the value is given, nothing where it is not.
pub open spec fn option_args(flag: Seq<char>, value: Option<String>) -> Seq<Seq<char>> {
    match value {
        Some(v) => seq![flag, v@],
        None => Seq::empty(),
    }
}

/// The extra arguments behind their option, where there is a list of them.
pub open spec fn extra_args(extra: Option<Vec<String>>) -> Seq<Seq<char>> {
    match extra {
        Some(list) => seq!["--extra-arguments"@] + views(list@),
        None => Seq::empty(),
    }
}

/// The options that tell how a terminal is started.
pub open spec fn terminal_args(terminal: Option<TerminalLauncherSettings>) -> Seq<Seq<char>> {
    match terminal {
        Some(t) => option_args("--terminal-class-argument"@, t.class_argument) + option_args(
            "--terminal-run-argument"@,
            t.run_argument,
        ),
        None => Seq::empty(),
    }
}

/// The command line that hands `settings` to the bridge: the launcher type, then the
/// socket type, the executable, the extra arguments and the terminal's arguments, each
/// where it is set.
pub open spec fn cli_args(settings: LauncherSettings) -> Seq<Seq<char>> {
    seq!["--launcher-type"@, launcher_name(settings.launcher_type)] + match settings.socket_type {
        Some(s) => seq!["--socket-type"@, socket_name(s)],
        None => Seq::empty(),
    } + option_args("--executable"@, settings.executable) + extra_args(settings.extra_arguments)
        + terminal_args(settings.terminal)
}

fn push_arg(args: &mut Vec<String>, arg: &str)
    ensures
        views(final(args)@) == views(old(args)@).push(arg@),
{
    let item: String = arg.to_owned();
    args.push(item);
    assert(views(args@) =~= views(old(args)@).push(arg@));
}

fn push_option(args: &mut Vec<String>, flag: &str, value: &Option<String>)
    ensures
        views(final(args)@) == views(old(args)@) + option_args(flag@, *value),
{
    match value {
        Some(v) => {
            push_arg(args, flag);
            push_arg(args, v.as_str());
            assert(views(args@) =~= views(old(args)@) + seq![flag@, v@]);
        },
        None => {
            assert(views(args@) =~= views(old(args)@) + Seq::<Seq<char>>::empty());
        },
    }
}

impl LauncherSettings {
    /// The arguments that hand these settings to the bridge.
    #[must_use]
    pub fn bridge_cli_args(&self) -> (args: Vec<String>)
        ensures
            views(args@) == cli_args(*self),
    {
        let mut args: Vec<String> = Vec::new();
        assert(views(args@) =~= Seq::<Seq<char>>::empty());
        push_arg(&mut args, "--launcher-type");
        match self.launcher_type {
            LauncherType::Neovide => push_arg(&mut args, "neovide"),
            LauncherType::Terminal => push_arg(&mut args, "terminal"),
        }
        let ghost first = seq!["--launcher-type"@, launcher_name(self.launcher_type)];
        assert(views(args@) =~= first);
        let ghost socket = match self.socket_type {
            Some(s) => seq!["--socket-type"@, socket_name(s)],
            None => Seq::empty(),
        };
        match &self.socket_type {
            Some(socket_type) => {
                push_arg(&mut args, "--socket-type");
                match socket_type {
                    SocketType::Fsock => push_arg(&mut args, "fsock"),
                    SocketType::Netsock => push_arg(&mut args, "netsock"),
                }
            },
            None => {},
        }
        assert(views(args@) =~= first + socket);
        push_option(&mut args, "--executable", &self.executable);
        let ghost third = first + socket + option_args("--executable"@, self.executable);
        let ghost extra = extra_args(self.extra_arguments);
        match &self.extra_arguments {
            Some(extra_args) => {
                push_arg(&mut args, "--extra-arguments");
                let mut i: usize = 0;
                while i < extra_args.len()
                    invariant
                        i <= extra_args@.len(),
                        views(args@) == third + seq!["--extra-arguments"@] + views(
                            extra_args@,
                        ).take(i as int),
                    decreases extra_args@.len() - i,
                {
                    push_arg(&mut args, extra_args[i].as_str());
                    assert(views(extra_args@).take(i as int + 1) == views(extra_args@).take(
                        i as int,
                    ).push(extra_args@[i as int]@));
                    i = i + 1;
                }
                assert(views(extra_args@).take(extra_args@.len() as int) == views(extra_args@));
            },
            None => {},
        }
        assert(views(args@) =~= third + extra);
        let ghost fourth = third + extra;
        match &self.terminal {
            Some(terminal) => {
                push_option(&mut args, "--terminal-class-argument", &terminal.class_argument);
                push_option(&mut args, "--terminal-run-argument", &terminal.run_argument);
                assert(views(args@) =~= fourth + terminal_args(self.terminal));
            },
            None => {
                assert(views(args@) =~= fourth + terminal_args(self.terminal));
            },
        }
        args
    }
}

/// The flag that a runner script hands on where debugging is switched on.
pub open spec fn debug_flag(debug: Option<bool>) -> Seq<char> {
    if debug == Some(true) {
        "--debug"@
    } else {
        ""@
    }
}

/// The runner script that `template` gives for these settings: the path of the bridge
/// in the place of `{BRIDGE_PATH}`, then the arguments of the settings, with a space
/// between each two, in the place of `{LAUNCH_ARGS}`, then the debug flag in the place
/// of `{DEBUG_FLAG}`.
pub open spec fn runner_script_text(
    template: Seq<char>,
    bridge_path: Seq<char>,
    settings: LauncherSettings,
) -> Seq<char> {
    replaced(
        replaced(
            replaced(template, "{BRIDGE_PATH}"@, bridge_path),
            "{LAUNCH_ARGS}"@,
            join(cli_args(settings), " "@),
        ),
        "{DEBUG_FLAG}"@,
        debug_flag(settings.debug),
    )
}

/// Fills the placeholders of a runner script.
pub fn runner_script(template: &str, bridge_path: &str, settings: &LauncherSettings) -> (r: String)
    ensures
        r@ == runner_script_text(template@, bridge_path@, *settings),
{
    let args: Vec<String> = settings.bridge_cli_args();
    let launch_args: String = str_join(&args, " ");
    let with_path: String = replace_all(template, "{BRIDGE_PATH}", bridge_path);
    let with_args: String = replace_all(with_path.as_str(), "{LAUNCH_ARGS}", launch_args.as_str());
    let debug: bool = match settings.debug {
        Some(d) => d,
        None => false,
    };
    if debug {
        replace_all(with_args.as_str(), "{DEBUG_FLAG}", "--debug")
    } else {
        replace_all(with_args.as_str(), "{DEBUG_FLAG}", "")
    }
}

} // verus!
