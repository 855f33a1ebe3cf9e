//! The placeholders in an argument list and what takes their place.

use crate::focus::Platform;
use crate::plugin_config::{LauncherType, PluginConfig, SocketType};
use crate::text::{decimal, decimal_string, starts_with, views};
use vstd::prelude::*;

verus! {

/// `text` with `with` behind each of its characters.
pub open spec fn followed_by(text: Seq<char>, with: Seq<char>) -> Seq<char>
    decreases text.len(),
{
    if text.len() == 0 {
        Seq::empty()
    } else {
        seq![text[0]] + with + followed_by(text.skip(1), with)
    }
}

/// `text` with `with` in place of each occurrence of `pattern`, the occurrences taken
/// from the left and not overlapping. The empty pattern occurs before each character
/// and at the end.
pub open spec fn replaced(text: Seq<char>, pattern: Seq<char>, with: Seq<char>) -> Seq<char>
    decreases text.len(),
{
    if pattern.len() == 0 {
        with + followed_by(text, with)
    } else if starts_with(text, pattern) {
        with + replaced(text.skip(pattern.len() as int), pattern, with)
    } else if text.len() == 0 {
        Seq::empty()
    } else {
        seq![text[0]] + replaced(text.skip(1), pattern, with)
    }
}

/// Calls `str::replace`, which replaces all matches of a pattern with another string.
/// The contract states the replacement that std documents for a string pattern: the
/// matches are found from the left, one after the end of the other.
#[verifier::external_body]
pub(crate) fn replace_all(text: &str, pattern: &str, with: &str) -> (r: String)
    ensures
        r@ == replaced(text@, pattern@, with@),
{
    text.replace(pattern, with)
}

/// Each of `args` with `with` in place of the placeholder `var`.
pub open spec fn applied(args: Seq<Seq<char>>, var: Seq<char>, with: Seq<char>) -> Seq<Seq<char>> {
    Seq::new(args.len(), |i: int| replaced(args[i], var, with))
}

/// Puts `replace_with` in the place of every `var` in every argument.
pub fn apply_vars(args: &[String], var: &str, replace_with: &str) -> (r: Vec<String>)
    ensures
        views(r@) == applied(views(args@), var@, replace_with@),
{
    let mut out: Vec<String> = Vec::new();
    let mut i: usize = 0;
    while i < args.len()
        invariant
            i <= args@.len(),
            views(out@) == applied(views(args@), var@, replace_with@).take(i as int),
        decreases args@.len() - i,
    {
        let ghost before = views(out@);
        let ghost all = applied(views(args@), var@, replace_with@);
        let item: String = replace_all(args[i].as_str(), var, replace_with);
        out.push(item);
        assert(views(out@) == before.push(item@));
        assert(all.take(i as int + 1) == all.take(i as int).push(all[i as int]));
        i = i + 1;
    }
    assert(applied(views(args@), var@, replace_with@).take(args@.len() as int) == applied(
        views(args@),
        var@,
        replace_with@,
    ));
    out
}

/// What the editor is asked to open: the file, behind `+` and the line where a line is
/// given.
pub open spec fn remote_target(file: Seq<char>, line: Option<usize>) -> Seq<char> {
    match line {
        Some(n) => "+"@ + decimal(n as nat) + " "@ + file,
        None => file,
    }
}

/// The keys that make a running editor leave its mode and open `file` at `line`.
pub open spec fn remote_keys_text(file: Seq<char>, line: Option<usize>) -> Seq<char> {
    "\"<C-\\\\><C-n>:edit "@ + remote_target(file, line) + "<CR>\""@
}

/// The arguments of a new editor that opens `file` at `line`, the address it listens
/// on still standing as the placeholder `{ADDR}`. Behind Neovide they follow `--`.
pub open spec fn editor_args(file: Seq<char>, line: Option<usize>, neovide: bool) -> Seq<
    Seq<char>,
> {
    let placed = match line {
        Some(n) => applied(
            seq!["--listen"@, "{ADDR}"@, "--remote"@, "{LINE}"@, "{FILE}"@],
            "{LINE}"@,
            "+"@ + decimal(n as nat),
        ),
        None => seq!["--listen"@, "{ADDR}"@, "--remote"@, "{FILE}"@],
    };
    let opened = applied(placed, "{FILE}"@, file);
    if neovide {
        seq!["--"@] + opened
    } else {
        opened
    }
}

/// The keys that make a running editor leave its mode and open `file` at `line`.
pub fn remote_keys(file: &str, line: Option<usize>) -> (r: String)
    ensures
        r@ == remote_keys_text(file@, line),
{
    let mut keys: String = "\"<C-\\\\><C-n>:edit ".to_owned();
    match line {
        Some(n) => {
            keys.append("+");
            keys.append(decimal_string(n as u64).as_str());
            keys.append(" ");
            keys.append(file);
            assert(keys@ == "\"<C-\\\\><C-n>:edit "@ + ("+"@ + decimal(n as nat) + " "@ + file@));
        },
        None => {
            keys.append(file);
        },
    }
    keys.append("<CR>\"");
    keys
}

/// The arguments of a new editor that opens `file` at `line`.
pub fn editor_arguments(file: &str, line: Option<usize>, neovide: bool) -> (r: Vec<String>)
    ensures
        views(r@) == editor_args(file@, line, neovide),
{
    let mut base: Vec<String> = Vec::new();
    base.push("--listen".to_owned());
    base.push("{ADDR}".to_owned());
    base.push("--remote".to_owned());
    let placed: Vec<String> = match line {
        Some(n) => {
            base.push("{LINE}".to_owned());
            base.push("{FILE}".to_owned());
            assert(views(base@) =~= seq!["--listen"@, "{ADDR}"@, "--remote"@, "{LINE}"@, "{FILE}"@]);
            let mut mark: String = "+".to_owned();
            mark.append(decimal_string(n as u64).as_str());
            apply_vars(base.as_slice(), "{LINE}", mark.as_str())
        },
        None => {
            base.push("{FILE}".to_owned());
            assert(views(base@) =~= seq!["--listen"@, "{ADDR}"@, "--remote"@, "{FILE}"@]);
            base
        },
    };
    let opened: Vec<String> = apply_vars(placed.as_slice(), "{FILE}", file);
    if neovide {
        let mut all: Vec<String> = Vec::new();
        all.push("--".to_owned());
        let mut i: usize = 0;
        while i < opened.len()
            invariant
                i <= opened@.len(),
                views(all@) == seq!["--"@] + views(opened@).take(i as int),
            decreases opened@.len() - i,
        {
            let ghost before = views(all@);
            let item: String = opened[i].clone();
            all.push(item);
            assert(views(all@) == before.push(item@));
            assert(views(opened@).take(i as int + 1) == views(opened@).take(i as int).push(
                opened@[i as int]@,
            ));
            assert(views(all@) =~= seq!["--"@] + views(opened@).take(i as int + 1));
            i = i + 1;
        }
        assert(views(opened@).take(opened@.len() as int) == views(opened@));
        all
    } else {
        opened
    }
}

/// The arguments that Neovide is started with: those that are given, and on Linux the
/// window class for both display servers, standing as the placeholder `{CLASSNAME}`.
pub open spec fn neovide_args(given: Option<Vec<String>>, platform: Platform) -> Seq<Seq<char>> {
    let first = match given {
        Some(list) => views(list@),
        None => Seq::empty(),
    };
    if platform == Platform::Linux {
        first + seq!["--wayland_app_id"@, "{CLASSNAME}"@, "--x11-wm-class"@, "{CLASSNAME}"@]
    } else {
        first
    }
}

/// The arguments that Neovide is started with.
pub fn neovide_arguments(given: &Option<Vec<String>>, platform: Platform) -> (r: Vec<String>)
    ensures
        views(r@) == neovide_args(*given, platform),
{
    let mut args: Vec<String> = Vec::new();
    assert(views(args@) == Seq::<Seq<char>>::empty());
    match given {
        Some(list) => {
            let mut i: usize = 0;
            assert(views(list@).take(0) == Seq::<Seq<char>>::empty());
            while i < list.len()
                invariant
                    i <= list@.len(),
                    views(args@) == views(list@).take(i as int),
                decreases list@.len() - i,
            {
                let ghost before = views(args@);
                let item: String = list[i].clone();
                args.push(item);
                assert(views(args@) == before.push(item@));
                assert(views(list@).take(i as int + 1) == views(list@).take(i as int).push(
                    list@[i as int]@,
                ));
                i = i + 1;
            }
            assert(views(list@).take(list@.len() as int) == views(list@));
        },
        None => {},
    }
    match platform {
        Platform::Linux => {
            let ghost first = views(args@);
            args.push("--wayland_app_id".to_owned());
            args.push("{CLASSNAME}".to_owned());
            args.push("--x11-wm-class".to_owned());
            args.push("{CLASSNAME}".to_owned());
            assert(views(args@) =~= first + seq![
                "--wayland_app_id"@,
                "{CLASSNAME}"@,
                "--x11-wm-class"@,
                "{CLASSNAME}"@,
            ]);
        },
        _ => {},
    }
    args
}

/// One way to come by the program that hosts the editor. Each is tried by looking at
/// the system; the first that finds a program decides.
#[derive(Debug, Clone, PartialEq, Eq)]
pub enum Probe {
    /// Neovide at the path that the settings give. It has to exist.
    NeovideGiven(String),
    /// Neovide where the search path has it.
    NeovideOnPath,
    /// Neovide as this tooling installs it.
    NeovideInstalled,
    /// The terminal at the absolute path that the settings give.
    TerminalAtPath(String),
    /// The known terminal that the settings name, if it is installed.
    TerminalNamed(String),
    /// Any known terminal that is installed.
    TerminalAvailable,
}

/// The mathematical value of a [`Probe`].
pub enum ProbeView {
    NeovideGiven(Seq<char>),
    NeovideOnPath,
    NeovideInstalled,
    TerminalAtPath(Seq<char>),
    TerminalNamed(Seq<char>),
    TerminalAvailable,
}

impl View for Probe {
    type V = ProbeView;

    open spec fn view(&self) -> ProbeView {
        match self {
            Probe::NeovideGiven(path) => ProbeView::NeovideGiven(path@),
            Probe::NeovideOnPath => ProbeView::NeovideOnPath,
            Probe::NeovideInstalled => ProbeView::NeovideInstalled,
            Probe::TerminalAtPath(path) => ProbeView::TerminalAtPath(path@),
            Probe::TerminalNamed(name) => ProbeView::TerminalNamed(name@),
            Probe::TerminalAvailable => ProbeView::TerminalAvailable,
        }
    }
}

/// The views of a list of probes.
pub open spec fn probe_views(probes: Seq<Probe>) -> Seq<ProbeView> {
    Seq::new(probes.len(), |i: int| probes[i]@)
}

/// How Neovide is looked for: at the given path alone where one is given, else on the
/// search path and then by installing it.
pub open spec fn neovide_probes(executable: Option<String>) -> Seq<ProbeView> {
    match executable {
        Some(path) => seq![ProbeView::NeovideGiven(path@)],
        None => seq![ProbeView::NeovideOnPath, ProbeView::NeovideInstalled],
    }
}

/// How a terminal is looked for: where an executable is given, at that path and then
/// by that name; at last among the known terminals.
pub open spec fn terminal_probes(executable: Option<String>) -> Seq<ProbeView> {
    match executable {
        Some(exe) => seq![
            ProbeView::TerminalAtPath(exe@),
            ProbeView::TerminalNamed(exe@),
            ProbeView::TerminalAvailable,
        ],
        None => seq![ProbeView::TerminalAvailable],
    }
}

/// The probes for the settings `cfg`, in the order in which they are tried: those of
/// the launcher type that is set; Neovide first and then a terminal where none is set.
pub open spec fn probes_of(cfg: PluginConfig) -> Seq<ProbeView> {
    match cfg.launcher_type {
        Some(LauncherType::Neovide) => neovide_probes(cfg.executable),
        Some(LauncherType::Terminal) => terminal_probes(cfg.executable),
        None => neovide_probes(cfg.executable) + terminal_probes(cfg.executable),
    }
}

fn push_neovide_probes(probes: &mut Vec<Probe>, executable: &Option<String>)
    ensures
        probe_views(final(probes)@) == probe_views(old(probes)@) + neovide_probes(*executable),
{
    match executable {
        Some(path) => {
            probes.push(Probe::NeovideGiven(path.clone()));
            assert(probe_views(probes@) =~= probe_views(old(probes)@) + seq![
                ProbeView::NeovideGiven(path@),
            ]);
        },
        None => {
            probes.push(Probe::NeovideOnPath);
            probes.push(Probe::NeovideInstalled);
            assert(probe_views(probes@) =~= probe_views(old(probes)@) + seq![
                ProbeView::NeovideOnPath,
                ProbeView::NeovideInstalled,
            ]);
        },
    }
}

fn push_terminal_probes(probes: &mut Vec<Probe>, executable: &Option<String>)
    ensures
        probe_views(final(probes)@) == probe_views(old(probes)@) + terminal_probes(*executable),
{
    match executable {
        Some(exe) => {
            probes.push(Probe::TerminalAtPath(exe.clone()));
            probes.push(Probe::TerminalNamed(exe.clone()));
            probes.push(Probe::TerminalAvailable);
            assert(probe_views(probes@) =~= probe_views(old(probes)@) + seq![
                ProbeView::TerminalAtPath(exe@),
                ProbeView::TerminalNamed(exe@),
                ProbeView::TerminalAvailable,
            ]);
        },
        None => {
            probes.push(Probe::TerminalAvailable);
            assert(probe_views(probes@) =~= probe_views(old(probes)@) + seq![
                ProbeView::TerminalAvailable,
            ]);
        },
    }
}

/// The ways to come by the program that hosts the editor under the settings `cfg`, in
/// the order in which they are tried.
pub fn create_launcher(cfg: &PluginConfig) -> (r: Vec<Probe>)
    ensures
        probe_views(r@) == probes_of(*cfg),
{
    let mut probes: Vec<Probe> = Vec::new();
    assert(probe_views(probes@) =~= Seq::<ProbeView>::empty());
    match cfg.launcher_type {
        Some(LauncherType::Neovide) => {
            push_neovide_probes(&mut probes, &cfg.executable);
        },
        Some(LauncherType::Terminal) => {
            push_terminal_probes(&mut probes, &cfg.executable);
        },
        None => {
            push_neovide_probes(&mut probes, &cfg.executable);
            push_terminal_probes(&mut probes, &cfg.executable);
        },
    }
    assert(Seq::<ProbeView>::empty() + probes_of(*cfg) =~= probes_of(*cfg));
    probes
}

/// The socket that the editor listens on where the settings name none: a file socket
/// on Linux and macOS, a network socket elsewhere.
pub open spec fn socket_of(socket_type: Option<SocketType>, platform: Platform) -> SocketType {
    match socket_type {
        Some(s) => s,
        None => if platform == Platform::Windows {
            SocketType::Netsock
        } else {
            SocketType::Fsock
        },
    }
}

/// The kind of socket that the editor is reached by.
pub fn socket_type(given: Option<SocketType>, platform: Platform) -> (r: SocketType)
    ensures
        r == socket_of(given, platform),
{
    match given {
        Some(s) => s,
        None => match platform {
            Platform::Windows => SocketType::Netsock,
            _ => SocketType::Fsock,
        },
    }
}

} // verus!
