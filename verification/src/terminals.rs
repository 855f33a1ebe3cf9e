//! The terminal emulators that the editor can be launched in.

use crate::text::{str_eq, views};
use vstd::prelude::*;

verus! {

/// How a terminal is told which program to run.
#[derive(Debug, Clone)]
pub enum RunArg {
    /// The program follows this argument.
    Arg(String),
    /// The program follows the terminal's own arguments.
    End,
}

/// The mathematical value of a [`RunArg`].
pub enum RunArgView {
    Arg(Seq<char>),
    End,
}

/// A terminal emulator and how it is started.
#[derive(Debug, Clone)]
pub struct Terminal {
    pub executable: String,
    pub arguments: Vec<String>,
    pub class_arg: Option<String>,
    pub run_arg: Option<RunArg>,
}

/// The mathematical value of a [`Terminal`].
pub struct TerminalView {
    pub executable: Seq<char>,
    pub arguments: Seq<Seq<char>>,
    pub class_arg: Option<Seq<char>>,
    pub run_arg: Option<RunArgView>,
}

impl View for RunArg {
    type V = RunArgView;

    open spec fn view(&self) -> RunArgView {
        match self {
            RunArg::Arg(s) => RunArgView::Arg(s@),
            RunArg::End => RunArgView::End,
        }
    }
}

impl View for Terminal {
    type V = TerminalView;

    open spec fn view(&self) -> TerminalView {
        TerminalView {
            executable: self.executable@,
            arguments: views(self.arguments@),
            class_arg: match self.class_arg {
                Some(s) => Some(s@),
                None => None,
            },
            run_arg: match self.run_arg {
                Some(r) => Some(r@),
                None => None,
            },
        }
    }
}

/// The views of a list of string slices.
pub open spec fn slice_views(items: Seq<&str>) -> Seq<Seq<char>> {
    Seq::new(items.len(), |i: int| items[i]@)
}

/// The views of a list of terminals.
pub open spec fn terminal_views(items: Seq<Terminal>) -> Seq<TerminalView> {
    Seq::new(items.len(), |i: int| items[i]@)
}

/// A terminal that is started with `-e` before the program and takes its window class
/// behind `class_arg`.
pub open spec fn dash_e(executable: Seq<char>, class_arg: Seq<char>) -> TerminalView {
    TerminalView {
        executable,
        arguments: Seq::empty(),
        class_arg: Some(class_arg),
        run_arg: Some(RunArgView::Arg("-e"@)),
    }
}

/// The terminals that are known by name, in the order in which they are looked for.
pub open spec fn known_terminals() -> Seq<TerminalView> {
    seq![
        dash_e("alacritty"@, "--class="@),
        dash_e("foot"@, "--app-id="@),
        dash_e("ghostty"@, "--class="@),
        dash_e("kitty"@, "--class="@),
        dash_e("st"@, "-c="@),
        TerminalView {
            executable: "wezterm"@,
            arguments: seq!["start"@],
            class_arg: Some("--class"@),
            run_arg: Some(RunArgView::End),
        },
    ]
}

/// The terminal among `list` that `name` finds: the first whose executable is `name`.
pub open spec fn found(list: Seq<TerminalView>, name: Seq<char>, r: Option<TerminalView>) -> bool {
    match r {
        Some(t) => exists|i: int|
            0 <= i < list.len() && #[trigger] list[i] == t && t.executable == name && forall|j: int|
                0 <= j < i ==> (#[trigger] list[j]).executable != name,
        None => forall|i: int| 0 <= i < list.len() ==> (#[trigger] list[i]).executable != name,
    }
}

/// The view of an optional terminal.
pub open spec fn option_view(t: Option<Terminal>) -> Option<TerminalView> {
    match t {
        Some(t) => Some(t@),
        None => None,
    }
}

impl Terminal {
    /// A terminal with the given executable, arguments, class option and run option.
    pub fn new(exe: &str, args: &Vec<&str>, class_arg: Option<&str>, run_arg: Option<RunArg>) -> (r:
        Self)
        ensures
            r@.executable == exe@,
            r@.arguments == slice_views(args@),
            r@.class_arg == match class_arg {
                Some(s) => Some(s@),
                None => None,
            },
            r.run_arg == run_arg,
    {
        let mut arguments: Vec<String> = Vec::new();
        let mut i: usize = 0;
        while i < args.len()
            invariant
                i <= args@.len(),
                views(arguments@) == slice_views(args@).take(i as int),
            decreases args@.len() - i,
        {
            let ghost before = views(arguments@);
            let item: String = args[i].to_owned();
            arguments.push(item);
            assert(views(arguments@) == before.push(item@));
            assert(slice_views(args@).take(i as int + 1) == slice_views(args@).take(
                i as int,
            ).push(args@[i as int]@));
            i = i + 1;
        }
        assert(slice_views(args@).take(args@.len() as int) == slice_views(args@));
        Terminal {
            executable: exe.to_owned(),
            arguments,
            class_arg: match class_arg {
                Some(s) => Some(s.to_owned()),
                None => None,
            },
            run_arg,
        }
    }

    /// The known terminals, in the order in which they are looked for.
    pub fn list() -> (r: Vec<Terminal>)
        ensures
            terminal_views(r@) == known_terminals(),
    {
        let none: Vec<&str> = Vec::new();
        let mut start: Vec<&str> = Vec::new();
        start.push("start");
        let mut list: Vec<Terminal> = Vec::new();
        list.push(Terminal::new("alacritty", &none, Some("--class="), Some(RunArg::Arg("-e".to_owned()))));
        list.push(Terminal::new("foot", &none, Some("--app-id="), Some(RunArg::Arg("-e".to_owned()))));
        list.push(Terminal::new("ghostty", &none, Some("--class="), Some(RunArg::Arg("-e".to_owned()))));
        list.push(Terminal::new("kitty", &none, Some("--class="), Some(RunArg::Arg("-e".to_owned()))));
        list.push(Terminal::new("st", &none, Some("-c="), Some(RunArg::Arg("-e".to_owned()))));
        list.push(Terminal::new("wezterm", &start, Some("--class"), Some(RunArg::End)));
        proof {
            assert(slice_views(none@) =~= Seq::<Seq<char>>::empty());
            assert(slice_views(start@) =~= seq!["start"@]);
            let got = terminal_views(list@);
            let want = known_terminals();
            assert(got.len() == want.len());
            assert(got[0] == want[0]);
            assert(got[1] == want[1]);
            assert(got[2] == want[2]);
            assert(got[3] == want[3]);
            assert(got[4] == want[4]);
            assert(got[5] == want[5]);
            assert(got =~= want);
        }
        list
    }

    /// The first known terminal whose executable is `name`.
    pub fn find_by_name(name: &str) -> (r: Option<Terminal>)
        ensures
            found(known_terminals(), name@, option_view(r)),
    {
        let mut list: Vec<Terminal> = Terminal::list();
        let ghost all = terminal_views(list@);
        let mut i: usize = 0;
        while i < list.len()
            invariant
                i <= list@.len(),
                all == terminal_views(list@),
                all == known_terminals(),
                forall|j: int| 0 <= j < i ==> (#[trigger] all[j]).executable != name@,
            decreases list@.len() - i,
        {
            if str_eq(name, list[i].executable.as_str()) {
                assert(all[i as int] == list@[i as int]@);
                let term: Terminal = list.swap_remove(i);
                return Some(term);
            }
            assert(all[i as int] == list@[i as int]@);
            i = i + 1;
        }
        None
    }
}

} // verus!
