//! Which window is brought to the front, and the command that does it.

use crate::utils::{classname, classname_text, IdError};
use vstd::prelude::*;

verus! {

/// What a window is found by.
#[derive(Debug)]
pub enum SwitcherType {
    Class(String),
    Title(String),
    AppName(String),
}

/// The programs that can bring a window to the front.
#[derive(Debug, Clone, Copy, PartialEq, Eq, Structural)]
pub enum Switcher {
    HyprCtl,
    SwayMsg,
    WmCtrl,
    XDoTool,
    OsaScript,
}

/// The systems that windows are switched on.
#[derive(Debug, Clone, Copy, PartialEq, Eq, Structural)]
pub enum Platform {
    Linux,
    MacOs,
    Windows,
}

/// Why no command brings the window to the front.
#[derive(Debug, Clone, Copy, PartialEq, Eq, Structural)]
pub enum FocusError {
    /// The switcher cannot find a window by this kind of name.
    Unsupported,
}

/// The mathematical value of a [`SwitcherType`].
pub enum Target {
    Class(Seq<char>),
    Title(Seq<char>),
    AppName(Seq<char>),
}

impl View for SwitcherType {
    type V = Target;

    open spec fn view(&self) -> Target {
        match self {
            SwitcherType::Class(c) => Target::Class(c@),
            SwitcherType::Title(t) => Target::Title(t@),
            SwitcherType::AppName(a) => Target::AppName(a@),
        }
    }
}

impl Target {
    /// The name that the window is found by.
    pub open spec fn value(self) -> Seq<char> {
        match self {
            Target::Class(c) => c,
            Target::Title(t) => t,
            Target::AppName(a) => a,
        }
    }
}

/// The name of the program of a switcher.
pub open spec fn program_name(switcher: Switcher) -> Seq<char> {
    match switcher {
        Switcher::HyprCtl => "hyprctl"@,
        Switcher::SwayMsg => "swaymsg"@,
        Switcher::WmCtrl => "wmctrl"@,
        Switcher::XDoTool => "xdotool"@,
        Switcher::OsaScript => "osascript"@,
    }
}

/// The arguments with which `switcher` brings the window `target` to the front.
pub open spec fn switch_args(switcher: Switcher, target: Target) -> Result<
    Seq<Seq<char>>,
    FocusError,
> {
    match (switcher, target) {
        (Switcher::HyprCtl, Target::Class(c)) => Ok(
            seq!["dispatch"@, "focuswindow"@, "class:"@ + c],
        ),
        (Switcher::HyprCtl, Target::Title(t)) => Ok(
            seq!["dispatch"@, "focuswindow"@, "title:"@ + t],
        ),
        (Switcher::SwayMsg, Target::Class(c)) => Ok(seq!["[class="@ + c + "] focus"@]),
        (Switcher::SwayMsg, Target::Title(t)) => Ok(seq!["[title="@ + t + "] focus"@]),
        (Switcher::WmCtrl, Target::Class(c)) => Ok(seq!["-x"@, "-a"@, c]),
        (Switcher::WmCtrl, other) => Ok(seq!["-a"@, other.value()]),
        (Switcher::XDoTool, Target::Class(c)) => Ok(
            seq!["search"@, "--class"@, c, "windowactivate"@],
        ),
        (Switcher::XDoTool, Target::Title(t)) => Ok(
            seq!["search"@, "--title"@, t, "windowactivate"@],
        ),
        (Switcher::OsaScript, Target::AppName(a)) => Ok(
            seq![
                "-e"@,
                "'tell application \"System Events\" to tell process \""@ + a
                    + "\" to set frontmost to true'"@,
            ],
        ),
        _ => Err(FocusError::Unsupported),
    }
}

/// The views of a list of strings.
pub open spec fn arg_views(args: Seq<String>) -> Seq<Seq<char>> {
    Seq::new(args.len(), |i: int| args[i]@)
}

/// The window of the editor for the project at `root_dir`: found by its class on
/// Linux, not switched to elsewhere.
pub open spec fn neovim_target(platform: Platform, root_dir: Seq<char>) -> Option<Target> {
    match platform {
        Platform::Linux => Some(Target::Class(classname_text(root_dir))),
        _ => None,
    }
}

/// The window of the running game named `title`: found by its title on Linux, by the
/// name of its application on macOS, not switched to elsewhere.
pub open spec fn game_target(platform: Platform, title: Seq<char>) -> Option<Target> {
    match platform {
        Platform::Linux => Some(Target::Title(title)),
        Platform::MacOs => Some(Target::AppName(title)),
        Platform::Windows => None,
    }
}

/// The view of an optional target.
pub open spec fn target_view(t: Option<SwitcherType>) -> Option<Target> {
    match t {
        Some(t) => Some(t@),
        None => None,
    }
}

fn two(a: &str, b: &str) -> (r: String)
    ensures
        r@ == a@ + b@,
{
    let mut out: String = a.to_owned();
    out.append(b);
    out
}

impl SwitcherType {
    /// The name that the window is found by.
    pub fn value(&self) -> (r: String)
        ensures
            r@ == self@.value(),
    {
        match self {
            SwitcherType::Class(c) => c.clone(),
            SwitcherType::Title(t) => t.clone(),
            SwitcherType::AppName(a) => a.clone(),
        }
    }
}

impl Switcher {
    /// The program that this switcher runs.
    pub fn program(&self) -> (r: &'static str)
        ensures
            r@ == program_name(*self),
    {
        match self {
            Switcher::HyprCtl => "hyprctl",
            Switcher::SwayMsg => "swaymsg",
            Switcher::WmCtrl => "wmctrl",
            Switcher::XDoTool => "xdotool",
            Switcher::OsaScript => "osascript",
        }
    }

    /// The switchers that exist on `platform`, in the order in which they are tried.
    pub fn candidates(platform: Platform) -> (r: Vec<Switcher>)
        ensures
            r@ == match platform {
                Platform::Linux => seq![
                    Switcher::HyprCtl,
                    Switcher::SwayMsg,
                    Switcher::WmCtrl,
                    Switcher::XDoTool,
                ],
                Platform::MacOs => seq![Switcher::OsaScript],
                Platform::Windows => Seq::<Switcher>::empty(),
            },
    {
        let mut list: Vec<Switcher> = Vec::new();
        match platform {
            Platform::Linux => {
                list.push(Switcher::HyprCtl);
                list.push(Switcher::SwayMsg);
                list.push(Switcher::WmCtrl);
                list.push(Switcher::XDoTool);
                assert(list@ =~= seq![
                    Switcher::HyprCtl,
                    Switcher::SwayMsg,
                    Switcher::WmCtrl,
                    Switcher::XDoTool,
                ]);
            },
            Platform::MacOs => {
                list.push(Switcher::OsaScript);
                assert(list@ =~= seq![Switcher::OsaScript]);
            },
            Platform::Windows => {},
        }
        list
    }
}

/// The arguments with which `switcher` brings the window `target` to the front.
/// Fails where the switcher cannot find a window by this kind of name.
pub fn switch(switcher: Switcher, target: &SwitcherType) -> (r: Result<Vec<String>, FocusError>)
    ensures
        match r {
            Ok(args) => switch_args(switcher, target@) == Ok::<Seq<Seq<char>>, FocusError>(
                arg_views(args@),
            ),
            Err(e) => switch_args(switcher, target@) == Err::<Seq<Seq<char>>, FocusError>(e),
        },
{
    let mut args: Vec<String> = Vec::new();
    match switcher {
        Switcher::HyprCtl => {
            let last: String = match target {
                SwitcherType::Class(c) => two("class:", c.as_str()),
                SwitcherType::Title(t) => two("title:", t.as_str()),
                SwitcherType::AppName(_) => {
                    return Err(FocusError::Unsupported);
                },
            };
            args.push("dispatch".to_owned());
            args.push("focuswindow".to_owned());
            args.push(last);
            assert(arg_views(args@) =~= seq!["dispatch"@, "focuswindow"@, last@]);
        },
        Switcher::SwayMsg => {
            let key: &str = match target {
                SwitcherType::Class(_) => "[class=",
                SwitcherType::Title(_) => "[title=",
                SwitcherType::AppName(_) => {
                    return Err(FocusError::Unsupported);
                },
            };
            let mut only: String = two(key, target.value().as_str());
            only.append("] focus");
            args.push(only);
            assert(arg_views(args@) =~= seq![only@]);
        },
        Switcher::WmCtrl => {
            match target {
                SwitcherType::Class(_) => {
                    args.push("-x".to_owned());
                },
                _ => {},
            }
            let value: String = target.value();
            args.push("-a".to_owned());
            args.push(value);
            assert(target@ is Class ==> arg_views(args@) =~= seq!["-x"@, "-a"@, value@]);
            assert(!(target@ is Class) ==> arg_views(args@) =~= seq!["-a"@, value@]);
        },
        Switcher::XDoTool => {
            let flag: &str = match target {
                SwitcherType::Class(_) => "--class",
                SwitcherType::Title(_) => "--title",
                SwitcherType::AppName(_) => {
                    return Err(FocusError::Unsupported);
                },
            };
            let value: String = target.value();
            args.push("search".to_owned());
            args.push(flag.to_owned());
            args.push(value);
            args.push("windowactivate".to_owned());
            assert(arg_views(args@) =~= seq!["search"@, flag@, value@, "windowactivate"@]);
        },
        Switcher::OsaScript => {
            let script: String = match target {
                SwitcherType::AppName(a) => {
                    let mut script: String = two(
                        "'tell application \"System Events\" to tell process \"",
                        a.as_str(),
                    );
                    script.append("\" to set frontmost to true'");
                    script
                },
                _ => {
                    return Err(FocusError::Unsupported);
                },
            };
            args.push("-e".to_owned());
            args.push(script);
            assert(arg_views(args@) =~= seq!["-e"@, script@]);
        },
    }
    Ok(args)
}

/// The window to bring to the front when the editor of the project at `root_dir` is
/// asked for, if the platform has one to switch to.
pub fn focus_neovim(platform: Platform, root_dir: &str) -> (r: Result<
    Option<SwitcherType>,
    IdError,
>)
    ensures
        r matches Ok(target) && target_view(target) == neovim_target(platform, root_dir@),
{
    match platform {
        Platform::Linux => match classname(root_dir) {
            Ok(class) => Ok(Some(SwitcherType::Class(class))),
            Err(e) => Err(e),
        },
        _ => Ok(None),
    }
}

/// The window to bring to the front when the running game named `title` is asked
/// for, if the platform has one to switch to.
pub fn focus_game(platform: Platform, title: String) -> (r: Option<SwitcherType>)
    ensures
        target_view(r) == game_target(platform, title@),
{
    match platform {
        Platform::Linux => Some(SwitcherType::Title(title)),
        Platform::MacOs => Some(SwitcherType::AppName(title)),
        Platform::Windows => None,
    }
}

} // verus!
