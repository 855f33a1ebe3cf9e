use defold_nvim_core::editor::command_url;
use defold_nvim_core::editor_config::{LauncherSettings, LauncherType, SocketType,
    TerminalLauncherSettings};
use defold_nvim_core::error::LuaError;
use defold_nvim_core::focus::{focus_game, focus_neovim, switch, FocusError, Platform, Switcher,
    SwitcherType};
use defold_nvim_core::game_project::{GameProject, GameProjectError, Section};
use defold_nvim_core::github::{latest_release_url, Asset, Match, Release};
use defold_nvim_core::launcher::apply_vars;
use defold_nvim_core::plugin_config::PluginConfig;
use defold_nvim_core::release::{after_failed_install, is_outdated, is_update_available,
    is_valid_version};
use defold_nvim_core::terminals::{RunArg, Terminal};
use defold_nvim_core::text::{decimal_string, digit_str, split_trimmed, str_ends_with, str_join,
    str_starts_with, str_trim, str_trim_end_matches, str_trim_start};
use defold_nvim_core::utils::{classname, hex_string, project_id, sha3};

use defold_nvim_core::bridge::exe_name;
use defold_nvim_core::editor_config::runner_script;
use defold_nvim_core::launcher::{create_launcher, editor_arguments, neovide_arguments,
    remote_keys, socket_type, Probe};
use defold_nvim_core::project::{ident, include_dirs, is_dependency_dir, stub_file_name,
    DependencyError};
use defold_nvim_core::game_project::Library;
use defold_nvim_core::text::{same_texts, split_words, str_has_whitespace, str_is_printable,
    str_spaced, str_strip_suffix};

fn strings(items: &[&str]) -> Vec<String> {
    items.iter().map(|s| s.to_string()).collect()
}

#[test]
fn test_parse_game_project() {
    let input = r"[project]
title = My Fancy Game
dependencies#1 = https://example.com/dependency1.zip
dependencies#2 = https://example.com/dependency2.zip

[library]
include_dirs = my_fancy_game";

    let g: GameProject = input
        .to_string()
        .try_into()
        .expect("could not parse game.project file");

    assert_eq!("My Fancy Game", g.title);
    assert_eq!(2, g.dependencies.len());
    assert_eq!(
        vec![
            "https://example.com/dependency1.zip",
            "https://example.com/dependency2.zip"
        ],
        g.dependencies
    );
    assert!(g.library.is_some());
    assert_eq!(1, g.library.as_ref().unwrap().include_dirs.len());
    assert_eq!(
        vec!["my_fancy_game"],
        g.library.as_ref().unwrap().include_dirs
    );
}

#[test]
fn game_project_without_library() {
    let g = GameProject::parse("[project]\ntitle = T\nother = x\n").unwrap();
    assert_eq!(g.title, "T");
    assert!(g.dependencies.is_empty());
    assert!(g.library.is_none());
}

#[test]
fn game_project_include_dirs_are_split_and_trimmed() {
    let g = GameProject::parse("[project]\ntitle = T\n[library]\ninclude_dirs = a , b,c\n").unwrap();
    assert_eq!(g.library.unwrap().include_dirs, vec!["a", "b", "c"]);
    let g = GameProject::parse("[library]\nother = 1\n[project]\ntitle = T\n").unwrap();
    assert!(g.library.unwrap().include_dirs.is_empty());
}

#[test]
fn game_project_errors() {
    assert_eq!(GameProject::parse("[other]\ntitle = T\n").err(), Some(GameProjectError::NoProjectSection));
    assert_eq!(GameProject::parse("[project]\nname = T\n").err(), Some(GameProjectError::NoTitle));
    assert_eq!(GameProject::parse("[project\ntitle = T\n").err(), Some(GameProjectError::Syntax));
}

#[test]
fn game_project_from_sections_takes_the_first_match() {
    let sections = vec![
        Section { name: None, properties: vec![("title".to_string(), "general".to_string())] },
        Section {
            name: Some("project".to_string()),
            properties: vec![
                ("dependencies#0".to_string(), "d0".to_string()),
                ("title".to_string(), "first".to_string()),
                ("title".to_string(), "second".to_string()),
                ("dependencies".to_string(), "no".to_string()),
                ("dependencies#1".to_string(), "d1".to_string()),
            ],
        },
        Section {
            name: Some("project".to_string()),
            properties: vec![("title".to_string(), "later".to_string())],
        },
    ];
    let g = GameProject::from_sections(&sections).unwrap();
    assert_eq!(g.title, "first");
    assert_eq!(g.dependencies, vec!["d0", "d1"]);
    assert!(g.library.is_none());
}

#[test]
fn sha3_of_known_texts() {
    assert_eq!(sha3(""), "a7ffc6f8bf1ed76651c14756a061d662f580ff4de43b49fa82d80a4b80f8434a");
    assert_eq!(sha3("abc"), "3a985da74fe225b2045c172d6bd390bd855f086e3e9d525b46bfe24511431532");
}

#[test]
fn project_id_is_the_start_of_the_digest() {
    assert_eq!(project_id("abc"), Ok("3a985da7".to_string()));
    assert_eq!(classname("abc"), Ok("com.defold.nvim.3a985da7".to_string()));
    assert_eq!(project_id(""), Ok("a7ffc6f8".to_string()));
}

#[test]
fn hex_has_two_digits_per_byte() {
    assert_eq!(hex_string(&vec![]), "");
    assert_eq!(hex_string(&vec![0x00, 0x0f, 0xa0, 0xff, 0x5c]), "000fa0ff5c");
}

#[test]
fn digits_and_decimal() {
    assert_eq!([digit_str(0), digit_str(9), digit_str(10), digit_str(15)], ["0", "9", "a", "f"]);
    assert_eq!(decimal_string(0), "0");
    assert_eq!(decimal_string(7), "7");
    assert_eq!(decimal_string(65535), "65535");
    assert_eq!(decimal_string(u64::MAX), "18446744073709551615");
}

#[test]
fn terminal_new_copies_its_arguments() {
    let t = Terminal::new("wezterm", &vec!["start", "--always"], Some("--class"), Some(RunArg::End));
    assert_eq!(t.executable, "wezterm");
    assert_eq!(t.arguments, vec!["start", "--always"]);
    assert_eq!(t.class_arg.as_deref(), Some("--class"));
    assert!(matches!(t.run_arg, Some(RunArg::End)));
    let t = Terminal::new("x", &vec![], None, None);
    assert!(t.arguments.is_empty() && t.class_arg.is_none() && t.run_arg.is_none());
}

#[test]
fn terminal_is_found_by_name() {
    let kitty = Terminal::find_by_name("kitty").unwrap();
    assert_eq!(kitty.executable, "kitty");
    assert!(kitty.arguments.is_empty());
    assert_eq!(kitty.class_arg.as_deref(), Some("--class="));
    assert!(matches!(kitty.run_arg, Some(RunArg::Arg(ref a)) if a == "-e"));
    let wezterm = Terminal::find_by_name("wezterm").unwrap();
    assert_eq!(wezterm.arguments, vec!["start"]);
    assert!(matches!(wezterm.run_arg, Some(RunArg::End)));
    assert_eq!(Terminal::find_by_name("foot").unwrap().class_arg.as_deref(), Some("--app-id="));
    assert_eq!(Terminal::find_by_name("st").unwrap().class_arg.as_deref(), Some("-c="));
    assert!(Terminal::find_by_name("xterm").is_none());
    let names: Vec<String> = Terminal::list().into_iter().map(|t| t.executable).collect();
    assert_eq!(names, vec!["alacritty", "foot", "ghostty", "kitty", "st", "wezterm"]);
}

#[test]
fn plugin_config_holds_what_it_is_given() {
    let cfg = PluginConfig {
        launcher_type: Some(defold_nvim_core::plugin_config::LauncherType::Neovide),
        socket_type: None,
        executable: Some("nv".to_string()),
        arguments: None,
    };
    let copy = cfg.clone();
    assert_eq!(copy.launcher_type, Some(defold_nvim_core::plugin_config::LauncherType::Neovide));
    assert_eq!(copy.socket_type, None::<defold_nvim_core::plugin_config::SocketType>);
    assert_eq!(copy.executable.as_deref(), Some("nv"));
}

#[test]
fn bridge_cli_args_of_full_settings() {
    let settings = LauncherSettings {
        launcher_type: LauncherType::Terminal,
        executable: Some("/usr/bin/kitty".to_string()),
        socket_type: Some(SocketType::Netsock),
        extra_arguments: Some(strings(&["-o", "x=1"])),
        terminal: Some(TerminalLauncherSettings {
            class_argument: Some("--class=".to_string()),
            run_argument: Some("-e".to_string()),
        }),
        debug: Some(true),
    };
    assert_eq!(
        settings.bridge_cli_args(),
        strings(&[
            "--launcher-type",
            "terminal",
            "--socket-type",
            "netsock",
            "--executable",
            "/usr/bin/kitty",
            "--extra-arguments",
            "-o",
            "x=1",
            "--terminal-class-argument",
            "--class=",
            "--terminal-run-argument",
            "-e",
        ])
    );
}

#[test]
fn bridge_cli_args_of_bare_settings() {
    let settings = LauncherSettings {
        launcher_type: LauncherType::Neovide,
        executable: None,
        socket_type: Some(SocketType::Fsock),
        extra_arguments: Some(vec![]),
        terminal: Some(TerminalLauncherSettings { class_argument: None, run_argument: Some("r".to_string()) }),
        debug: None,
    };
    assert_eq!(
        settings.bridge_cli_args(),
        strings(&["--launcher-type", "neovide", "--socket-type", "fsock", "--extra-arguments", "--terminal-run-argument", "r"])
    );
    let least = LauncherSettings {
        launcher_type: LauncherType::Neovide,
        executable: None,
        socket_type: None,
        extra_arguments: None,
        terminal: None,
        debug: None,
    };
    assert_eq!(least.bridge_cli_args(), strings(&["--launcher-type", "neovide"]));
}

#[test]
fn command_url_names_port_and_command() {
    assert_eq!(command_url(8080, None), "http://127.0.0.1:8080/command/");
    assert_eq!(command_url(65535, Some("build".to_string())), "http://127.0.0.1:65535/command/build");
    assert_eq!(command_url(0, Some(String::new())), "http://127.0.0.1:0/command/");
}

#[test]
fn lua_error_prefixes_its_message() {
    assert_eq!(LuaError::new("boom".to_string()).error, "Err: boom");
    assert_eq!(LuaError::from("boom".to_string()).error, "Err: boom");
}

#[test]
fn release_asset_is_the_first_match() {
    let asset = |name: &str| Asset { name: name.to_string(), browser_download_url: format!("u/{name}") };
    let release = Release {
        tag_name: "v1".to_string(),
        assets: vec![asset("a.zip"), asset("defold_api_1.zip"), asset("b.tar.gz"), asset("defold_api_2.zip"), asset("b.tar.gz")],
    };
    assert_eq!(release.find_asset(Match::Exact, "b.tar.gz"), Some(2));
    assert_eq!(release.find_asset(Match::Exact, "b.tar"), None);
    assert_eq!(release.find_asset(Match::Prefix, "defold_api_"), Some(1));
    assert_eq!(release.find_asset(Match::Prefix, "b.tar"), Some(2));
    assert_eq!(release.find_asset(Match::Prefix, ""), Some(0));
    assert_eq!(release.find_asset(Match::Prefix, "zzz"), None);
    let empty = Release { tag_name: String::new(), assets: vec![] };
    assert_eq!(empty.find_asset(Match::Prefix, ""), None);
    assert_eq!(
        latest_release_url("neovide", "neovide"),
        "https://api.github.com/repos/neovide/neovide/releases/latest"
    );
}

#[test]
fn apply_vars_replaces_every_occurrence() {
    let args = strings(&["--listen", "{ADDR}", "x{ADDR}y{ADDR}", "plain", ""]);
    assert_eq!(
        apply_vars(&args, "{ADDR}", "/tmp/sock"),
        strings(&["--listen", "/tmp/sock", "x/tmp/socky/tmp/sock", "plain", ""])
    );
    assert_eq!(apply_vars(&strings(&["aaa"]), "aa", "b"), strings(&["ba"]));
    assert_eq!(apply_vars(&strings(&["ab"]), "", "-"), strings(&["-a-b-"]));
    assert!(apply_vars(&[], "a", "b").is_empty());
}

#[test]
fn versions_are_compared() {
    assert!(is_valid_version("1.2.3"));
    assert!(is_update_available("1.2.3", "1.3.0"));
    assert!(!is_update_available("1.3.0", "1.3.0"));
    assert!(!is_update_available("1.3.0", "1.2.9"));
    assert!(is_update_available("0.9", "0.10"));
    assert!(!is_valid_version("nightly"));
    assert!(is_update_available("nightly", "1.0"));
    assert!(is_update_available("nightly", "older"));
    assert!(!is_update_available("1.0", "nightly"));
    assert!(is_update_available("v0.15.1", "v0.15.2"));
    assert!(!is_outdated("nightly", Some("1.0")));
    assert!(!is_outdated("1.0", Some("nightly")));
    assert!(is_outdated("1.1.0", Some("1.0.9")));
    assert!(!is_outdated("1.1.0", Some("1.1.0")));
    assert!(!is_outdated("1.1.0", None));
}

#[test]
fn switch_builds_the_command_line() {
    let class = SwitcherType::Class("com.x".to_string());
    let title = SwitcherType::Title("My Game".to_string());
    let app = SwitcherType::AppName("Game".to_string());
    assert_eq!(switch(Switcher::HyprCtl, &class), Ok(strings(&["dispatch", "focuswindow", "class:com.x"])));
    assert_eq!(switch(Switcher::HyprCtl, &title), Ok(strings(&["dispatch", "focuswindow", "title:My Game"])));
    assert_eq!(switch(Switcher::HyprCtl, &app), Err(FocusError::Unsupported));
    assert_eq!(switch(Switcher::SwayMsg, &class), Ok(strings(&["[class=com.x] focus"])));
    assert_eq!(switch(Switcher::SwayMsg, &title), Ok(strings(&["[title=My Game] focus"])));
    assert_eq!(switch(Switcher::SwayMsg, &app), Err(FocusError::Unsupported));
    assert_eq!(switch(Switcher::WmCtrl, &class), Ok(strings(&["-x", "-a", "com.x"])));
    assert_eq!(switch(Switcher::WmCtrl, &title), Ok(strings(&["-a", "My Game"])));
    assert_eq!(switch(Switcher::WmCtrl, &app), Ok(strings(&["-a", "Game"])));
    assert_eq!(switch(Switcher::XDoTool, &class), Ok(strings(&["search", "--class", "com.x", "windowactivate"])));
    assert_eq!(switch(Switcher::XDoTool, &title), Ok(strings(&["search", "--title", "My Game", "windowactivate"])));
    assert_eq!(switch(Switcher::XDoTool, &app), Err(FocusError::Unsupported));
    assert_eq!(
        switch(Switcher::OsaScript, &app),
        Ok(strings(&["-e", "'tell application \"System Events\" to tell process \"Game\" to set frontmost to true'"]))
    );
    assert_eq!(switch(Switcher::OsaScript, &class), Err(FocusError::Unsupported));
    assert_eq!(Switcher::XDoTool.program(), "xdotool");
    assert_eq!(class.value(), "com.x");
}

#[test]
fn focus_targets_by_platform() {
    assert!(matches!(focus_neovim(Platform::Linux, "abc"), Ok(Some(SwitcherType::Class(ref c))) if c == "com.defold.nvim.3a985da7"));
    assert!(matches!(focus_neovim(Platform::MacOs, "abc"), Ok(None)));
    assert!(matches!(focus_neovim(Platform::Windows, "abc"), Ok(None)));
    assert!(matches!(focus_game(Platform::Linux, "G".to_string()), Some(SwitcherType::Title(ref t)) if t == "G"));
    assert!(matches!(focus_game(Platform::MacOs, "G".to_string()), Some(SwitcherType::AppName(ref t)) if t == "G"));
    assert!(focus_game(Platform::Windows, "G".to_string()).is_none());
    assert_eq!(
        Switcher::candidates(Platform::Linux),
        vec![Switcher::HyprCtl, Switcher::SwayMsg, Switcher::WmCtrl, Switcher::XDoTool]
    );
    assert_eq!(Switcher::candidates(Platform::MacOs), vec![Switcher::OsaScript]);
    assert!(Switcher::candidates(Platform::Windows).is_empty());
}

#[test]
fn text_helpers() {
    assert_eq!(str_trim_start(" \t\n\u{3000}x y "), "x y ");
    assert_eq!(str_trim(" \u{a0} x y \r\n"), "x y");
    assert_eq!(str_trim("   "), "");
    assert!(str_ends_with("name[optional]", "[optional]"));
    assert!(!str_ends_with("optional]", "[optional]"));
    assert!(str_ends_with("x", ""));
    assert!(str_starts_with("dependencies#1", "dependencies#"));
    assert!(!str_starts_with("dep", "dependencies#"));
    assert_eq!(str_trim_end_matches("abab", "ab"), "");
    assert_eq!(str_trim_end_matches("abab", ""), "abab");
    assert_eq!(str_trim_end_matches("xaby", "ab"), "xaby");
    assert_eq!(str_strip_suffix("abab", "ab"), "ab");
    assert_eq!(str_strip_suffix("abab", "ba"), "abab");
    assert_eq!(str_strip_suffix("ab", "ab"), "");
    assert_eq!(str_strip_suffix("ab", ""), "ab");
    assert_eq!(str_join(&strings(&["a", "b", "c"]), ", "), "a, b, c");
    assert_eq!(str_join(&strings(&[]), ", "), "");
    assert_eq!(split_trimmed("a, b ,,c ", ','), strings(&["a", "b", "", "c"]));
    assert_eq!(split_trimmed("", ','), strings(&[""]));
    assert_eq!(split_trimmed("é,ü", ','), strings(&["é", "ü"]));
}

#[test]
fn editor_arguments_place_file_and_line() {
    assert_eq!(
        editor_arguments("/g/main.script", Some(12), false),
        strings(&["--listen", "{ADDR}", "--remote", "+12", "/g/main.script"])
    );
    assert_eq!(
        editor_arguments("/g/main.script", None, true),
        strings(&["--", "--listen", "{ADDR}", "--remote", "/g/main.script"])
    );
    assert_eq!(
        editor_arguments("a b", Some(0), true),
        strings(&["--", "--listen", "{ADDR}", "--remote", "+0", "a b"])
    );
}

#[test]
fn remote_keys_open_the_file() {
    assert_eq!(remote_keys("/g/a.lua", None), "\"<C-\\\\><C-n>:edit /g/a.lua<CR>\"");
    assert_eq!(remote_keys("/g/a.lua", Some(7)), "\"<C-\\\\><C-n>:edit +7 /g/a.lua<CR>\"");
}

#[test]
fn neovide_arguments_name_the_window_class_on_linux() {
    assert_eq!(
        neovide_arguments(&Some(strings(&["--fork"])), Platform::Linux),
        strings(&["--fork", "--wayland_app_id", "{CLASSNAME}", "--x11-wm-class", "{CLASSNAME}"])
    );
    assert_eq!(neovide_arguments(&Some(strings(&["--fork"])), Platform::MacOs), strings(&["--fork"]));
    assert!(neovide_arguments(&None, Platform::Windows).is_empty());
    assert_eq!(neovide_arguments(&None, Platform::Linux).len(), 4);
}

#[test]
fn runner_script_fills_its_placeholders() {
    let settings = LauncherSettings {
        launcher_type: LauncherType::Terminal,
        executable: Some("kitty".to_string()),
        socket_type: None,
        extra_arguments: None,
        terminal: None,
        debug: Some(true),
    };
    let template = "run {BRIDGE_PATH} {DEBUG_FLAG} open {LAUNCH_ARGS} {BRIDGE_PATH}";
    assert_eq!(
        runner_script(template, "/bin/bridge", &settings),
        "run /bin/bridge --debug open --launcher-type terminal --executable kitty /bin/bridge"
    );
    let quiet = LauncherSettings { debug: Some(false), ..settings };
    assert_eq!(
        runner_script(template, "b", &quiet),
        "run b  open --launcher-type terminal --executable kitty b"
    );
    let unset = LauncherSettings { debug: None, ..quiet };
    assert_eq!(runner_script("{DEBUG_FLAG}", "b", &unset), "");
}

#[test]
fn bridge_name_by_platform() {
    assert_eq!(exe_name(Platform::Linux), "defold-nvim-bridge");
    assert_eq!(exe_name(Platform::MacOs), "defold-nvim-bridge");
    assert_eq!(exe_name(Platform::Windows), "defold-nvim-bridge.exe");
}

#[test]
fn dependency_directories() {
    assert_eq!(ident("abc"), Ok("3a985da7".to_string()));
    let deps = strings(&["https://example.com/a.zip", "abc"]);
    assert_eq!(is_dependency_dir("3a985da7", &deps), Ok(true));
    assert_eq!(is_dependency_dir("3a985da8", &deps), Ok(false));
    assert_eq!(is_dependency_dir("3a985da7", &vec![]), Ok(false));
    assert_eq!(stub_file_name("astar"), "astar.lua");
}

#[test]
fn dependency_must_offer_directories() {
    let project = |library: Option<Library>| GameProject {
        title: "t".to_string(),
        dependencies: vec![],
        library,
    };
    assert_eq!(include_dirs(&project(None)), Err(DependencyError::NoLibrary));
    assert_eq!(
        include_dirs(&project(Some(Library { include_dirs: vec![] }))),
        Err(DependencyError::NoIncludeDirs)
    );
    let with = project(Some(Library { include_dirs: strings(&["a", "b"]) }));
    assert_eq!(include_dirs(&with), Ok(&strings(&["a", "b"])));
}

#[test]
fn words_of_a_text() {
    assert_eq!(split_words("  one two\t\nthree  "), strings(&["one", "two", "three"]));
    assert_eq!(split_words("one"), strings(&["one"]));
    assert!(split_words(" \n ").is_empty());
    assert!(split_words("").is_empty());
    assert_eq!(split_words("a\u{a0}b"), strings(&["a", "b"]));
    assert!(same_texts(&strings(&["a", "b"]), &strings(&["a", "b"])));
    assert!(!same_texts(&strings(&["a", "b"]), &strings(&["a"])));
    assert!(!same_texts(&strings(&["a", "b"]), &strings(&["a", "c"])));
    assert!(str_has_whitespace("a b") && str_has_whitespace("a\tb") && !str_has_whitespace("ab"));
    assert!(str_has_whitespace("a\u{3000}") && !str_has_whitespace(""));
    assert_eq!(str_spaced("a\tb\r\nc \u{a0}d\u{3000}"), "a b \nc  d ");
    assert_eq!(str_spaced("plain text"), "plain text");
    assert_eq!(str_spaced(""), "");
    assert!(str_is_printable("az AZ 09 ~!\t\n") && str_is_printable(""));
    assert!(!str_is_printable("caf\u{e9}") && !str_is_printable("a\u{7}b") && !str_is_printable("\u{7f}"));
}

fn config(
    launcher_type: Option<defold_nvim_core::plugin_config::LauncherType>,
    executable: Option<&str>,
) -> PluginConfig {
    PluginConfig {
        launcher_type,
        socket_type: None,
        executable: executable.map(|e| e.to_string()),
        arguments: None,
    }
}

#[test]
fn launcher_probes_follow_the_settings() {
    let neovide = Some(defold_nvim_core::plugin_config::LauncherType::Neovide);
    let terminal = Some(defold_nvim_core::plugin_config::LauncherType::Terminal);
    assert_eq!(
        create_launcher(&config(neovide, None)),
        vec![Probe::NeovideOnPath, Probe::NeovideInstalled]
    );
    assert_eq!(
        create_launcher(&config(neovide, Some("/opt/nv"))),
        vec![Probe::NeovideGiven("/opt/nv".to_string())]
    );
    assert_eq!(create_launcher(&config(terminal, None)), vec![Probe::TerminalAvailable]);
    assert_eq!(
        create_launcher(&config(terminal, Some("kitty"))),
        vec![
            Probe::TerminalAtPath("kitty".to_string()),
            Probe::TerminalNamed("kitty".to_string()),
            Probe::TerminalAvailable,
        ]
    );
    assert_eq!(
        create_launcher(&config(None, None)),
        vec![Probe::NeovideOnPath, Probe::NeovideInstalled, Probe::TerminalAvailable]
    );
    assert_eq!(
        create_launcher(&config(None, Some("x"))),
        vec![
            Probe::NeovideGiven("x".to_string()),
            Probe::TerminalAtPath("x".to_string()),
            Probe::TerminalNamed("x".to_string()),
            Probe::TerminalAvailable,
        ]
    );
}

#[test]
fn socket_type_by_platform() {
    use_socket(None, Platform::Linux, defold_nvim_core::plugin_config::SocketType::Fsock);
    use_socket(None, Platform::MacOs, defold_nvim_core::plugin_config::SocketType::Fsock);
    use_socket(None, Platform::Windows, defold_nvim_core::plugin_config::SocketType::Netsock);
    use_socket(
        Some(defold_nvim_core::plugin_config::SocketType::Netsock),
        Platform::Linux,
        defold_nvim_core::plugin_config::SocketType::Netsock,
    );
    use_socket(
        Some(defold_nvim_core::plugin_config::SocketType::Fsock),
        Platform::Windows,
        defold_nvim_core::plugin_config::SocketType::Fsock,
    );
}

fn use_socket(
    given: Option<defold_nvim_core::plugin_config::SocketType>,
    platform: Platform,
    expected: defold_nvim_core::plugin_config::SocketType,
) {
    assert_eq!(socket_type(given, platform), expected);
}

#[test]
fn failed_install_falls_back_on_what_is_there() {
    assert_eq!(after_failed_install(Some("/bin/nv".to_string()), true), Some("/bin/nv".to_string()));
    assert_eq!(after_failed_install(Some("/bin/nv".to_string()), false), None);
    assert_eq!(after_failed_install(None::<String>, true), None);
    assert_eq!(after_failed_install(None::<String>, false), None);
}
