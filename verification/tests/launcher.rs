use k_launcher::domain::LaunchAction;
use k_launcher::launcher::{
    known_terminal, parse_term_cmd, program_invocation, resolve_terminal, LaunchPlan,
    TerminalEnv, UnixAppLauncher, KNOWN_TERMINAL_COUNT,
};
use k_launcher::text::{split_words, trim};

fn env(term_cmd: Option<&str>, terminal: Option<&str>, installed: &[bool]) -> TerminalEnv {
    TerminalEnv {
        term_cmd: term_cmd.map(|s| s.to_string()),
        terminal: terminal.map(|s| s.to_string()),
        installed: installed.to_vec(),
    }
}

#[test]
fn parse_term_cmd_splits_program_and_flags() {
    let t = parse_term_cmd("  kitty   -e  ");
    assert_eq!(t.bin, "kitty");
    assert_eq!(t.exec_flag, vec!["-e"]);
}

#[test]
fn parse_term_cmd_of_blank_is_empty() {
    let t = parse_term_cmd("   ");
    assert_eq!(t.bin, "");
    assert!(t.exec_flag.is_empty());
}

#[test]
fn configured_terminal_wins() {
    let t = resolve_terminal(Some("foot --app-id x -e"), &env(Some("kitty -e"), Some("xterm"), &[true; 7])).unwrap();
    assert_eq!(t.bin, "foot");
    assert_eq!(t.exec_flag, vec!["--app-id", "x", "-e"]);
}

#[test]
fn blank_configured_terminal_falls_through_to_term_cmd() {
    let t = resolve_terminal(Some("  "), &env(Some("  wezterm start "), None, &[])).unwrap();
    assert_eq!(t.bin, "wezterm");
    assert_eq!(t.exec_flag, vec!["start"]);
}

#[test]
fn terminal_variable_runs_with_dash_e() {
    let t = resolve_terminal(None, &env(Some(""), Some(" alacritty "), &[])).unwrap();
    assert_eq!(t.bin, "alacritty");
    assert_eq!(t.exec_flag, vec!["-e"]);
}

#[test]
fn first_installed_known_terminal_is_used() {
    let t = resolve_terminal(None, &env(None, Some(" "), &[false, false, false, false, true, true, false])).unwrap();
    assert_eq!(t.bin, "wezterm");
    assert_eq!(t.exec_flag, vec!["start"]);
}

#[test]
fn no_terminal_found() {
    assert!(resolve_terminal(None, &env(None, None, &[false; 7])).is_none());
    assert!(resolve_terminal(None, &env(None, None, &[])).is_none());
}

#[test]
fn known_terminals_in_order() {
    let names: Vec<&str> = (0..KNOWN_TERMINAL_COUNT).map(|i| known_terminal(i).0).collect();
    assert_eq!(names, vec!["ghostty", "foot", "kitty", "alacritty", "wezterm", "konsole", "xterm"]);
    assert_eq!(known_terminal(4).1, "start");
    assert_eq!(known_terminal(0).1, "-e");
}

#[test]
fn plan_spawn_process_splits_command_line() {
    let l = UnixAppLauncher::new(None);
    match l.plan(&LaunchAction::SpawnProcess(r#""My App" --flag"#.to_string()), &env(None, None, &[])) {
        LaunchPlan::Detached(inv) => {
            assert_eq!(inv.program, "My App");
            assert_eq!(inv.args, vec!["--flag"]);
        }
        _ => panic!("expected a detached program"),
    }
}

#[test]
fn plan_empty_command_starts_nothing() {
    let l = UnixAppLauncher::default();
    assert!(matches!(
        l.plan(&LaunchAction::SpawnProcess("   ".to_string()), &env(None, None, &[])),
        LaunchPlan::Nothing
    ));
    assert!(program_invocation("").is_none());
}

#[test]
fn plan_terminal_command_wraps_in_sh() {
    let l = UnixAppLauncher::new(Some("kitty -e".to_string()));
    assert_eq!(l.terminal_cmd(), Some("kitty -e"));
    match l.plan(&LaunchAction::SpawnInTerminal("htop -d 5".to_string()), &env(None, None, &[])) {
        LaunchPlan::Detached(inv) => {
            assert_eq!(inv.program, "kitty");
            assert_eq!(inv.args, vec!["-e", "sh", "-c", "htop -d 5"]);
        }
        _ => panic!("expected a detached terminal"),
    }
}

#[test]
fn plan_terminal_command_without_terminal_starts_nothing() {
    let l = UnixAppLauncher::new(None);
    assert!(matches!(
        l.plan(&LaunchAction::SpawnInTerminal("htop".to_string()), &env(None, None, &[false; 7])),
        LaunchPlan::Nothing
    ));
}

#[test]
fn plan_open_path_uses_xdg_open() {
    let l = UnixAppLauncher::new(None);
    match l.plan(&LaunchAction::OpenPath("/home/user".to_string()), &env(None, None, &[])) {
        LaunchPlan::Open(inv) => {
            assert_eq!(inv.program, "xdg-open");
            assert_eq!(inv.args, vec!["/home/user"]);
        }
        _ => panic!("expected xdg-open"),
    }
}

#[test]
fn plan_copy_uses_wl_copy_then_xclip() {
    let l = UnixAppLauncher::new(None);
    match l.plan(&LaunchAction::CopyToClipboard("4".to_string()), &env(None, None, &[])) {
        LaunchPlan::Copy { primary, fallback, input } => {
            assert_eq!(primary.program, "wl-copy");
            assert_eq!(primary.args, vec!["4"]);
            assert_eq!(fallback.program, "xclip");
            assert_eq!(fallback.args, vec!["-selection", "clipboard"]);
            assert_eq!(input, "4");
        }
        _ => panic!("expected a clipboard plan"),
    }
}

#[test]
fn trim_strips_unicode_whitespace() {
    assert_eq!(trim("\u{a0} kitty -e\t\n"), "kitty -e");
    assert_eq!(trim("   "), "");
    assert_eq!(trim("x"), "x");
}

#[test]
fn split_words_ignores_quotes() {
    assert_eq!(split_words(r#" "a b" c "#), vec![r#""a"#, r#"b""#, "c"]);
}
