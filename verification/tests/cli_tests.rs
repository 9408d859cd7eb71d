use rsh::cli::ProgramStatus;
use rsh::cli::Selection;
use rsh::cli::choice_index;
use rsh::cli::exec_argv;
use rsh::cli::is_login_command;
use rsh::cli::join_semicolon;
use rsh::cli::parse_escape_char;
use rsh::cli::script_wrap;
use rsh::cli::select_container;
use rsh::cli::send_env_exports;
use rsh::cli::shell_quote;
use rsh::cli::split_path;
use rsh::cli::stty_hint;
use rsh::cli::tty_policy;
use rsh::options::Container;
use rsh::options::RequestTTY;
use rsh::pattern::Pattern;
use rsh::pattern::PatternList;

#[test]
fn program_status_codes() {
    assert_eq!(ProgramStatus::Success.exit_code(), 0);
    assert_eq!(ProgramStatus::SuccessWithHelp.exit_code(), 0);
    assert_eq!(ProgramStatus::Failure.exit_code(), 1);
    assert_eq!(ProgramStatus::FailureWithHelp.exit_code(), 1);
    assert!(ProgramStatus::SuccessWithHelp.wants_help());
    assert!(ProgramStatus::FailureWithHelp.wants_help());
    assert!(!ProgramStatus::Success.wants_help());
}

#[test]
fn tty_policy_matrix() {
    assert!(tty_policy(RequestTTY::Force, false, false));
    assert!(!tty_policy(RequestTTY::No, true, true));
    assert!(tty_policy(RequestTTY::Yes, false, true));
    assert!(!tty_policy(RequestTTY::Yes, false, false));
    assert!(tty_policy(RequestTTY::Auto, true, true));
    assert!(!tty_policy(RequestTTY::Auto, false, true));
    assert!(!tty_policy(RequestTTY::Auto, true, false));
}

#[test]
fn login_command_detection() {
    assert!(is_login_command("login -p -f root"));
    assert!(is_login_command("login -p -f "));
    assert!(!is_login_command("bash"));
    assert!(!is_login_command("login -p"));
}

#[test]
fn container_selection_matrix() {
    assert_eq!(select_container(Container::First, 5, true), Selection::UseFirst);
    assert_eq!(select_container(Container::Auto, 1, true), Selection::UseFirst);
    assert_eq!(select_container(Container::Auto, 2, false), Selection::UseFirst);
    assert_eq!(select_container(Container::Auto, 2, true), Selection::PromptMenu);
    assert_eq!(select_container(Container::Menu, 1, false), Selection::PromptMenu);
}

#[test]
fn menu_answers_are_one_based() {
    assert_eq!(choice_index(1, 3), Some(0));
    assert_eq!(choice_index(3, 3), Some(2));
    assert_eq!(choice_index(0, 3), None);
    assert_eq!(choice_index(4, 3), None);
}

#[test]
fn path_split_shapes() {
    let s = |v: &[&str]| v.iter().map(|s| s.to_string()).collect::<Vec<_>>();
    assert_eq!(split_path(s(&[])), Ok((None, None, None)));
    assert_eq!(split_path(s(&[""])), Ok((None, None, None)));
    assert_eq!(
        split_path(s(&["web"])),
        Ok((None, None, Some("web".to_string())))
    );
    assert_eq!(
        split_path(s(&["app", "web"])),
        Ok((None, Some("app".to_string()), Some("web".to_string())))
    );
    assert_eq!(
        split_path(s(&["prod", "app", "web"])),
        Ok((
            Some("prod".to_string()),
            Some("app".to_string()),
            Some("web".to_string())
        ))
    );
    assert!(split_path(s(&["a", "b", "c", "d"])).is_err());
}

#[test]
fn escape_setting_is_validated() {
    assert_eq!(parse_escape_char("none"), Ok(None));
    assert_eq!(parse_escape_char("~"), Ok(Some('~')));
    assert_eq!(parse_escape_char("^"), Ok(Some('^')));
    assert!(parse_escape_char("ab").is_err());
    assert!(parse_escape_char("").is_err());
    assert!(parse_escape_char("\u{e9}").is_err());
}

#[test]
fn shell_quoting_matches_the_shell_rules() {
    assert_eq!(shell_quote("abc-123"), "abc-123");
    assert_eq!(shell_quote("a b"), "'a b'");
    assert_eq!(shell_quote("a'b"), "'a'\\''b'");
    assert_eq!(shell_quote(""), "''");
    assert_eq!(shell_quote("a!b"), "'a'\\!'b'");
}

#[test]
fn env_exports_follow_the_send_list() {
    let vars = vec![
        ("TERM".to_string(), "xterm-256color".to_string()),
        ("SECRET".to_string(), "x".to_string()),
        ("LANG".to_string(), "C".to_string()),
    ];
    let send = PatternList::from_patterns(vec![
        Pattern::from_str("TERM").unwrap(),
        Pattern::from_str("LANG").unwrap(),
    ]);
    let parts = send_env_exports(&vars, &send);
    assert_eq!(
        parts,
        vec![
            "TERM=xterm-256color".to_string(),
            "export TERM".to_string(),
            "LANG=C".to_string(),
            "export LANG".to_string(),
        ]
    );
}

#[test]
fn sizing_hint_is_exact() {
    assert_eq!(stty_hint(80, 24), "stty cols 80 rows 24");
    assert_eq!(stty_hint(132, 43), "stty cols 132 rows 43");
}

#[test]
fn script_wrap_is_exact() {
    assert_eq!(
        script_wrap("login -p -f root"),
        "([ -x /usr/bin/script ] && /usr/bin/script -q -c 'login -p -f root' /dev/null || exec login -p -f root)"
    );
}

#[test]
fn joining_and_argv() {
    let parts = vec!["a=1".to_string(), "export a".to_string(), "bash".to_string()];
    assert_eq!(join_semicolon(&parts), "a=1; export a; bash");
    assert_eq!(join_semicolon(&vec![]), "");
    assert_eq!(join_semicolon(&vec!["x".to_string()]), "x");
    let argv = exec_argv("a; b".to_string());
    assert_eq!(argv, vec!["/bin/sh".to_string(), "-c".to_string(), "a; b".to_string()]);
}
