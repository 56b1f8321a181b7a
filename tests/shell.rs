use shell::command::{keyword, Builtin, Keyword, ParseError, ShellCmd};
use shell::path::{join_path, resolve_in, split_search_path, SearchDir};
use shell::repl::{dispatch, echo_line, type_reply, Effect, Event, Phase, Repl};
use shell::tokens::{parse_code, tokenize};

fn strings(ws: &[&str]) -> Vec<String> {
    ws.iter().map(|w| w.to_string()).collect()
}

/// A session that has shown its first prompt.
fn reading() -> Repl {
    let mut r = Repl::new();
    assert_eq!(r.step(Event::Ready), Effect::Prompt);
    r
}

fn line(r: &mut Repl, s: &str) -> Effect {
    let ev = Event::Line(s.to_string());
    assert!(r.accepts(&ev));
    r.step(ev)
}

#[test]
fn tokenize_splits_on_runs_of_whitespace() {
    assert_eq!(tokenize("  echo\thello \r\n  world  "), strings(&["echo", "hello", "world"]));
    assert_eq!(tokenize(""), Vec::<String>::new());
    assert_eq!(tokenize(" \t\r\n"), Vec::<String>::new());
    assert_eq!(tokenize("héllo wörld"), strings(&["héllo", "wörld"]));
}

#[test]
fn parse_code_reads_decimal_codes() {
    assert_eq!(parse_code("0"), Some(0));
    assert_eq!(parse_code("007"), Some(7));
    assert_eq!(parse_code("2147483647"), Some(2147483647));
    assert_eq!(parse_code("2147483648"), None);
    assert_eq!(parse_code("99999999999"), None);
    assert_eq!(parse_code(""), None);
    assert_eq!(parse_code("-1"), None);
    assert_eq!(parse_code("12a"), None);
}

#[test]
fn parse_exit_without_code_is_zero() {
    assert_eq!(
        ShellCmd::parser("exit"),
        Ok(ShellCmd::Builtin(Builtin::Exit { code: 0 }))
    );
}

#[test]
fn parse_exit_with_code() {
    assert_eq!(
        ShellCmd::parser("exit 7"),
        Ok(ShellCmd::Builtin(Builtin::Exit { code: 7 }))
    );
}

#[test]
fn parse_builtins() {
    assert_eq!(
        ShellCmd::parser("echo a  b"),
        Ok(ShellCmd::Builtin(Builtin::Echo { text: strings(&["a", "b"]) }))
    );
    assert_eq!(
        ShellCmd::parser("echo"),
        Ok(ShellCmd::Builtin(Builtin::Echo { text: vec![] }))
    );
    assert_eq!(
        ShellCmd::parser("type ls"),
        Ok(ShellCmd::Builtin(Builtin::Type { cmd: "ls".to_string() }))
    );
    assert_eq!(ShellCmd::parser("  pwd "), Ok(ShellCmd::Builtin(Builtin::Pwd)));
    assert_eq!(
        ShellCmd::parser("cd /tmp"),
        Ok(ShellCmd::Builtin(Builtin::Cd { dir: "/tmp".to_string() }))
    );
}

#[test]
fn parse_unknown_command() {
    assert_eq!(
        ShellCmd::parser("ls -l  /tmp"),
        Ok(ShellCmd::Unknown { cmd: "ls".to_string(), args: strings(&["-l", "/tmp"]) })
    );
    // keywords match whole words only, and case matters
    assert_eq!(
        ShellCmd::parser("echoing x"),
        Ok(ShellCmd::Unknown { cmd: "echoing".to_string(), args: strings(&["x"]) })
    );
    assert_eq!(
        ShellCmd::parser("EXIT"),
        Ok(ShellCmd::Unknown { cmd: "EXIT".to_string(), args: vec![] })
    );
}

#[test]
fn parse_errors() {
    assert_eq!(ShellCmd::parser("   "), Err(ParseError::Empty));
    assert_eq!(ShellCmd::parser("exit abc"), Err(ParseError::InvalidExitCode));
    assert_eq!(ShellCmd::parser("exit 99999999999"), Err(ParseError::InvalidExitCode));
    assert_eq!(ShellCmd::parser("exit 1 2"), Err(ParseError::TooManyArguments(Keyword::Exit)));
    assert_eq!(ShellCmd::parser("type"), Err(ParseError::MissingArgument(Keyword::Type)));
    assert_eq!(ShellCmd::parser("type a b"), Err(ParseError::TooManyArguments(Keyword::Type)));
    assert_eq!(ShellCmd::parser("pwd x"), Err(ParseError::TooManyArguments(Keyword::Pwd)));
    assert_eq!(ShellCmd::parser("cd"), Err(ParseError::MissingArgument(Keyword::Cd)));
    assert_eq!(ShellCmd::parser("cd a b"), Err(ParseError::TooManyArguments(Keyword::Cd)));
}

#[test]
fn parse_error_messages() {
    assert_eq!(ParseError::Empty.message(), "");
    assert_eq!(ParseError::InvalidExitCode.message(), "exit: numeric argument required\n");
    assert_eq!(ParseError::MissingArgument(Keyword::Cd).message(), "cd: missing argument\n");
    assert_eq!(
        ParseError::TooManyArguments(Keyword::Pwd).message(),
        "pwd: too many arguments\n"
    );
}

#[test]
fn builtin_parser_leaves_other_words() {
    assert_eq!(Builtin::parser(&strings(&["ls"])), None);
    assert_eq!(Builtin::parser(&vec![]), None);
    assert_eq!(Builtin::parser(&strings(&["pwd"])), Some(Ok(Builtin::Pwd)));
    assert_eq!(keyword("type"), Some(Keyword::Type));
    assert_eq!(keyword("typed"), None);
}

#[test]
fn dispatch_exit_terminates() {
    let (p, e) = dispatch(ShellCmd::Builtin(Builtin::Exit { code: 0 }));
    assert_eq!(p, Phase::Terminated { code: 0 });
    assert_eq!(e, Effect::Exit(0));
    let (p, e) = dispatch(ShellCmd::Builtin(Builtin::Exit { code: 7 }));
    assert_eq!(p, Phase::Terminated { code: 7 });
    assert_eq!(e, Effect::Exit(7));
}

#[test]
fn echo_writes_words_joined() {
    assert_eq!(echo_line(&strings(&["a", "bc", "d"])), "a bc d\n");
    assert_eq!(echo_line(&strings(&["one"])), "one\n");
    assert_eq!(echo_line(&vec![]), "\n");
    let (p, e) = dispatch(ShellCmd::Builtin(Builtin::Echo { text: strings(&["x", "y"]) }));
    assert_eq!(p, Phase::Idle);
    assert_eq!(e, Effect::Write("x y\n".to_string()));
}

#[test]
fn search_path_splits_on_colons() {
    assert_eq!(split_search_path("/bin:/usr/bin"), strings(&["/bin", "/usr/bin"]));
    assert_eq!(split_search_path(""), strings(&[""]));
    assert_eq!(split_search_path("a::b:"), strings(&["a", "", "b", ""]));
}

#[test]
fn join_path_puts_one_separator() {
    assert_eq!(join_path("/usr/bin", "ls"), "/usr/bin/ls");
    assert_eq!(join_path("/usr/bin/", "ls"), "/usr/bin/ls");
    assert_eq!(join_path("", "ls"), "ls");
}

fn listing() -> Vec<SearchDir> {
    vec![
        SearchDir { path: "/nope".to_string(), entries: None },
        SearchDir { path: "/bin".to_string(), entries: Some(strings(&["cat", "sh"])) },
        SearchDir { path: "/usr/bin".to_string(), entries: Some(strings(&["ls", "sh"])) },
    ]
}

#[test]
fn resolution_takes_first_listing_directory() {
    let dirs = listing();
    assert_eq!(resolve_in("sh", &dirs), Some("/bin/sh".to_string()));
    assert_eq!(resolve_in("ls", &dirs), Some("/usr/bin/ls".to_string()));
    assert_eq!(resolve_in("nonexistent_cmd_xyz", &dirs), None);
    assert_eq!(resolve_in("ls", &vec![]), None);
}

#[test]
fn resolution_is_repeatable() {
    let dirs = listing();
    let first = resolve_in("ls", &dirs);
    let second = resolve_in("ls", &dirs);
    assert_eq!(first, second);
    assert_eq!(resolve_in("zz", &dirs), resolve_in("zz", &dirs));
}

#[test]
fn type_reply_forms() {
    assert_eq!(type_reply("pwd", None), "pwd is a shell builtin\n");
    assert_eq!(type_reply("ls", Some("/bin/ls".to_string())), "ls is /bin/ls\n");
    assert_eq!(type_reply("zz", None), "zz: not found\n");
}

#[test]
fn blank_lines_only_reprompt() {
    let mut r = reading();
    for s in ["", " ", "\t \r\n", "    "] {
        assert_eq!(line(&mut r, s), Effect::Prompt);
        assert_eq!(r.phase, Phase::Reading);
    }
}

#[test]
fn scenario_echo() {
    let mut r = reading();
    assert_eq!(line(&mut r, "echo hello   world"), Effect::Write("hello world\n".to_string()));
    assert_eq!(r.step(Event::Ready), Effect::Prompt);
}

#[test]
fn scenario_command_not_found() {
    let mut r = reading();
    assert_eq!(line(&mut r, "nonexistent_cmd_xyz"), Effect::Resolve("nonexistent_cmd_xyz".to_string()));
    assert_eq!(
        r.step(Event::Resolved(None)),
        Effect::Write("nonexistent_cmd_xyz: command not found\n".to_string())
    );
    assert_eq!(r.step(Event::Ready), Effect::Prompt);
    assert!(!r.is_terminated());
}

#[test]
fn scenario_exit_code() {
    let mut r = reading();
    assert_eq!(line(&mut r, "exit 3"), Effect::Exit(3));
    assert!(r.is_terminated());
    assert_eq!(r.step(Event::Ready), Effect::Exit(3));
    assert_eq!(r.step(Event::Line("echo x".to_string())), Effect::Exit(3));
}

#[test]
fn scenario_type_builtin() {
    let mut r = reading();
    assert_eq!(line(&mut r, "type pwd"), Effect::Write("pwd is a shell builtin\n".to_string()));
}

#[test]
fn type_external_and_missing() {
    let mut r = reading();
    assert_eq!(line(&mut r, "type ls"), Effect::Resolve("ls".to_string()));
    assert_eq!(
        r.step(Event::Resolved(Some("/bin/ls".to_string()))),
        Effect::Write("ls is /bin/ls\n".to_string())
    );
    assert_eq!(r.step(Event::Ready), Effect::Prompt);
    assert_eq!(line(&mut r, "type zz"), Effect::Resolve("zz".to_string()));
    assert_eq!(r.step(Event::Resolved(None)), Effect::Write("zz: not found\n".to_string()));
}

#[test]
fn cd_existing_and_missing() {
    let mut r = reading();
    assert_eq!(line(&mut r, "cd /tmp"), Effect::CheckDir("/tmp".to_string()));
    assert_eq!(r.step(Event::IsDir(true)), Effect::ChangeDir("/tmp".to_string()));
    assert_eq!(r.step(Event::Ready), Effect::Prompt);
    assert_eq!(line(&mut r, "cd /no/such"), Effect::CheckDir("/no/such".to_string()));
    assert_eq!(
        r.step(Event::IsDir(false)),
        Effect::Write("/no/such: No such file or directory\n".to_string())
    );
    assert_eq!(r.step(Event::Ready), Effect::Prompt);
    assert_eq!(line(&mut r, "cd /root"), Effect::CheckDir("/root".to_string()));
    assert_eq!(r.step(Event::IsDir(true)), Effect::ChangeDir("/root".to_string()));
    assert_eq!(
        r.step(Event::Failed("Permission denied".to_string())),
        Effect::Write("/root: Permission denied\n".to_string())
    );
}

#[test]
fn pwd_writes_working_directory() {
    let mut r = reading();
    assert_eq!(line(&mut r, "pwd"), Effect::QueryCwd);
    assert_eq!(r.step(Event::Cwd("/home/u".to_string())), Effect::Write("/home/u\n".to_string()));
}

#[test]
fn external_command_runs_and_reports_failure() {
    let mut r = reading();
    assert_eq!(line(&mut r, "ls -a"), Effect::Resolve("ls".to_string()));
    assert_eq!(
        r.step(Event::Resolved(Some("/bin/ls".to_string()))),
        Effect::Launch { path: "/bin/ls".to_string(), args: strings(&["-a"]) }
    );
    assert_eq!(r.step(Event::Ready), Effect::Prompt);
    line(&mut r, "ls");
    r.step(Event::Resolved(Some("/bin/ls".to_string())));
    assert_eq!(
        r.step(Event::Failed("Permission denied".to_string())),
        Effect::Write("ls: Permission denied\n".to_string())
    );
}

#[test]
fn parse_error_is_reported_and_loop_continues() {
    let mut r = reading();
    assert_eq!(line(&mut r, "exit abc"), Effect::Write("exit: numeric argument required\n".to_string()));
    assert!(!r.is_terminated());
    assert_eq!(r.step(Event::Ready), Effect::Prompt);
}

#[test]
fn end_of_input_ends_with_status_zero() {
    let mut r = reading();
    assert!(r.accepts(&Event::Eof));
    assert!(!r.accepts(&Event::Ready));
    assert_eq!(r.step(Event::Eof), Effect::Exit(0));
    assert!(r.is_terminated());
}

#[test]
fn echo_round_trip() {
    let ws = strings(&["alpha", "b", "γ"]);
    let line = format!("echo {}", ws.join(" "));
    match ShellCmd::parser(&line) {
        Ok(ShellCmd::Builtin(Builtin::Echo { text })) => {
            assert_eq!(text, ws);
            assert_eq!(echo_line(&text), "alpha b γ\n");
        }
        other => panic!("unexpected parse: {other:?}"),
    }
}
