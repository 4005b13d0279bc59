use sonaric_desktop::error::{Error, ErrorKind, RetryableCondition};
use sonaric_desktop::probe::{
    agent_version_command, check_gui, distribution_listed, find_sonaric_binary, first_line_of,
    is_wsl2, is_wsl_running, search_candidates, split_text, wsl2_from_match, wsl_installed,
    WslCall, GUI_URL, GUI_VERSION_URL, WSL2_PATTERN,
};
use sonaric_desktop::runner::{CommandResult, Reading};

fn result(success: bool, stdout: &str) -> CommandResult {
    CommandResult { exit_success: success, stdout: stdout.to_string(), stderr: String::new() }
}

fn parts(s: &str, sep: char) -> Vec<String> {
    let chars: Vec<char> = s.chars().collect();
    split_text(&chars, sep).into_iter().map(|p| p.into_iter().collect()).collect()
}

#[test]
fn first_line_agrees_with_std() {
    for s in ["", "a", "a\nb", "a\r\nb", "\n", "\r\n", "a\r", "a\rb\nc", "\nabc", "x\r\r\ny", "é€\nz"] {
        assert_eq!(first_line_of(s), s.lines().next().map(|l| l.to_string()), "{:?}", s);
    }
}

#[test]
fn wsl2_is_recognised_by_the_first_line() {
    assert_eq!(WSL2_PATTERN, r"^.+ 2\..+$");
    assert!(is_wsl2("WSL version: 2.0.9.0\r\nKernel version: 5.15.133.1-1\r\n"));
    assert!(is_wsl2("WSL-Version: 2.1.5.0"));
    assert!(is_wsl2("x 2.y"));
    assert!(!is_wsl2("WSL version: 1.0.0.0\r\nKernel version: 2.1\r\n"));
    assert!(!is_wsl2(""));
    assert!(!is_wsl2("\r\nWSL version: 2.0.9.0"));
    assert!(!is_wsl2(" 2.1"));
    assert!(!is_wsl2("WSL version: 2."));
    assert!(!is_wsl2("WSL version:2.1"));
    assert!(!is_wsl2("2.0.9.0"));
    assert!(!is_wsl2("version 2,0"));
}

#[test]
fn wsl2_needs_a_match() {
    assert!(wsl2_from_match(Some(true)));
    assert!(!wsl2_from_match(Some(false)));
    assert!(!wsl2_from_match(None));
}

#[test]
fn distribution_has_to_be_listed_by_a_successful_call() {
    assert!(distribution_listed(&result(true, "Windows Subsystem for Linux Distributions:\r\nUbuntu-22.04 (Default)\r\n")));
    assert!(!distribution_listed(&result(false, "Ubuntu-22.04")));
    assert!(!distribution_listed(&result(true, "Ubuntu-20.04\r\nDebian")));
    assert!(!distribution_listed(&result(true, "")));
}

#[test]
fn wsl_runs_only_if_both_queries_say_so() {
    let ok = |s: &str| -> Result<CommandResult, Error> { Ok(result(true, s)) };
    let failed = |s: &str| -> Result<CommandResult, Error> { Ok(result(false, s)) };
    let broken = || -> Result<CommandResult, Error> { Err(Error::SpawnFailure("no cmd".to_string())) };
    assert!(is_wsl_running(&ok("WSL version: 2.0"), &ok("Ubuntu-22.04")));
    assert!(!is_wsl_running(&failed(""), &ok("Ubuntu-22.04")));
    assert!(!is_wsl_running(&broken(), &ok("Ubuntu-22.04")));
    assert!(!is_wsl_running(&ok("x"), &failed("Ubuntu-22.04")));
    assert!(!is_wsl_running(&ok("x"), &ok("Debian")));
    assert!(!is_wsl_running(&ok("x"), &broken()));
    assert!(wsl_installed(&ok("")));
    assert!(!wsl_installed(&failed("")));
    assert!(!wsl_installed(&broken()));
}

#[test]
fn gui_is_there_when_it_names_itself() {
    assert_eq!(check_gui(Ok("<title>Sonaric</title>".to_string())).unwrap(), "OK");
    assert_eq!(check_gui(Ok("Sonaric".to_string())).unwrap(), "OK");
}

#[test]
fn gui_without_its_marker_is_not_available_yet() {
    for body in ["<title>nginx</title>", "", "sonaric", "Sonari c"] {
        let e = check_gui(Ok(body.to_string())).unwrap_err();
        assert!(matches!(e, Error::RetryError(RetryableCondition::GuiUnavailable)), "{:?}", body);
        assert_eq!(e.kind(), ErrorKind::Retry(RetryableCondition::GuiUnavailable));
        assert!(e.retryable());
        assert_eq!(e.message(), "GUI is not available");
    }
}

#[test]
fn gui_request_that_failed_is_not_available_yet() {
    let failures = [
        Error::NetworkFailure("connection refused".to_string()),
        Error::NetworkFailure("timed out".to_string()),
        Error::SpawnFailure("x".to_string()),
    ];
    for failure in failures {
        let e = check_gui(Err(failure)).unwrap_err();
        assert!(matches!(e, Error::RetryError(RetryableCondition::GuiUnavailable)));
        assert!(e.retryable());
        assert_eq!(e.message(), "GUI is not available");
    }
}

#[test]
fn split_agrees_with_std() {
    for s in ["", ":", "a", "a:b", "a::b", ":a:", "/usr/bin:/bin", "::"] {
        let want: Vec<String> = s.split(':').map(|p| p.to_string()).collect();
        assert_eq!(parts(s, ':'), want, "{:?}", s);
    }
}

#[test]
fn candidates_follow_the_search_path_then_the_fallbacks() {
    let c = search_candidates(Some("/home/u/bin:/opt/x/:"));
    assert_eq!(
        c,
        vec![
            "/home/u/bin/sonaric",
            "/opt/x/sonaric",
            "sonaric",
            "/usr/local/bin/sonaric",
            "/usr/bin/sonaric",
            "/opt/homebrew/bin/sonaric",
        ]
    );
    let none = search_candidates(None);
    assert_eq!(none, vec!["/usr/local/bin/sonaric", "/usr/bin/sonaric", "/opt/homebrew/bin/sonaric"]);
    let empty = search_candidates(Some(""));
    assert_eq!(empty.len(), 4);
    assert_eq!(empty[0], "sonaric");
}

#[test]
fn candidates_agree_with_path_join() {
    for dir in ["/usr/bin", "/usr/bin/", "", "rel", "/", "a/b/"] {
        let want = std::path::Path::new(dir).join("sonaric");
        assert_eq!(search_candidates(Some(dir))[0], want.to_str().unwrap(), "{:?}", dir);
    }
}

#[test]
fn binary_in_the_search_path_wins_over_fallbacks() {
    let path = Some("/a:/b");
    assert_eq!(find_sonaric_binary(path, &vec![false, true, true, true, true]), Some("/b/sonaric".to_string()));
    assert_eq!(find_sonaric_binary(path, &vec![true, true, false, false, false]), Some("/a/sonaric".to_string()));
    assert_eq!(find_sonaric_binary(path, &vec![false, false, false, true, true]), Some("/usr/bin/sonaric".to_string()));
    assert_eq!(find_sonaric_binary(path, &vec![false, false, false, false, true]), Some("/opt/homebrew/bin/sonaric".to_string()));
    assert_eq!(find_sonaric_binary(path, &vec![false, false, false, false, false]), None);
    assert_eq!(find_sonaric_binary(None, &vec![true]), Some("/usr/local/bin/sonaric".to_string()));
    assert_eq!(find_sonaric_binary(None, &vec![false, false, false]), None);
}

#[test]
fn flags_that_are_missing_or_too_many_count_as_absent() {
    assert_eq!(find_sonaric_binary(Some("/a"), &vec![]), None);
    assert_eq!(find_sonaric_binary(Some("/a"), &vec![false]), None);
    assert_eq!(find_sonaric_binary(None, &vec![false, false, false, true]), None);
}

#[test]
fn wsl_command_lines() {
    let v = WslCall::Version.invocation();
    assert_eq!(v.program, "cmd");
    assert_eq!(v.args, vec!["/C", "wsl", "--version"]);
    assert_eq!(v.reading, Reading::Utf16Output);
    assert_eq!(WslCall::List.invocation().args, vec!["/C", "wsl", "--list"]);
    assert_eq!(WslCall::ListRunning.invocation().args, vec!["/C", "wsl", "--list", "--running"]);
    assert_eq!(WslCall::Terminate.invocation().args, vec!["/C", "wsl", "--terminate", "Ubuntu-22.04"]);
    assert_eq!(WslCall::Unregister.invocation().args, vec!["/C", "wsl", "--unregister", "Ubuntu-22.04"]);
    let a = WslCall::AgentVersion.invocation();
    assert_eq!(
        a.args,
        vec!["/C", "wsl", "--distribution", "Ubuntu-22.04", "--user", "root", "--exec", "/bin/bash", "-c", "sonaric version"]
    );
    assert_eq!(a.reading, Reading::Utf8Streams);
    assert!(!a.options.enforce_zero_exit);
}

#[test]
fn agent_command_line_and_addresses() {
    let i = agent_version_command("/usr/local/bin/sonaric");
    assert_eq!(i.program, "/usr/local/bin/sonaric");
    assert_eq!(i.args, vec!["version"]);
    assert!(i.options.capture_combined_stderr);
    assert!(!i.options.enforce_zero_exit);
    assert!(!i.options.emit_line_sink);
    assert_eq!(i.reading, Reading::Lines);
    assert_eq!(GUI_URL, "http://localhost:44004");
    assert_eq!(GUI_VERSION_URL, "http://127.0.0.1:44005/version");
}
