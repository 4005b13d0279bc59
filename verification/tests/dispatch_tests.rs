use sonaric_desktop::dispatch::{
    create_desktop_entry, desktop_entry, desktop_entry_path, get_resource_path, Action, Advance,
    Dispatcher, Launcher, Prompt, Reply, Stage, Task,
};
use sonaric_desktop::error::{Error, ErrorKind, RetryableCondition};
use sonaric_desktop::lifecycle::PlatformTarget;
use sonaric_desktop::probe::WslCall;
use sonaric_desktop::runner::CommandResult;

fn ran(success: bool, stdout: &str) -> Reply {
    Reply::Command(Ok(CommandResult { exit_success: success, stdout: stdout.to_string(), stderr: String::new() }))
}

fn failed(code: i32) -> Reply {
    Reply::Command(Err(Error::NonZeroExit { tail_lines: vec!["boom".to_string()], code: Some(code) }))
}

fn next(a: Advance) -> Dispatcher {
    match a {
        Advance::Next(d) => d,
        other => panic!("{:?}", other),
    }
}

fn end(a: Advance) -> Result<String, Error> {
    match a {
        Advance::Finished(r) => r,
        other => panic!("{:?}", other),
    }
}

const ACTIONS: [Action; 3] = [Action::Install, Action::Stop, Action::Uninstall];

#[test]
fn mac_runs_the_script_with_bash() {
    for (action, resource) in [(Action::Install, "res/install-mac.sh"), (Action::Stop, "res/stop-mac.sh"), (Action::Uninstall, "res/uninstall-mac.sh")] {
        let d = Dispatcher::new(action, PlatformTarget::MacOS, "/x.AppImage", "/home/u");
        assert_eq!(d.task(), Task::RunScript);
        assert_eq!(d.resource(), resource);
        assert_eq!(d.launcher(), Launcher::Bash);
        let i = d.launcher().invocation("/res/s.sh");
        assert_eq!(i.program, "bash");
        assert_eq!(i.args, vec!["/res/s.sh"]);
        assert!(i.options.emit_line_sink && i.options.enforce_zero_exit);
        assert_eq!(end(d.reply(ran(true, "installed\n"))).unwrap(), "installed\n");
        let e = end(d.reply(failed(126))).unwrap_err();
        assert_eq!(e.kind(), ErrorKind::NonZeroExit(Some(126)));
    }
}

#[test]
fn linux_runs_the_script_elevated() {
    for (action, resource, temp) in [
        (Action::Install, "res/install-linux.sh", "sonaric-install.sh"),
        (Action::Stop, "res/stop-linux.sh", "sonaric-stop.sh"),
        (Action::Uninstall, "res/uninstall-linux.sh", "sonaric-remove.sh"),
    ] {
        let d = Dispatcher::new(action, PlatformTarget::LinuxNative, "", "/home/u");
        assert_eq!(d.task(), Task::RunScript);
        assert_eq!(d.resource(), resource);
        assert_eq!(d.temp_name(), temp);
        assert_eq!(d.launcher(), Launcher::Elevated);
        let i = d.launcher().invocation("/tmp/s.sh");
        assert_eq!(i.program, "/usr/bin/pkexec");
        assert_eq!(i.args, vec!["/usr/bin/sh", "/tmp/s.sh"]);
        assert_eq!(end(d.reply(ran(true, "ok\n"))).unwrap(), "ok\n");
        let e = end(d.reply(failed(126))).unwrap_err();
        assert!(matches!(e, Error::RetryError(RetryableCondition::PermissionDenied)));
        let e = end(d.reply(failed(1))).unwrap_err();
        assert_eq!(e.kind(), ErrorKind::NonZeroExit(Some(1)));
        assert_eq!(e.message(), "command execution failed:\n\nboom");
    }
}

#[test]
fn linux_shortcut_is_a_side_step() {
    let d = Dispatcher::new(Action::Install, PlatformTarget::LinuxNative, "/x.AppImage", "");
    assert_eq!(d.stage, Stage::Shortcut);
    assert_eq!(d.task(), Task::CreateShortcut);
    for reply in [Reply::Attempted, Reply::Confirmed(false), Reply::Command(Err(Error::SpawnFailure("x".to_string())))] {
        let after = next(d.reply(reply));
        assert_eq!(after.task(), Task::RunScript);
        assert_eq!(after.action, Action::Install);
    }
    let d = Dispatcher::new(Action::Uninstall, PlatformTarget::LinuxNative, "/x.AppImage", "/home/u");
    assert_eq!(d.task(), Task::RemoveShortcut);
    assert_eq!(next(d.reply(Reply::Attempted)).task(), Task::RunScript);
    assert_eq!(Dispatcher::new(Action::Uninstall, PlatformTarget::LinuxNative, "/x.AppImage", "").task(), Task::RunScript);
    assert_eq!(Dispatcher::new(Action::Uninstall, PlatformTarget::LinuxNative, "", "/home/u").task(), Task::RunScript);
    assert_eq!(Dispatcher::new(Action::Stop, PlatformTarget::LinuxNative, "/x.AppImage", "/home/u").task(), Task::RunScript);
    assert_eq!(Dispatcher::new(Action::Install, PlatformTarget::MacOS, "/x.AppImage", "/home/u").task(), Task::RunScript);
}

#[test]
fn windows_install_needs_wsl2() {
    let d = Dispatcher::new(Action::Install, PlatformTarget::WindowsWSL, "", "");
    assert_eq!(d.task(), Task::Call(WslCall::Version));
    let e = end(d.reply(ran(false, ""))).unwrap_err();
    assert_eq!(e.kind(), ErrorKind::WslMissing);
    assert_eq!(
        e.message(),
        "It looks like WSL is not installed. Please install WSL from Microsoft Store (https://aka.ms/wslstorepage) and try again."
    );
    let e = end(d.reply(ran(true, "WSL version: 1.0.0\r\n"))).unwrap_err();
    assert_eq!(e.kind(), ErrorKind::WslOutdated);
    assert_eq!(
        e.message(),
        "It looks like you are using WSL 1. Please upgrade to WSL 2 (https://aka.ms/wslstorepage) and try again."
    );
    let e = end(d.reply(Reply::Command(Err(Error::SpawnFailure("no cmd".to_string()))))).unwrap_err();
    assert_eq!(e.kind(), ErrorKind::SpawnFailure);
    let s = next(d.reply(ran(true, "WSL version: 2.0.9.0\r\n")));
    assert_eq!(s.task(), Task::RunScript);
    assert_eq!(s.resource(), "res/install-win.bat");
    assert_eq!(s.launcher(), Launcher::WindowsShell);
    let i = s.launcher().invocation("C:\\res\\install-win.bat");
    assert_eq!(i.program, "cmd");
    assert_eq!(i.args, vec!["/C", "C:\\res\\install-win.bat"]);
    assert_eq!(end(s.reply(ran(true, "done\r\n"))).unwrap(), "done\r\n");
    assert_eq!(end(s.reply(failed(126))).unwrap_err().kind(), ErrorKind::NonZeroExit(Some(126)));
}

#[test]
fn windows_stop_asks_before_it_terminates() {
    let d = Dispatcher::new(Action::Stop, PlatformTarget::WindowsWSL, "", "");
    assert_eq!(d.task(), Task::Call(WslCall::ListRunning));
    assert_eq!(end(d.reply(ran(true, "none"))).unwrap(), "WSL distribution is not running");
    assert_eq!(end(d.reply(ran(false, "Ubuntu-22.04"))).unwrap(), "WSL distribution is not running");
    let s = next(d.reply(ran(true, "Ubuntu-22.04\r\n")));
    assert_eq!(s.task(), Task::RunScript);
    assert_eq!(s.resource(), "res/stop-win.bat");
    assert_eq!(end(s.reply(failed(1))).unwrap_err().kind(), ErrorKind::NonZeroExit(Some(1)));
    let c = next(s.reply(ran(true, "stopped")));
    assert_eq!(c.task(), Task::Confirm(Prompt::Terminate));
    assert_eq!(Prompt::Terminate.question(), "Terminate Ubuntu-22.04 distribution in WSL?");
    assert_eq!(Prompt::heading(), "WSL confirmation");
    assert_eq!(end(c.reply(Reply::Confirmed(false))).unwrap(), "Successfully stopped");
    let t = next(c.reply(Reply::Confirmed(true)));
    assert_eq!(t.task(), Task::Call(WslCall::Terminate));
    assert_eq!(end(t.reply(ran(true, ""))).unwrap(), "Successfully stopped");
    let e = end(t.reply(ran(false, ""))).unwrap_err();
    assert_eq!(e.kind(), ErrorKind::TerminateFailed);
    assert_eq!(e.message(), "Failed to terminate WSL distribution");
    assert_eq!(end(t.reply(Reply::Command(Err(Error::SpawnFailure("x".to_string()))))).unwrap_err().kind(), ErrorKind::SpawnFailure);
}

#[test]
fn windows_uninstall_asks_before_it_unregisters() {
    let d = Dispatcher::new(Action::Uninstall, PlatformTarget::WindowsWSL, "", "");
    assert_eq!(d.task(), Task::Call(WslCall::List));
    assert_eq!(end(d.reply(ran(true, "Debian"))).unwrap(), "WSL distribution is not installed");
    let s = next(d.reply(ran(true, "Ubuntu-22.04\r\n")));
    assert_eq!(s.resource(), "res/uninstall-win.bat");
    let c = next(s.reply(ran(true, "removed")));
    assert_eq!(c.task(), Task::Confirm(Prompt::Unregister));
    assert_eq!(
        Prompt::Unregister.question(),
        "Unregister Ubuntu-22.04 distribution from WSL?\nCaution: Once unregistered, all data, settings, and software associated with that distribution will be permanently lost"
    );
    assert_eq!(end(c.reply(Reply::Confirmed(false))).unwrap(), "Successfully uninstalled");
    let t = next(c.reply(Reply::Confirmed(true)));
    assert_eq!(t.task(), Task::Call(WslCall::Unregister));
    assert_eq!(end(t.reply(ran(true, ""))).unwrap(), "Successfully uninstalled");
    let e = end(t.reply(ran(false, ""))).unwrap_err();
    assert_eq!(e.kind(), ErrorKind::UnregisterFailed);
    assert_eq!(e.message(), "Failed to unregister WSL distribution");
}

#[test]
fn a_reply_of_the_wrong_kind_changes_nothing() {
    for action in ACTIONS {
        let d = Dispatcher::new(action, PlatformTarget::WindowsWSL, "", "");
        assert_eq!(next(d.reply(Reply::Confirmed(true))), d);
        assert_eq!(next(d.reply(Reply::Attempted)), d);
        let c = Dispatcher { action, platform: PlatformTarget::WindowsWSL, stage: Stage::Confirm };
        assert_eq!(next(c.reply(ran(true, ""))), c);
        assert_eq!(next(c.reply(Reply::Attempted)), c);
        let s = Dispatcher { action, platform: PlatformTarget::MacOS, stage: Stage::Script };
        assert_eq!(next(s.reply(Reply::Confirmed(true))), s);
    }
}

#[test]
fn resource_paths() {
    assert_eq!(get_resource_path(Some("/app/res/install-mac.sh"), PlatformTarget::MacOS).unwrap(), "/app/res/install-mac.sh");
    assert_eq!(get_resource_path(Some("\\\\?\\C:\\app\\res\\x.bat"), PlatformTarget::WindowsWSL).unwrap(), "C:\\app\\res\\x.bat");
    assert_eq!(get_resource_path(Some("C:\\app\\res\\x.bat"), PlatformTarget::WindowsWSL).unwrap(), "C:\\app\\res\\x.bat");
    assert_eq!(get_resource_path(Some("\\\\?\\C:\\x"), PlatformTarget::LinuxNative).unwrap(), "\\\\?\\C:\\x");
    let e = get_resource_path(None, PlatformTarget::LinuxNative).unwrap_err();
    assert_eq!(e.kind(), ErrorKind::InvalidPath);
    assert_eq!(e.message(), "Invalid install path");
}

#[test]
fn desktop_entry_files() {
    assert_eq!(desktop_entry_path("/home/u"), "/home/u/.local/share/applications/sonaric.desktop");
    assert_eq!(desktop_entry_path(""), "/.local/share/applications/sonaric.desktop");
    assert_eq!(
        desktop_entry("/home/u/Sonaric.AppImage", "/home/u/.config/sonaric/icon.png"),
        "[Desktop Entry]\nName=Sonaric\nExec=/home/u/Sonaric.AppImage\nIcon=/home/u/.config/sonaric/icon.png\nType=Application\nCategories="
    );
    assert!(create_desktop_entry(false, true));
    assert!(!create_desktop_entry(true, true));
    assert!(!create_desktop_entry(false, false));
    assert!(!create_desktop_entry(true, false));
}

#[test]
fn the_error_of_a_command_is_handed_on_as_it_came() {
    let failure = |code: i32| Reply::Command(Err(Error::NonZeroExit { tail_lines: vec!["x".to_string(), "y".to_string()], code: Some(code) }));
    let spawn = || Reply::Command(Err(Error::SpawnFailure("no such file".to_string())));
    for action in ACTIONS {
        for platform in [PlatformTarget::MacOS, PlatformTarget::LinuxNative, PlatformTarget::WindowsWSL] {
            for stage in [Stage::Query, Stage::Script, Stage::Destroy] {
                let d = Dispatcher { action, platform, stage };
                match end(d.reply(failure(7))).unwrap_err() {
                    Error::NonZeroExit { tail_lines, code } => {
                        assert_eq!(tail_lines, vec!["x", "y"]);
                        assert_eq!(code, Some(7));
                    }
                    other => panic!("{:?}", other),
                }
                assert_eq!(end(d.reply(spawn())).unwrap_err().message(), "no such file");
                let refused = end(d.reply(failure(126))).unwrap_err();
                if platform == PlatformTarget::LinuxNative && stage == Stage::Script {
                    assert!(matches!(refused, Error::RetryError(RetryableCondition::PermissionDenied)));
                } else {
                    assert_eq!(refused.kind(), ErrorKind::NonZeroExit(Some(126)));
                    assert_eq!(refused.message(), "command execution failed:\n\nx\ny");
                }
            }
        }
    }
}
