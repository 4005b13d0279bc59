use sonaric_desktop::error::{Error, ErrorKind};
use sonaric_desktop::lifecycle::{
    Answer, AnswerKind, Detector, Finding, LifecycleState, Menu, Phase, PlatformTarget, Probe,
    Request, Step,
};
use sonaric_desktop::runner::{CommandResult, Reading};

/// What each probe answers in one test.
struct World {
    binary: Option<&'static str>,
    wsl_version: Result<(bool, &'static str), &'static str>,
    wsl_list: Result<(bool, &'static str), &'static str>,
    wsl_running: Result<(bool, &'static str), &'static str>,
    agent: Result<(bool, &'static str, &'static str), &'static str>,
    latest: Result<&'static str, &'static str>,
    gui: Result<&'static str, &'static str>,
}

fn healthy() -> World {
    World {
        binary: Some("/usr/local/bin/sonaric"),
        wsl_version: Ok((true, "WSL version: 2.0.9.0\r\nKernel version: 5.15\r\n")),
        wsl_list: Ok((true, "Ubuntu-22.04 (Default)\r\n")),
        wsl_running: Ok((true, "Ubuntu-22.04 (Default)\r\n")),
        agent: Ok((true, "CLI version: v1.2.0, built 2024\nDaemon version: v1.2.0, x\n", "")),
        latest: Ok("v1.2.0\n"),
        gui: Ok("<html><title>Sonaric</title></html>"),
    }
}

fn command(r: &Result<(bool, &'static str), &'static str>) -> Answer {
    Answer::Command(match r {
        Ok((success, stdout)) => Ok(CommandResult { exit_success: *success, stdout: stdout.to_string(), stderr: String::new() }),
        Err(reason) => Err(Error::SpawnFailure(reason.to_string())),
    })
}

fn body(r: &Result<&'static str, &'static str>) -> Answer {
    Answer::Body(match r {
        Ok(b) => Ok(b.to_string()),
        Err(reason) => Err(Error::NetworkFailure(reason.to_string())),
    })
}

fn answer(world: &World, probe: Probe) -> Answer {
    match probe {
        Probe::LocateBinary => Answer::Binary(world.binary.map(|b| b.to_string())),
        Probe::WslVersion => command(&world.wsl_version),
        Probe::WslList => command(&world.wsl_list),
        Probe::WslListRunning => command(&world.wsl_running),
        Probe::AgentVersion => Answer::Command(match &world.agent {
            Ok((success, stdout, stderr)) => Ok(CommandResult { exit_success: *success, stdout: stdout.to_string(), stderr: stderr.to_string() }),
            Err(reason) => Err(Error::SpawnFailure(reason.to_string())),
        }),
        Probe::LatestVersion => body(&world.latest),
        Probe::Gui => body(&world.gui),
    }
}

/// Drives a detection through the world and gives its end and the probes
/// that it asked for.
fn detect(platform: PlatformTarget, world: &World) -> (Result<Finding, Error>, Vec<Probe>) {
    let mut detector = Detector::new(platform);
    let mut asked = Vec::new();
    for _ in 0..10 {
        let probe = detector.probe();
        asked.push(probe);
        match detector.answer(answer(world, probe)) {
            Step::Ask(next) => detector = next,
            Step::Done(finding) => return (Ok(finding), asked),
            Step::Failed(e) => return (Err(e), asked),
        }
    }
    panic!("the detection did not end: {:?}", asked);
}

fn finding(platform: PlatformTarget, world: &World) -> Finding {
    detect(platform, world).0.unwrap()
}

const NATIVE: [PlatformTarget; 2] = [PlatformTarget::MacOS, PlatformTarget::LinuxNative];
const ALL: [PlatformTarget; 3] = [PlatformTarget::MacOS, PlatformTarget::LinuxNative, PlatformTarget::WindowsWSL];

#[test]
fn platform_names() {
    assert_eq!(PlatformTarget::from_os("macos"), Some(PlatformTarget::MacOS));
    assert_eq!(PlatformTarget::from_os("linux"), Some(PlatformTarget::LinuxNative));
    assert_eq!(PlatformTarget::from_os("windows"), Some(PlatformTarget::WindowsWSL));
    assert_eq!(PlatformTarget::from_os("freebsd"), None);
    assert_eq!(PlatformTarget::from_os(""), None);
    assert_eq!(PlatformTarget::from_os("Linux"), None);
}

#[test]
fn state_words() {
    assert_eq!(LifecycleState::NeedsInstall.as_str(), "install");
    assert_eq!(LifecycleState::NeedsStart.as_str(), "start");
    assert_eq!(LifecycleState::UpdateAvailable.as_str(), "update");
    assert_eq!(LifecycleState::Ready.as_str(), "OK");
}

#[test]
fn healthy_world_is_ready() {
    for p in NATIVE {
        let (end, asked) = detect(p, &healthy());
        assert_eq!(end.unwrap(), Finding::Healthy);
        assert_eq!(asked, vec![Probe::LocateBinary, Probe::AgentVersion, Probe::LatestVersion, Probe::Gui]);
    }
    let (end, asked) = detect(PlatformTarget::WindowsWSL, &healthy());
    assert_eq!(end.unwrap(), Finding::Healthy);
    assert_eq!(
        asked,
        vec![Probe::WslVersion, Probe::WslList, Probe::WslListRunning, Probe::AgentVersion, Probe::LatestVersion, Probe::Gui]
    );
    assert_eq!(Finding::Healthy.state(), LifecycleState::Ready);
    assert_eq!(Finding::Healthy.menu(), Menu { stop: true, uninstall: true });
}

#[test]
fn agent_not_found_anywhere_needs_install() {
    for p in NATIVE {
        let world = World { binary: None, ..healthy() };
        let (end, asked) = detect(p, &world);
        let f = end.unwrap();
        assert_eq!(f, Finding::BinaryNotFound);
        assert_eq!(f.state(), LifecycleState::NeedsInstall);
        assert_eq!(f.state().as_str(), "install");
        assert_eq!(asked, vec![Probe::LocateBinary]);
        assert_eq!(f.menu(), Menu { stop: false, uninstall: false });
    }
}

#[test]
fn newer_release_means_update_available() {
    for p in ALL {
        let world = World {
            agent: Ok((true, "CLI version: v1.2.0, built ...", "")),
            latest: Ok("v1.3.0"),
            ..healthy()
        };
        let (end, asked) = detect(p, &world);
        let f = end.unwrap();
        assert_eq!(f, Finding::UpdateAvailable);
        assert_eq!(f.state(), LifecycleState::UpdateAvailable);
        assert_eq!(f.state().as_str(), "update");
        assert_eq!(*asked.last().unwrap(), Probe::LatestVersion);
    }
}

#[test]
fn older_release_is_no_update() {
    for p in ALL {
        let world = World { latest: Ok("v1.1.9"), ..healthy() };
        assert_eq!(finding(p, &world), Finding::Healthy);
    }
}

#[test]
fn daemon_not_running_needs_start_whatever_the_version() {
    for p in NATIVE {
        let world = World {
            agent: Ok((false, "CLI version: v1.2.0, built\nError: daemon is not running\n", "")),
            latest: Ok("v9.9.9"),
            ..healthy()
        };
        let (end, asked) = detect(p, &world);
        let f = end.unwrap();
        assert_eq!(f, Finding::DaemonNotRunning);
        assert_eq!(f.state(), LifecycleState::NeedsStart);
        assert_eq!(*asked.last().unwrap(), Probe::AgentVersion);
    }
    let world = World {
        agent: Ok((false, "CLI version: v1.2.0, built\n", "Error: daemon is not running\n")),
        latest: Ok("v9.9.9"),
        ..healthy()
    };
    assert_eq!(finding(PlatformTarget::WindowsWSL, &world), Finding::DaemonNotRunning);
}

#[test]
fn daemon_marker_counts_on_either_stream() {
    let in_stderr = World { agent: Ok((true, "CLI version: v1.2.0, x", "daemon is not running")), latest: Ok("v9.9.9"), ..healthy() };
    let in_stdout = World { agent: Ok((true, "CLI version: v1.2.0, daemon is not running", "")), latest: Ok("v9.9.9"), ..healthy() };
    let alone = World { agent: Ok((false, "daemon is not running", "")), ..healthy() };
    for p in ALL {
        for world in [&in_stderr, &in_stdout, &alone] {
            let (end, asked) = detect(p, world);
            assert_eq!(end.unwrap(), Finding::DaemonNotRunning);
            assert_eq!(*asked.last().unwrap(), Probe::AgentVersion);
        }
    }
}

#[test]
fn output_without_markers_needs_install() {
    for p in ALL {
        let world = World { agent: Ok((false, "bash: sonaric: command not found\n", "")), ..healthy() };
        let f = finding(p, &world);
        assert_eq!(f, Finding::AgentNotInstalled);
        assert_eq!(f.state(), LifecycleState::NeedsInstall);
        assert_eq!(f.menu(), Menu { stop: false, uninstall: true });
    }
}

#[test]
fn gui_failure_degrades_to_start() {
    for p in ALL {
        for gui in [Err("timed out"), Err("connection refused"), Ok("<html>nginx</html>"), Ok("")] {
            let world = World { gui, ..healthy() };
            let (end, asked) = detect(p, &world);
            let f = end.unwrap();
            assert_eq!(f, Finding::GuiUnavailable);
            assert_eq!(f.state(), LifecycleState::NeedsStart);
            assert_eq!(f.state().as_str(), "start");
            assert_eq!(*asked.last().unwrap(), Probe::Gui);
            assert_eq!(f.menu(), Menu { stop: false, uninstall: true });
        }
    }
}

#[test]
fn wsl_absent_needs_install() {
    let world = World { wsl_version: Ok((false, "")), ..healthy() };
    let (end, asked) = detect(PlatformTarget::WindowsWSL, &world);
    let f = end.unwrap();
    assert_eq!(f, Finding::WslMissing);
    assert_eq!(f.state(), LifecycleState::NeedsInstall);
    assert_eq!(asked, vec![Probe::WslVersion]);
    assert_eq!(f.message(), "WSL is not installed");
}

#[test]
fn wsl1_needs_install_with_its_own_message() {
    let world = World { wsl_version: Ok((true, "WSL version: 1.0.3.0\r\nKernel version: 2.1\r\n")), ..healthy() };
    let (end, asked) = detect(PlatformTarget::WindowsWSL, &world);
    let f = end.unwrap();
    assert_eq!(f, Finding::WslOutdated);
    assert_eq!(f.state(), LifecycleState::NeedsInstall);
    assert_eq!(asked, vec![Probe::WslVersion]);
    assert_eq!(f.message(), "WSL2 is not installed");
    assert_ne!(f.message(), Finding::WslMissing.message());
    assert_ne!(f, Finding::WslMissing);
}

#[test]
fn distribution_missing_or_stopped() {
    let world = World { wsl_list: Ok((true, "Debian\r\n")), ..healthy() };
    let f = finding(PlatformTarget::WindowsWSL, &world);
    assert_eq!(f, Finding::DistributionMissing);
    assert_eq!(f.state(), LifecycleState::NeedsInstall);
    let world = World { wsl_list: Ok((false, "Ubuntu-22.04")), ..healthy() };
    assert_eq!(finding(PlatformTarget::WindowsWSL, &world), Finding::DistributionMissing);
    let world = World { wsl_running: Ok((true, "There are no running distributions.\r\n")), ..healthy() };
    let f = finding(PlatformTarget::WindowsWSL, &world);
    assert_eq!(f, Finding::DistributionStopped);
    assert_eq!(f.state(), LifecycleState::NeedsStart);
    assert_eq!(f.menu(), Menu { stop: false, uninstall: false });
}

#[test]
fn failures_of_probes_end_the_detection() {
    let world = World { wsl_version: Err("no cmd"), ..healthy() };
    assert_eq!(detect(PlatformTarget::WindowsWSL, &world).0.unwrap_err().kind(), ErrorKind::SpawnFailure);
    let world = World { wsl_list: Err("no cmd"), ..healthy() };
    assert_eq!(detect(PlatformTarget::WindowsWSL, &world).0.unwrap_err().kind(), ErrorKind::SpawnFailure);
    let world = World { wsl_running: Err("no cmd"), ..healthy() };
    assert_eq!(detect(PlatformTarget::WindowsWSL, &world).0.unwrap_err().kind(), ErrorKind::SpawnFailure);
    for p in ALL {
        let world = World { agent: Err("cannot run"), ..healthy() };
        let e = detect(p, &world).0.unwrap_err();
        assert_eq!(e.kind(), ErrorKind::SpawnFailure);
        assert_eq!(e.message(), "cannot run");
        let world = World { latest: Err("offline"), ..healthy() };
        assert_eq!(detect(p, &world).0.unwrap_err().kind(), ErrorKind::NetworkFailure);
        let world = World { latest: Ok("<html>"), ..healthy() };
        assert_eq!(detect(p, &world).0.unwrap_err().kind(), ErrorKind::InvalidVersion);
        let world = World { agent: Ok((true, "version 1.2.0", "")), ..healthy() };
        assert_eq!(detect(p, &world).0.unwrap_err().kind(), ErrorKind::MarkerNotFound);
        let world = World { agent: Ok((true, "CLI version: vX, y", "")), ..healthy() };
        assert_eq!(detect(p, &world).0.unwrap_err().kind(), ErrorKind::InvalidVersion);
    }
}

#[test]
fn an_answer_of_the_wrong_kind_is_ignored() {
    let d = Detector::new(PlatformTarget::LinuxNative);
    let d = match d.answer(Answer::Body(Ok("x".to_string()))) {
        Step::Ask(next) => next,
        other => panic!("{:?}", other),
    };
    assert_eq!(d.probe(), Probe::LocateBinary);
    let d = match d.answer(Answer::Command(Err(Error::SpawnFailure("x".to_string())))) {
        Step::Ask(next) => next,
        other => panic!("{:?}", other),
    };
    assert_eq!(d.probe(), Probe::LocateBinary);
    let d = match d.answer(Answer::Binary(Some("/bin/sonaric".to_string()))) {
        Step::Ask(next) => next,
        other => panic!("{:?}", other),
    };
    assert_eq!(d.probe(), Probe::AgentVersion);
    assert_eq!(d.binary.as_deref(), Some("/bin/sonaric"));
    let d = match d.answer(Answer::Binary(None)) {
        Step::Ask(next) => next,
        other => panic!("{:?}", other),
    };
    assert_eq!(d.probe(), Probe::AgentVersion);
}

#[test]
fn requests_say_what_to_do() {
    let d = Detector::new(PlatformTarget::MacOS);
    assert!(matches!(d.request(), Request::Locate));
    assert_eq!(d.menu(), Menu { stop: false, uninstall: false });
    let d = match d.answer(Answer::Binary(Some("/opt/homebrew/bin/sonaric".to_string()))) {
        Step::Ask(next) => next,
        other => panic!("{:?}", other),
    };
    assert_eq!(d.menu(), Menu { stop: false, uninstall: true });
    match d.request() {
        Request::Run(i) => {
            assert_eq!(i.program, "/opt/homebrew/bin/sonaric");
            assert_eq!(i.args, vec!["version"]);
            assert_eq!(i.reading, Reading::Lines);
        }
        other => panic!("{:?}", other),
    }
    let w = Detector::new(PlatformTarget::WindowsWSL);
    match w.request() {
        Request::Run(i) => assert_eq!(i.args, vec!["/C", "wsl", "--version"]),
        other => panic!("{:?}", other),
    }
    let w = Detector { platform: PlatformTarget::WindowsWSL, phase: Phase::AgentVersion, binary: None };
    match w.request() {
        Request::Run(i) => {
            assert_eq!(i.program, "cmd");
            assert_eq!(i.args[2], "--distribution");
            assert_eq!(i.reading, Reading::Utf8Streams);
        }
        other => panic!("{:?}", other),
    }
    let g = Detector { platform: PlatformTarget::LinuxNative, phase: Phase::Gui, binary: None };
    match g.request() {
        Request::Fetch(url) => assert_eq!(url, "http://localhost:44004"),
        other => panic!("{:?}", other),
    }
    let l = Detector {
        platform: PlatformTarget::LinuxNative,
        phase: Phase::LatestVersion(sonaric_desktop::version::Version::new(1, 0, 0)),
        binary: None,
    };
    match l.request() {
        Request::Fetch(url) => assert_eq!(url, "https://storage.googleapis.com/sonaric-releases/stable/linux/latest-version"),
        other => panic!("{:?}", other),
    }
}

#[test]
fn probes_take_answers_of_their_kind() {
    assert_eq!(Probe::LocateBinary.answer_kind(), AnswerKind::Binary);
    for p in [Probe::WslVersion, Probe::WslList, Probe::WslListRunning, Probe::AgentVersion] {
        assert_eq!(p.answer_kind(), AnswerKind::Command);
    }
    assert_eq!(Probe::LatestVersion.answer_kind(), AnswerKind::Body);
    assert_eq!(Probe::Gui.answer_kind(), AnswerKind::Body);
}

#[test]
fn every_finding_has_its_state() {
    let install = [Finding::BinaryNotFound, Finding::WslMissing, Finding::WslOutdated, Finding::DistributionMissing, Finding::AgentNotInstalled];
    for f in install {
        assert_eq!(f.state(), LifecycleState::NeedsInstall);
    }
    for f in [Finding::DistributionStopped, Finding::DaemonNotRunning, Finding::GuiUnavailable] {
        assert_eq!(f.state(), LifecycleState::NeedsStart);
    }
    assert_eq!(Finding::UpdateAvailable.state(), LifecycleState::UpdateAvailable);
    assert_eq!(Finding::Healthy.state(), LifecycleState::Ready);
}

#[test]
fn the_error_of_a_probe_is_handed_on_as_it_came() {
    let failure = || Error::NonZeroExit { tail_lines: vec!["a".to_string(), "b".to_string()], code: Some(7) };
    let phases = [
        (PlatformTarget::WindowsWSL, Phase::WslVersion),
        (PlatformTarget::WindowsWSL, Phase::WslList),
        (PlatformTarget::WindowsWSL, Phase::WslListRunning),
        (PlatformTarget::WindowsWSL, Phase::AgentVersion),
        (PlatformTarget::LinuxNative, Phase::AgentVersion),
    ];
    for (platform, phase) in phases {
        let d = Detector { platform, phase, binary: None };
        match d.answer(Answer::Command(Err(failure()))) {
            Step::Failed(Error::NonZeroExit { tail_lines, code }) => {
                assert_eq!(tail_lines, vec!["a", "b"]);
                assert_eq!(code, Some(7));
            }
            other => panic!("{:?}", other),
        }
    }
    let d = Detector {
        platform: PlatformTarget::MacOS,
        phase: Phase::LatestVersion(sonaric_desktop::version::Version::new(1, 0, 0)),
        binary: None,
    };
    match d.answer(Answer::Body(Err(Error::NetworkFailure("dns: no such host".to_string())))) {
        Step::Failed(e) => {
            assert_eq!(e.kind(), ErrorKind::NetworkFailure);
            assert_eq!(e.message(), "dns: no such host");
        }
        other => panic!("{:?}", other),
    }
}

#[test]
fn a_missing_marker_is_named_by_the_detection() {
    let d = Detector { platform: PlatformTarget::LinuxNative, phase: Phase::AgentVersion, binary: None };
    let said = CommandResult { exit_success: true, stdout: "CLI version: v1.2.0 and no end".to_string(), stderr: String::new() };
    match d.answer(Answer::Command(Ok(said))) {
        Step::Failed(e) => assert_eq!(e.message(), "Version end not found"),
        other => panic!("{:?}", other),
    }
    let d = Detector { platform: PlatformTarget::LinuxNative, phase: Phase::AgentVersion, binary: None };
    let said = CommandResult { exit_success: true, stdout: "version 1.2.0, x".to_string(), stderr: String::new() };
    match d.answer(Answer::Command(Ok(said))) {
        Step::Failed(e) => assert_eq!(e.message(), "Version start not found"),
        other => panic!("{:?}", other),
    }
}
