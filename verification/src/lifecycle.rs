//! The lifecycle state machine: from the answers of the probes of a platform
//! to one of four states. It asks for one probe at a time and never acts
//! itself; whoever drives it performs the probe and hands the answer back.

use crate::error::{Error, ErrorKind, Failure, Marker, ParseError};
use crate::probe::{
    agent_version_command, body_outcome, check_gui, distribution_listed, gui_probe, is_wsl2,
    lists_distribution, shows_wsl2, WslCall, AGENT_BINARY, GUI_URL, LATEST_VERSION_URL,
    VERSION_COMMAND,
};
use crate::runner::{streamed, CommandModel, CommandResult, Invocation, InvocationModel};
use crate::text::{contains, find, str_contains};
use crate::version::{
    get_latest_version, installed, installed_version, newer, version_of_body, Version,
    VersionModel, VERSION_MARKER,
};
use vstd::prelude::*;
use vstd::string::*;

verus! {

/// The operating environment of this run.
#[derive(Clone, Copy, Debug, PartialEq, Eq, Structural)]
pub enum PlatformTarget {
    MacOS,
    LinuxNative,
    WindowsWSL,
}

/// Where the agent and its GUI stand.
#[derive(Clone, Copy, Debug, PartialEq, Eq, Structural)]
pub enum LifecycleState {
    NeedsInstall,
    NeedsStart,
    UpdateAvailable,
    Ready,
}

/// What the detection found: the reason for the state.
#[derive(Clone, Copy, Debug, PartialEq, Eq, Structural)]
pub enum Finding {
    /// The agent's binary is in none of the places searched.
    BinaryNotFound,
    /// WSL is absent.
    WslMissing,
    /// WSL is there, but not in version 2.
    WslOutdated,
    /// WSL 2 is there, but not the distribution that hosts the agent.
    DistributionMissing,
    /// The distribution is there and does not run.
    DistributionStopped,
    /// The agent answers that its daemon is not running.
    DaemonNotRunning,
    /// The agent's version command prints no version.
    AgentNotInstalled,
    /// A version newer than the agent's is published.
    UpdateAvailable,
    /// The agent is up to date, and the local GUI has not identified itself.
    GuiUnavailable,
    /// The agent is up to date, and the local GUI is there.
    Healthy,
}

/// Which entries of the menu can be chosen.
#[derive(Clone, Copy, Debug, PartialEq, Eq, Structural)]
pub struct Menu {
    pub stop: bool,
    pub uninstall: bool,
}

/// What the state machine asks for.
#[derive(Clone, Copy, Debug, PartialEq, Eq, Structural)]
pub enum Probe {
    /// Where is the agent's binary?
    LocateBinary,
    /// What does `wsl --version` answer?
    WslVersion,
    /// What does `wsl --list` answer?
    WslList,
    /// What does `wsl --list --running` answer?
    WslListRunning,
    /// What does the agent's version command answer?
    AgentVersion,
    /// What does the release endpoint answer?
    LatestVersion,
    /// What does the local GUI answer?
    Gui,
}

/// The kind of answer that a probe takes.
#[derive(Clone, Copy, Debug, PartialEq, Eq, Structural)]
pub enum AnswerKind {
    Binary,
    Command,
    Body,
}

/// The answer to a probe.
#[derive(Debug)]
pub enum Answer {
    /// Where the binary is, if anywhere.
    Binary(Option<String>),
    /// The result of a command.
    Command(Result<CommandResult, Error>),
    /// The body of the response to a request.
    Body(Result<String, Error>),
}

/// What an `Answer` stands for.
pub enum AnswerModel {
    Binary(Option<Seq<char>>),
    Command(Result<CommandModel, ErrorKind>),
    Body(Result<Seq<char>, ErrorKind>),
}

impl View for Answer {
    type V = AnswerModel;

    open spec fn view(&self) -> AnswerModel {
        match self {
            Answer::Binary(Some(place)) => AnswerModel::Binary(Some(place@)),
            Answer::Binary(None) => AnswerModel::Binary(None),
            Answer::Command(Ok(c)) => AnswerModel::Command(Ok(c@)),
            Answer::Command(Err(e)) => AnswerModel::Command(Err(e.spec_kind())),
            Answer::Body(Ok(b)) => AnswerModel::Body(Ok(b@)),
            Answer::Body(Err(e)) => AnswerModel::Body(Err(e.spec_kind())),
        }
    }
}

impl PlatformTarget {
    /// The platform that the name `os` of an operating system stands for.
    pub open spec fn named(os: Seq<char>) -> Option<PlatformTarget> {
        if os == "macos"@ {
            Some(PlatformTarget::MacOS)
        } else if os == "linux"@ {
            Some(PlatformTarget::LinuxNative)
        } else if os == "windows"@ {
            Some(PlatformTarget::WindowsWSL)
        } else {
            None
        }
    }

    /// The platform that the name `os` of an operating system stands for;
    /// none where this library does not support the system.
    pub fn from_os(os: &str) -> (r: Option<PlatformTarget>)
        ensures
            r == PlatformTarget::named(os@),
    {
        if crate::text::same_text(os, "macos") {
            Some(PlatformTarget::MacOS)
        } else if crate::text::same_text(os, "linux") {
            Some(PlatformTarget::LinuxNative)
        } else if crate::text::same_text(os, "windows") {
            Some(PlatformTarget::WindowsWSL)
        } else {
            None
        }
    }

    /// Whether the agent runs in a virtual shell rather than on the host.
    pub open spec fn is_virtualized(self) -> bool {
        self == PlatformTarget::WindowsWSL
    }
}

impl LifecycleState {
    /// The word by which the state is known to the front-end.
    pub open spec fn word(self) -> Seq<char> {
        match self {
            LifecycleState::NeedsInstall => "install"@,
            LifecycleState::NeedsStart => "start"@,
            LifecycleState::UpdateAvailable => "update"@,
            LifecycleState::Ready => "OK"@,
        }
    }

    /// The word by which the state is known to the front-end.
    pub fn as_str(&self) -> (r: String)
        ensures
            r@ == self.word(),
    {
        match self {
            LifecycleState::NeedsInstall => "install".to_owned(),
            LifecycleState::NeedsStart => "start".to_owned(),
            LifecycleState::UpdateAvailable => "update".to_owned(),
            LifecycleState::Ready => "OK".to_owned(),
        }
    }
}

impl Finding {
    /// The state that the finding puts the agent in.
    pub open spec fn spec_state(&self) -> LifecycleState {
        match self {
            Finding::BinaryNotFound => LifecycleState::NeedsInstall,
            Finding::WslMissing => LifecycleState::NeedsInstall,
            Finding::WslOutdated => LifecycleState::NeedsInstall,
            Finding::DistributionMissing => LifecycleState::NeedsInstall,
            Finding::AgentNotInstalled => LifecycleState::NeedsInstall,
            Finding::DistributionStopped => LifecycleState::NeedsStart,
            Finding::DaemonNotRunning => LifecycleState::NeedsStart,
            Finding::GuiUnavailable => LifecycleState::NeedsStart,
            Finding::UpdateAvailable => LifecycleState::UpdateAvailable,
            Finding::Healthy => LifecycleState::Ready,
        }
    }

    /// The state that the finding puts the agent in.
    #[verifier::when_used_as_spec(spec_state)]
    pub fn state(&self) -> (r: LifecycleState)
        ensures
            r == self.spec_state(),
    {
        match self {
            Finding::BinaryNotFound => LifecycleState::NeedsInstall,
            Finding::WslMissing => LifecycleState::NeedsInstall,
            Finding::WslOutdated => LifecycleState::NeedsInstall,
            Finding::DistributionMissing => LifecycleState::NeedsInstall,
            Finding::AgentNotInstalled => LifecycleState::NeedsInstall,
            Finding::DistributionStopped => LifecycleState::NeedsStart,
            Finding::DaemonNotRunning => LifecycleState::NeedsStart,
            Finding::GuiUnavailable => LifecycleState::NeedsStart,
            Finding::UpdateAvailable => LifecycleState::UpdateAvailable,
            Finding::Healthy => LifecycleState::Ready,
        }
    }

    /// Whether the finding was made with the agent's runtime in place: its
    /// binary found, or its distribution running.
    pub open spec fn has_runtime(&self) -> bool {
        match self {
            Finding::BinaryNotFound => false,
            Finding::WslMissing => false,
            Finding::WslOutdated => false,
            Finding::DistributionMissing => false,
            Finding::DistributionStopped => false,
            _ => true,
        }
    }

    /// The menu that goes with the finding: the agent can be uninstalled once
    /// its runtime is in place, and stopped once all is well.
    pub open spec fn spec_menu(&self) -> Menu {
        Menu { stop: *self == Finding::Healthy, uninstall: self.has_runtime() }
    }

    /// The menu that goes with the finding.
    #[verifier::when_used_as_spec(spec_menu)]
    pub fn menu(&self) -> (r: Menu)
        ensures
            r == self.spec_menu(),
    {
        let uninstall = match self {
            Finding::BinaryNotFound => false,
            Finding::WslMissing => false,
            Finding::WslOutdated => false,
            Finding::DistributionMissing => false,
            Finding::DistributionStopped => false,
            _ => true,
        };
        let stop = match self {
            Finding::Healthy => true,
            _ => false,
        };
        Menu { stop, uninstall }
    }

    /// What the finding says, in words.
    pub open spec fn text(&self) -> Seq<char> {
        match self {
            Finding::BinaryNotFound => "Sonaric binary not found"@,
            Finding::WslMissing => "WSL is not installed"@,
            Finding::WslOutdated => "WSL2 is not installed"@,
            Finding::DistributionMissing => "Ubuntu-22.04 is not installed"@,
            Finding::DistributionStopped => "Ubuntu-22.04 is not running"@,
            Finding::DaemonNotRunning => "Sonaric daemon is not running"@,
            Finding::AgentNotInstalled => "Sonaric is not installed"@,
            Finding::UpdateAvailable => "Update available"@,
            Finding::GuiUnavailable => "GUI is not available"@,
            Finding::Healthy => "OK"@,
        }
    }

    /// What the finding says, in words.
    pub fn message(&self) -> (r: String)
        ensures
            r@ == self.text(),
    {
        match self {
            Finding::BinaryNotFound => "Sonaric binary not found".to_owned(),
            Finding::WslMissing => "WSL is not installed".to_owned(),
            Finding::WslOutdated => "WSL2 is not installed".to_owned(),
            Finding::DistributionMissing => "Ubuntu-22.04 is not installed".to_owned(),
            Finding::DistributionStopped => "Ubuntu-22.04 is not running".to_owned(),
            Finding::DaemonNotRunning => "Sonaric daemon is not running".to_owned(),
            Finding::AgentNotInstalled => "Sonaric is not installed".to_owned(),
            Finding::UpdateAvailable => "Update available".to_owned(),
            Finding::GuiUnavailable => "GUI is not available".to_owned(),
            Finding::Healthy => "OK".to_owned(),
        }
    }
}

impl Probe {
    /// The kind of answer that the probe takes.
    pub open spec fn spec_answer_kind(&self) -> AnswerKind {
        match self {
            Probe::LocateBinary => AnswerKind::Binary,
            Probe::WslVersion => AnswerKind::Command,
            Probe::WslList => AnswerKind::Command,
            Probe::WslListRunning => AnswerKind::Command,
            Probe::AgentVersion => AnswerKind::Command,
            Probe::LatestVersion => AnswerKind::Body,
            Probe::Gui => AnswerKind::Body,
        }
    }

    /// The kind of answer that the probe takes.
    #[verifier::when_used_as_spec(spec_answer_kind)]
    pub fn answer_kind(&self) -> (r: AnswerKind)
        ensures
            r == self.spec_answer_kind(),
    {
        match self {
            Probe::LocateBinary => AnswerKind::Binary,
            Probe::WslVersion => AnswerKind::Command,
            Probe::WslList => AnswerKind::Command,
            Probe::WslListRunning => AnswerKind::Command,
            Probe::AgentVersion => AnswerKind::Command,
            Probe::LatestVersion => AnswerKind::Body,
            Probe::Gui => AnswerKind::Body,
        }
    }
}

/// What the agent prints when its daemon does not run.
pub const DAEMON_DOWN_MARKER: &'static str = "daemon is not running";

/// Whether the agent says, in what its version command gave, that its
/// daemon does not run: the marker stands in the output, on whichever of the
/// two streams it came.
pub open spec fn says_daemon_down(answer: CommandModel) -> bool {
    contains(answer.stdout, DAEMON_DOWN_MARKER@) || contains(answer.stderr, DAEMON_DOWN_MARKER@)
}

/// How far a detection has come: the probe that it waits for and, while it
/// waits for the latest version, the version of the agent.
#[derive(Debug)]
pub enum Phase {
    LocateBinary,
    WslVersion,
    WslList,
    WslListRunning,
    AgentVersion,
    LatestVersion(Version),
    Gui,
}

/// What a `Phase` stands for.
pub enum PhaseModel {
    LocateBinary,
    WslVersion,
    WslList,
    WslListRunning,
    AgentVersion,
    LatestVersion(VersionModel),
    Gui,
}

impl View for Phase {
    type V = PhaseModel;

    open spec fn view(&self) -> PhaseModel {
        match self {
            Phase::LocateBinary => PhaseModel::LocateBinary,
            Phase::WslVersion => PhaseModel::WslVersion,
            Phase::WslList => PhaseModel::WslList,
            Phase::WslListRunning => PhaseModel::WslListRunning,
            Phase::AgentVersion => PhaseModel::AgentVersion,
            Phase::LatestVersion(v) => PhaseModel::LatestVersion(v@),
            Phase::Gui => PhaseModel::Gui,
        }
    }
}

impl PhaseModel {
    /// The probe that the phase waits for.
    pub open spec fn probe(self) -> Probe {
        match self {
            PhaseModel::LocateBinary => Probe::LocateBinary,
            PhaseModel::WslVersion => Probe::WslVersion,
            PhaseModel::WslList => Probe::WslList,
            PhaseModel::WslListRunning => Probe::WslListRunning,
            PhaseModel::AgentVersion => Probe::AgentVersion,
            PhaseModel::LatestVersion(_) => Probe::LatestVersion,
            PhaseModel::Gui => Probe::Gui,
        }
    }

    /// Whether the agent's runtime is in place in this phase: its binary
    /// found, or its distribution running.
    pub open spec fn has_runtime(self) -> bool {
        match self {
            PhaseModel::AgentVersion => true,
            PhaseModel::LatestVersion(_) => true,
            PhaseModel::Gui => true,
            _ => false,
        }
    }
}

/// A detection under way.
#[derive(Debug)]
pub struct Detector {
    pub platform: PlatformTarget,
    pub phase: Phase,
    /// Where the agent's binary was found, once it was.
    pub binary: Option<String>,
}

/// What a `Detector` stands for.
pub struct DetectorModel {
    pub platform: PlatformTarget,
    pub phase: PhaseModel,
    pub binary: Option<Seq<char>>,
}

impl View for Detector {
    type V = DetectorModel;

    open spec fn view(&self) -> DetectorModel {
        DetectorModel {
            platform: self.platform,
            phase: self.phase@,
            binary: match self.binary {
                Some(place) => Some(place@),
                None => None,
            },
        }
    }
}

/// What a detection does next.
#[derive(Debug)]
pub enum Step {
    /// It asks for the probe of the detector's phase.
    Ask(Detector),
    /// It has come to a finding.
    Done(Finding),
    /// A probe failed in a way that says nothing of the agent.
    Failed(Error),
}

/// What a `Step` stands for.
pub enum StepModel {
    Ask(DetectorModel),
    Done(Finding),
    Failed(ErrorKind),
}

impl View for Step {
    type V = StepModel;

    open spec fn view(&self) -> StepModel {
        match self {
            Step::Ask(d) => StepModel::Ask(d@),
            Step::Done(f) => StepModel::Done(*f),
            Step::Failed(e) => StepModel::Failed(e.spec_kind()),
        }
    }
}

impl DetectorModel {
    /// A detection on `platform` that has asked nothing yet.
    pub open spec fn initial(platform: PlatformTarget) -> DetectorModel {
        DetectorModel {
            platform,
            phase: if platform.is_virtualized() {
                PhaseModel::WslVersion
            } else {
                PhaseModel::LocateBinary
            },
            binary: None,
        }
    }

    /// The same detection in the phase `phase`.
    pub open spec fn at(self, phase: PhaseModel) -> DetectorModel {
        DetectorModel { platform: self.platform, phase, binary: self.binary }
    }

    /// After the search for the binary: without one the agent needs
    /// installing; with one its version is asked for.
    pub open spec fn after_locate(self, found: Option<Seq<char>>) -> StepModel {
        match found {
            None => StepModel::Done(Finding::BinaryNotFound),
            Some(place) => StepModel::Ask(
                DetectorModel {
                    platform: self.platform,
                    phase: PhaseModel::AgentVersion,
                    binary: Some(place),
                },
            ),
        }
    }

    /// After `wsl --version`: a failure of the command means that WSL is
    /// absent, a first line without the mark of version 2 that WSL is
    /// outdated.
    pub open spec fn after_wsl_version(self, answer: Result<CommandModel, ErrorKind>) -> StepModel {
        match answer {
            Err(e) => StepModel::Failed(e),
            Ok(c) => if !c.exit_success {
                StepModel::Done(Finding::WslMissing)
            } else if !shows_wsl2(c.stdout) {
                StepModel::Done(Finding::WslOutdated)
            } else {
                StepModel::Ask(self.at(PhaseModel::WslList))
            },
        }
    }

    /// After `wsl --list`: the distribution has to be listed.
    pub open spec fn after_wsl_list(self, answer: Result<CommandModel, ErrorKind>) -> StepModel {
        match answer {
            Err(e) => StepModel::Failed(e),
            Ok(c) => if !lists_distribution(c) {
                StepModel::Done(Finding::DistributionMissing)
            } else {
                StepModel::Ask(self.at(PhaseModel::WslListRunning))
            },
        }
    }

    /// After `wsl --list --running`: the distribution has to run.
    pub open spec fn after_wsl_running(self, answer: Result<CommandModel, ErrorKind>) -> StepModel {
        match answer {
            Err(e) => StepModel::Failed(e),
            Ok(c) => if !lists_distribution(c) {
                StepModel::Done(Finding::DistributionStopped)
            } else {
                StepModel::Ask(self.at(PhaseModel::AgentVersion))
            },
        }
    }

    /// After the agent's version command: the marker of a daemon that does
    /// not run decides first, on whichever stream it came and whatever else
    /// the output holds; then the output has to hold the word `version` and
    /// a version that can be read.
    pub open spec fn after_agent_version(self, answer: Result<CommandModel, ErrorKind>) -> StepModel {
        match answer {
            Err(e) => StepModel::Failed(e),
            Ok(c) => if says_daemon_down(c) {
                StepModel::Done(Finding::DaemonNotRunning)
            } else {
                match installed(c.stdout) {
                    Err(ErrorKind::NotInstalled) => StepModel::Done(Finding::AgentNotInstalled),
                    Err(e) => StepModel::Failed(e),
                    Ok(v) => StepModel::Ask(self.at(PhaseModel::LatestVersion(v))),
                }
            },
        }
    }

    /// After the answer of the release endpoint: a newer version means that
    /// an update is available.
    pub open spec fn after_latest(self, current: VersionModel, answer: Result<Seq<char>, ErrorKind>)
        -> StepModel {
        match answer {
            Err(e) => StepModel::Failed(e),
            Ok(body) => match version_of_body(body) {
                Err(e) => StepModel::Failed(e),
                Ok(latest) => if newer(latest, current) {
                    StepModel::Done(Finding::UpdateAvailable)
                } else {
                    StepModel::Ask(self.at(PhaseModel::Gui))
                },
            },
        }
    }

    /// After the probe of the local GUI: all is well where the GUI has
    /// identified itself. Where it has not, for whatever reason, the agent
    /// needs starting; the reason is never handed on.
    pub open spec fn after_gui(self, answer: Result<Seq<char>, ErrorKind>) -> StepModel {
        match gui_probe(answer) {
            Ok(_) => StepModel::Done(Finding::Healthy),
            Err(_) => StepModel::Done(Finding::GuiUnavailable),
        }
    }

    /// What the detection does on `answer`. An answer of another kind than
    /// the one asked for changes nothing: the same probe is asked again.
    pub open spec fn step(self, answer: AnswerModel) -> StepModel {
        match (self.phase, answer) {
            (PhaseModel::LocateBinary, AnswerModel::Binary(found)) => self.after_locate(found),
            (PhaseModel::WslVersion, AnswerModel::Command(c)) => self.after_wsl_version(c),
            (PhaseModel::WslList, AnswerModel::Command(c)) => self.after_wsl_list(c),
            (PhaseModel::WslListRunning, AnswerModel::Command(c)) => self.after_wsl_running(c),
            (PhaseModel::AgentVersion, AnswerModel::Command(c)) => self.after_agent_version(c),
            (PhaseModel::LatestVersion(current), AnswerModel::Body(b)) => self.after_latest(
                current,
                b,
            ),
            (PhaseModel::Gui, AnswerModel::Body(b)) => self.after_gui(b),
            _ => StepModel::Ask(self),
        }
    }
}

impl Phase {
    /// The probe that the phase waits for.
    pub fn probe(&self) -> (r: Probe)
        ensures
            r == self@.probe(),
    {
        match self {
            Phase::LocateBinary => Probe::LocateBinary,
            Phase::WslVersion => Probe::WslVersion,
            Phase::WslList => Probe::WslList,
            Phase::WslListRunning => Probe::WslListRunning,
            Phase::AgentVersion => Probe::AgentVersion,
            Phase::LatestVersion(_) => Probe::LatestVersion,
            Phase::Gui => Probe::Gui,
        }
    }
}

impl Detector {
    /// A detection on `platform` that has asked nothing yet.
    pub fn new(platform: PlatformTarget) -> (r: Detector)
        ensures
            r@ == DetectorModel::initial(platform),
    {
        let phase = match platform {
            PlatformTarget::WindowsWSL => Phase::WslVersion,
            _ => Phase::LocateBinary,
        };
        Detector { platform, phase, binary: None }
    }

    /// The probe that the detection waits for.
    pub fn probe(&self) -> (r: Probe)
        ensures
            r == self@.phase.probe(),
    {
        self.phase.probe()
    }

    /// The menu while the detection is under way: nothing can be stopped,
    /// and the agent can be uninstalled once its runtime is in place.
    pub fn menu(&self) -> (r: Menu)
        ensures
            r == (Menu { stop: false, uninstall: self@.phase.has_runtime() }),
    {
        let uninstall = match self.phase {
            Phase::AgentVersion => true,
            Phase::LatestVersion(_) => true,
            Phase::Gui => true,
            _ => false,
        };
        Menu { stop: false, uninstall }
    }

    fn after_locate(self, found: Option<String>) -> (r: Step)
        ensures
            r@ == self@.after_locate(
                match found {
                    Some(place) => Some(place@),
                    None => None,
                },
            ),
    {
        match found {
            None => Step::Done(Finding::BinaryNotFound),
            Some(place) => Step::Ask(
                Detector { platform: self.platform, phase: Phase::AgentVersion, binary: Some(place) },
            ),
        }
    }

    fn after_wsl_version(self, answer: Result<CommandResult, Error>) -> (r: Step)
        ensures
            r@ == self@.after_wsl_version(crate::error::outcome(answer)),
            answer matches Err(e) ==> r == Step::Failed(e),
    {
        match answer {
            Err(e) => Step::Failed(e),
            Ok(c) => {
                if !c.exit_success {
                    Step::Done(Finding::WslMissing)
                } else if !is_wsl2(c.stdout.as_str()) {
                    Step::Done(Finding::WslOutdated)
                } else {
                    Step::Ask(
                        Detector {
                            platform: self.platform,
                            phase: Phase::WslList,
                            binary: self.binary,
                        },
                    )
                }
            },
        }
    }

    fn after_wsl_list(self, answer: Result<CommandResult, Error>) -> (r: Step)
        ensures
            r@ == self@.after_wsl_list(crate::error::outcome(answer)),
            answer matches Err(e) ==> r == Step::Failed(e),
    {
        match answer {
            Err(e) => Step::Failed(e),
            Ok(c) => {
                if !distribution_listed(&c) {
                    Step::Done(Finding::DistributionMissing)
                } else {
                    Step::Ask(
                        Detector {
                            platform: self.platform,
                            phase: Phase::WslListRunning,
                            binary: self.binary,
                        },
                    )
                }
            },
        }
    }

    fn after_wsl_running(self, answer: Result<CommandResult, Error>) -> (r: Step)
        ensures
            r@ == self@.after_wsl_running(crate::error::outcome(answer)),
            answer matches Err(e) ==> r == Step::Failed(e),
    {
        match answer {
            Err(e) => Step::Failed(e),
            Ok(c) => {
                if !distribution_listed(&c) {
                    Step::Done(Finding::DistributionStopped)
                } else {
                    Step::Ask(
                        Detector {
                            platform: self.platform,
                            phase: Phase::AgentVersion,
                            binary: self.binary,
                        },
                    )
                }
            },
        }
    }

    fn after_agent_version(self, answer: Result<CommandResult, Error>) -> (r: Step)
        ensures
            r@ == self@.after_agent_version(crate::error::outcome(answer)),
            answer matches Err(e) ==> r == Step::Failed(e),
            answer matches Ok(c) ==> (r matches Step::Failed(
                Error::ParseFailure(ParseError::MarkerNotFound(missing)),
            ) ==> (missing == Marker::Start <==> find(c.stdout@, VERSION_MARKER@, 0) is None)),
    {
        match answer {
            Err(e) => Step::Failed(e),
            Ok(c) => {
                let down = str_contains(c.stdout.as_str(), DAEMON_DOWN_MARKER) || str_contains(
                    c.stderr.as_str(),
                    DAEMON_DOWN_MARKER,
                );
                if down {
                    return Step::Done(Finding::DaemonNotRunning);
                }
                match installed_version(c.stdout.as_str()) {
                    Ok(v) => Step::Ask(
                        Detector {
                            platform: self.platform,
                            phase: Phase::LatestVersion(v),
                            binary: self.binary,
                        },
                    ),
                    Err(e) => match e {
                        Error::Failed(Failure::NotInstalled) => Step::Done(Finding::AgentNotInstalled),
                        other => Step::Failed(other),
                    },
                }
            },
        }
    }

    fn after_latest(
        platform: PlatformTarget,
        binary: Option<String>,
        current: Version,
        answer: Result<String, Error>,
    ) -> (r: Step)
        ensures
            r@ == (DetectorModel {
                platform,
                phase: PhaseModel::LatestVersion(current@),
                binary: match binary {
                    Some(place) => Some(place@),
                    None => None,
                },
            }).after_latest(current@, body_outcome(answer)),
            answer matches Err(e) ==> r == Step::Failed(e),
    {
        match answer {
            Err(e) => Step::Failed(e),
            Ok(body) => match get_latest_version(body.as_str()) {
                Err(e) => Step::Failed(e),
                Ok(latest) => {
                    if latest.gt(&current) {
                        Step::Done(Finding::UpdateAvailable)
                    } else {
                        Step::Ask(Detector { platform, phase: Phase::Gui, binary })
                    }
                },
            },
        }
    }

    fn after_gui(self, answer: Result<String, Error>) -> (r: Step)
        ensures
            r@ == self@.after_gui(body_outcome(answer)),
    {
        match check_gui(answer) {
            Ok(_) => Step::Done(Finding::Healthy),
            Err(_) => Step::Done(Finding::GuiUnavailable),
        }
    }

    /// Takes the answer to the probe asked for and says what comes next. The
    /// error of a command that could not be run, and of a request for the
    /// latest version that failed, ends the detection and is handed on as it
    /// came, with all that it carries.
    pub fn answer(self, answer: Answer) -> (r: Step)
        ensures
            r@ == self@.step(answer@),
            answer matches Answer::Command(Err(e)) ==> (self@.phase.probe().spec_answer_kind()
                == AnswerKind::Command ==> r == Step::Failed(e)),
            answer matches Answer::Body(Err(e)) ==> (self@.phase.probe() == Probe::LatestVersion
                ==> r == Step::Failed(e)),
            answer matches Answer::Command(Ok(c)) ==> (r matches Step::Failed(
                Error::ParseFailure(ParseError::MarkerNotFound(missing)),
            ) ==> (missing == Marker::Start <==> find(c.stdout@, VERSION_MARKER@, 0) is None)),
    {
        match (self.phase.probe(), answer) {
            (Probe::LocateBinary, Answer::Binary(found)) => self.after_locate(found),
            (Probe::WslVersion, Answer::Command(c)) => self.after_wsl_version(c),
            (Probe::WslList, Answer::Command(c)) => self.after_wsl_list(c),
            (Probe::WslListRunning, Answer::Command(c)) => self.after_wsl_running(c),
            (Probe::AgentVersion, Answer::Command(c)) => self.after_agent_version(c),
            (Probe::LatestVersion, Answer::Body(b)) => {
                let Detector { platform, phase, binary } = self;
                match phase {
                    Phase::LatestVersion(current) => Detector::after_latest(
                        platform,
                        binary,
                        current,
                        b,
                    ),
                    other => Step::Ask(Detector { platform, phase: other, binary }),
                }
            },
            (Probe::Gui, Answer::Body(b)) => self.after_gui(b),
            _ => Step::Ask(self),
        }
    }
}

/// What has to be done for a probe.
#[derive(Debug)]
pub enum Request {
    /// Search the places of `search_candidates` for the agent's binary.
    Locate,
    /// Run the command line.
    Run(Invocation),
    /// Get the body at the address.
    Fetch(String),
}

/// What a `Request` stands for.
pub enum RequestModel {
    Locate,
    Run(InvocationModel),
    Fetch(Seq<char>),
}

impl View for Request {
    type V = RequestModel;

    open spec fn view(&self) -> RequestModel {
        match self {
            Request::Locate => RequestModel::Locate,
            Request::Run(i) => RequestModel::Run(i@),
            Request::Fetch(url) => RequestModel::Fetch(url@),
        }
    }
}

impl DetectorModel {
    /// What has to be done for the probe that the detection waits for. The
    /// agent's version command goes to the binary that was found, and to
    /// the distribution in the virtual shell.
    pub open spec fn request(self) -> RequestModel {
        match self.phase.probe() {
            Probe::LocateBinary => RequestModel::Locate,
            Probe::WslVersion => RequestModel::Run(WslCall::Version.command()),
            Probe::WslList => RequestModel::Run(WslCall::List.command()),
            Probe::WslListRunning => RequestModel::Run(WslCall::ListRunning.command()),
            Probe::AgentVersion => if self.platform.is_virtualized() {
                RequestModel::Run(WslCall::AgentVersion.command())
            } else {
                RequestModel::Run(
                    streamed(
                        match self.binary {
                            Some(place) => place,
                            None => AGENT_BINARY@,
                        },
                        seq![VERSION_COMMAND@],
                        false,
                        false,
                    ),
                )
            },
            Probe::LatestVersion => RequestModel::Fetch(LATEST_VERSION_URL@),
            Probe::Gui => RequestModel::Fetch(GUI_URL@),
        }
    }
}

impl Detector {
    /// What has to be done for the probe that the detection waits for.
    pub fn request(&self) -> (r: Request)
        ensures
            r@ == self@.request(),
    {
        match self.phase.probe() {
            Probe::LocateBinary => Request::Locate,
            Probe::WslVersion => Request::Run(WslCall::Version.invocation()),
            Probe::WslList => Request::Run(WslCall::List.invocation()),
            Probe::WslListRunning => Request::Run(WslCall::ListRunning.invocation()),
            Probe::AgentVersion => match self.platform {
                PlatformTarget::WindowsWSL => Request::Run(WslCall::AgentVersion.invocation()),
                _ => match &self.binary {
                    Some(place) => Request::Run(agent_version_command(place.as_str())),
                    None => Request::Run(agent_version_command(AGENT_BINARY)),
                },
            },
            Probe::LatestVersion => Request::Fetch(LATEST_VERSION_URL.to_owned()),
            Probe::Gui => Request::Fetch(GUI_URL.to_owned()),
        }
    }
}

/// What each probe would answer at one moment.
pub struct World {
    pub binary: Option<Seq<char>>,
    pub wsl_version: Result<CommandModel, ErrorKind>,
    pub wsl_list: Result<CommandModel, ErrorKind>,
    pub wsl_running: Result<CommandModel, ErrorKind>,
    pub agent_version: Result<CommandModel, ErrorKind>,
    pub latest_version: Result<Seq<char>, ErrorKind>,
    pub gui: Result<Seq<char>, ErrorKind>,
}

impl World {
    /// The answer of the world to `probe`.
    pub open spec fn answer(self, probe: Probe) -> AnswerModel {
        match probe {
            Probe::LocateBinary => AnswerModel::Binary(self.binary),
            Probe::WslVersion => AnswerModel::Command(self.wsl_version),
            Probe::WslList => AnswerModel::Command(self.wsl_list),
            Probe::WslListRunning => AnswerModel::Command(self.wsl_running),
            Probe::AgentVersion => AnswerModel::Command(self.agent_version),
            Probe::LatestVersion => AnswerModel::Body(self.latest_version),
            Probe::Gui => AnswerModel::Body(self.gui),
        }
    }

    /// What the answers of the WSL tooling say: the finding where WSL 2 or
    /// the running distribution is missing, the failure of a query, or
    /// `None` where the distribution runs under WSL 2.
    pub open spec fn wsl_verdict(self) -> Option<Result<Finding, ErrorKind>> {
        match self.wsl_version {
            Err(e) => Some(Err(e)),
            Ok(version) => if !version.exit_success {
                Some(Ok(Finding::WslMissing))
            } else if !shows_wsl2(version.stdout) {
                Some(Ok(Finding::WslOutdated))
            } else {
                match self.wsl_list {
                    Err(e) => Some(Err(e)),
                    Ok(list) => if !lists_distribution(list) {
                        Some(Ok(Finding::DistributionMissing))
                    } else {
                        match self.wsl_running {
                            Err(e) => Some(Err(e)),
                            Ok(running) => if !lists_distribution(running) {
                                Some(Ok(Finding::DistributionStopped))
                            } else {
                                None
                            },
                        }
                    },
                }
            },
        }
    }

    /// The finding where the agent's runtime is missing, or a failure of
    /// the probes for it; `None` where the runtime is in place. On the host
    /// the runtime is the agent's binary. In the virtual shell it is the
    /// distribution, which has to run under WSL 2.
    pub open spec fn runtime_verdict(self, platform: PlatformTarget) -> Option<
        Result<Finding, ErrorKind>,
    > {
        if platform.is_virtualized() {
            self.wsl_verdict()
        } else if self.binary is None {
            Some(Ok(Finding::BinaryNotFound))
        } else {
            None
        }
    }

    /// The finding where the agent is up to date: it depends on the local
    /// GUI alone, and is never a failure.
    pub open spec fn gui_verdict(self) -> Finding {
        if gui_probe(self.gui) is Ok {
            Finding::Healthy
        } else {
            Finding::GuiUnavailable
        }
    }

    /// The finding for the agent of version `current`: an update is
    /// available where the release endpoint names a newer version.
    pub open spec fn update_verdict(self, current: VersionModel) -> Result<Finding, ErrorKind> {
        match self.latest_version {
            Err(e) => Err(e),
            Ok(body) => match version_of_body(body) {
                Err(e) => Err(e),
                Ok(latest) => if newer(latest, current) {
                    Ok(Finding::UpdateAvailable)
                } else {
                    Ok(self.gui_verdict())
                },
            },
        }
    }

    /// The finding once the runtime is in place. The marker of a daemon
    /// that does not run decides first, on whichever stream it came and
    /// whatever version the output names besides. Output without the word
    /// `version` means that the agent is not installed.
    pub open spec fn agent_verdict(self) -> Result<Finding, ErrorKind> {
        match self.agent_version {
            Err(e) => Err(e),
            Ok(said) => if says_daemon_down(said) {
                Ok(Finding::DaemonNotRunning)
            } else {
                match installed(said.stdout) {
                    Err(ErrorKind::NotInstalled) => Ok(Finding::AgentNotInstalled),
                    Err(e) => Err(e),
                    Ok(current) => self.update_verdict(current),
                }
            },
        }
    }

    /// What a detection on `platform` comes to in this world.
    pub open spec fn verdict(self, platform: PlatformTarget) -> Result<Finding, ErrorKind> {
        match self.runtime_verdict(platform) {
            Some(v) => v,
            None => self.agent_verdict(),
        }
    }
}

/// The end of a detection, as a step.
pub open spec fn final_step(verdict: Result<Finding, ErrorKind>) -> StepModel {
    match verdict {
        Ok(finding) => StepModel::Done(finding),
        Err(kind) => StepModel::Failed(kind),
    }
}

/// Where the detection `d` stands after at most `probes` more probes, each
/// answered by `world`.
pub open spec fn run(d: DetectorModel, world: World, probes: nat) -> StepModel
    decreases probes,
{
    if probes == 0 {
        StepModel::Ask(d)
    } else {
        match d.step(world.answer(d.phase.probe())) {
            StepModel::Ask(next) => run(next, world, (probes - 1) as nat),
            end => end,
        }
    }
}

/// The number of probes after which every detection has ended.
pub open spec fn max_probes() -> nat {
    6
}

/// The state machine is a classifier: driven by the answers of any world,
/// a detection ends after at most `max_probes()` probes, and it ends with
/// the verdict of that world, be it a finding or the failure of a probe.
pub proof fn lemma_detection_gives_verdict(platform: PlatformTarget, world: World)
    ensures
        run(DetectorModel::initial(platform), world, max_probes()) == final_step(
            world.verdict(platform),
        ),
{
    reveal_with_fuel(run, 7);
}

/// Without the agent's binary the agent needs installing, whatever the other
/// probes would answer.
pub proof fn lemma_no_binary_needs_install(platform: PlatformTarget, world: World)
    requires
        !platform.is_virtualized(),
        world.binary is None,
    ensures
        world.verdict(platform) matches Ok(f) && f.spec_state() == LifecycleState::NeedsInstall,
{
}

/// A daemon that does not run means that the agent needs starting, whatever
/// version the output names besides and whatever the later probes would
/// answer.
pub proof fn lemma_daemon_down_needs_start(world: World, platform: PlatformTarget)
    requires
        world.runtime_verdict(platform) is None,
        world.agent_version matches Ok(said) && says_daemon_down(said),
    ensures
        world.verdict(platform) == Ok::<Finding, ErrorKind>(Finding::DaemonNotRunning),
        Finding::DaemonNotRunning.spec_state() == LifecycleState::NeedsStart,
{
}

/// A failure of the probe of the local GUI never fails the detection: with
/// the agent up to date, a request that failed or a body that does not
/// identify the GUI gives a finding, not an error, and the agent needs
/// starting.
pub proof fn lemma_gui_failure_degrades(world: World, platform: PlatformTarget)
    requires
        world.runtime_verdict(platform) is None,
        world.agent_version matches Ok(said) && !says_daemon_down(said) && (installed(
            said.stdout,
        ) matches Ok(current) && (world.latest_version matches Ok(body) && (version_of_body(
            body,
        ) matches Ok(latest) && !newer(latest, current)))),
        gui_probe(world.gui) is Err,
    ensures
        world.verdict(platform) == Ok::<Finding, ErrorKind>(Finding::GuiUnavailable),
        Finding::GuiUnavailable.spec_state() == LifecycleState::NeedsStart,
{
}

/// Whatever the local GUI answers, and however the request for it fails, the
/// verdict is no failure that the other probes do not account for: a world
/// that differs from another in the answer of the GUI alone fails, if at
/// all, with the same error.
pub proof fn lemma_gui_never_fails_detection(world: World, other: World, platform: PlatformTarget)
    requires
        other == (World { gui: other.gui, ..world }),
    ensures
        world.verdict(platform) is Err ==> other.verdict(platform) == world.verdict(platform),
{
}

/// The state machine and the version lookup agree: with the runtime in
/// place and the daemon running, an update is found to be available exactly
/// where the lookup of the agent's version says that the agent is not up to
/// date.
pub proof fn lemma_update_agrees_with_lookup(world: World, platform: PlatformTarget)
    requires
        world.runtime_verdict(platform) is None,
        world.agent_version matches Ok(said) && !says_daemon_down(said),
        world.latest_version is Ok,
    ensures
        world.verdict(platform) == Ok::<Finding, ErrorKind>(Finding::UpdateAvailable)
            <==> (crate::version::daemon_version(
            world.agent_version->Ok_0.stdout,
            world.latest_version->Ok_0,
        ) matches Ok(info) && !info.up_to_date),
{
}

/// WSL in version 1 and no WSL at all both mean that the agent needs
/// installing, and they are told apart: the findings differ, and so do
/// their words.
pub proof fn lemma_wsl1_is_told_apart(world: World)
    requires
        world.wsl_version matches Ok(v) && v.exit_success && !shows_wsl2(v.stdout),
    ensures
        world.verdict(PlatformTarget::WindowsWSL) == Ok::<Finding, ErrorKind>(Finding::WslOutdated),
        Finding::WslOutdated.spec_state() == LifecycleState::NeedsInstall,
        Finding::WslMissing.spec_state() == LifecycleState::NeedsInstall,
        Finding::WslOutdated != Finding::WslMissing,
        Finding::WslOutdated.text() != Finding::WslMissing.text(),
{
    reveal_strlit("WSL is not installed");
    reveal_strlit("WSL2 is not installed");
    assert(Finding::WslOutdated.text().len() != Finding::WslMissing.text().len());
}

} // verus!
