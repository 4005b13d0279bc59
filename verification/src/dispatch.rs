//! The action dispatcher: for an action on a platform, which steps are
//! taken in which order, and what the action comes to. Like the lifecycle
//! state machine it asks for one task at a time; whoever drives it runs the
//! scripts, asks the user and hands the replies back.

use crate::error::{outcome, Error, ErrorKind, Failure};
use crate::lifecycle::PlatformTarget;
use crate::probe::{distribution_listed, is_wsl2, lists_distribution, shows_wsl2, WslCall};
use crate::runner::{
    after_elevation, copy_and_exec, elevated_script, exec_script, streamed, CommandModel,
    CommandResult, Invocation, InvocationModel, ELEVATED_SHELL, ELEVATION_PROGRAM,
    PERMISSION_DENIED_CODE, WINDOWS_SHELL, WINDOWS_SHELL_RUN,
};
use crate::text::{push_text, strip_all_leading, texts, without_all_leading};
use vstd::prelude::*;
use vstd::string::*;

verus! {

/// What the user asks for.
#[derive(Clone, Copy, Debug, PartialEq, Eq, Structural)]
pub enum Action {
    Install,
    Stop,
    Uninstall,
}

/// How a bundled script is run.
#[derive(Clone, Copy, Debug, PartialEq, Eq, Structural)]
pub enum Launcher {
    /// By `bash`, where it lies.
    Bash,
    /// By the shell of Windows, where it lies.
    WindowsShell,
    /// With elevated rights, from a copy in the directory for temporary
    /// files.
    Elevated,
}

/// A question to the user before a step that destroys something.
#[derive(Clone, Copy, Debug, PartialEq, Eq, Structural)]
pub enum Prompt {
    Terminate,
    Unregister,
}

/// A step of an action.
#[derive(Clone, Copy, Debug, PartialEq, Eq, Structural)]
pub enum Stage {
    /// A call of the WSL tooling that says whether the action applies.
    Query,
    /// The desktop shortcut is made or removed. Its outcome is of no
    /// account.
    Shortcut,
    /// The bundled script of the action runs.
    Script,
    /// The user is asked whether the distribution may go.
    Confirm,
    /// The distribution is terminated or unregistered.
    Destroy,
}

/// What the driver has to do for a stage.
#[derive(Clone, Copy, Debug, PartialEq, Eq, Structural)]
pub enum Task {
    /// Make this call of the WSL tooling.
    Call(WslCall),
    /// Make the desktop shortcut, where it is missing.
    CreateShortcut,
    /// Remove the desktop shortcut, where there is one.
    RemoveShortcut,
    /// Run the bundled script of the action.
    RunScript,
    /// Ask the user.
    Confirm(Prompt),
}

/// The reply to a task.
#[derive(Debug)]
pub enum Reply {
    /// The result of a call or of the script.
    Command(Result<CommandResult, Error>),
    /// What the user answered.
    Confirmed(bool),
    /// A step whose outcome is of no account was tried.
    Attempted,
}

/// What a `Reply` stands for.
pub enum ReplyModel {
    Command(Result<CommandModel, ErrorKind>),
    Confirmed(bool),
    Attempted,
}

impl View for Reply {
    type V = ReplyModel;

    open spec fn view(&self) -> ReplyModel {
        match self {
            Reply::Command(c) => ReplyModel::Command(outcome(*c)),
            Reply::Confirmed(yes) => ReplyModel::Confirmed(*yes),
            Reply::Attempted => ReplyModel::Attempted,
        }
    }
}

/// An action under way.
#[derive(Clone, Copy, Debug, PartialEq, Eq, Structural)]
pub struct Dispatcher {
    pub action: Action,
    pub platform: PlatformTarget,
    pub stage: Stage,
}

/// How an action goes on.
#[derive(Debug)]
pub enum Advance {
    /// With the task of the dispatcher's stage.
    Next(Dispatcher),
    /// Not at all: this is the result for the user.
    Finished(Result<String, Error>),
}

/// What an `Advance` stands for.
pub enum AdvanceModel {
    Next(Dispatcher),
    Finished(Result<Seq<char>, ErrorKind>),
}

impl View for Advance {
    type V = AdvanceModel;

    open spec fn view(&self) -> AdvanceModel {
        match self {
            Advance::Next(d) => AdvanceModel::Next(*d),
            Advance::Finished(Ok(said)) => AdvanceModel::Finished(Ok(said@)),
            Advance::Finished(Err(e)) => AdvanceModel::Finished(Err(e.spec_kind())),
        }
    }
}

impl Prompt {
    /// The title of the question.
    pub open spec fn title() -> Seq<char> {
        "WSL confirmation"@
    }

    /// The question.
    pub open spec fn text(self) -> Seq<char> {
        match self {
            Prompt::Terminate => "Terminate Ubuntu-22.04 distribution in WSL?"@,
            Prompt::Unregister =>
                "Unregister Ubuntu-22.04 distribution from WSL?\nCaution: Once unregistered, all data, settings, and software associated with that distribution will be permanently lost"@,
        }
    }

    /// The question.
    pub fn question(&self) -> (r: String)
        ensures
            r@ == self.text(),
    {
        match self {
            Prompt::Terminate => "Terminate Ubuntu-22.04 distribution in WSL?".to_owned(),
            Prompt::Unregister =>
                "Unregister Ubuntu-22.04 distribution from WSL?\nCaution: Once unregistered, all data, settings, and software associated with that distribution will be permanently lost".to_owned(),
        }
    }

    /// The title of the question.
    pub fn heading() -> (r: String)
        ensures
            r@ == Prompt::title(),
    {
        "WSL confirmation".to_owned()
    }
}

impl Action {
    /// What the user reads when the action on the distribution is through.
    pub open spec fn done_text(self) -> Seq<char> {
        match self {
            Action::Uninstall => "Successfully uninstalled"@,
            _ => "Successfully stopped"@,
        }
    }

    /// What the user reads when the action does not apply because the
    /// distribution is not there, or does not run.
    pub open spec fn idle_text(self) -> Seq<char> {
        match self {
            Action::Stop => "WSL distribution is not running"@,
            _ => "WSL distribution is not installed"@,
        }
    }

    /// The call of the WSL tooling that says whether the action applies.
    pub open spec fn query(self) -> WslCall {
        match self {
            Action::Install => WslCall::Version,
            Action::Stop => WslCall::ListRunning,
            Action::Uninstall => WslCall::List,
        }
    }

    /// The call of the WSL tooling that lets the distribution go.
    pub open spec fn destroyer(self) -> WslCall {
        match self {
            Action::Uninstall => WslCall::Unregister,
            _ => WslCall::Terminate,
        }
    }

    /// The question to the user before the distribution goes.
    pub open spec fn prompt(self) -> Prompt {
        match self {
            Action::Uninstall => Prompt::Unregister,
            _ => Prompt::Terminate,
        }
    }

    /// The failure when the distribution does not go.
    pub open spec fn destroy_failure(self) -> ErrorKind {
        match self {
            Action::Uninstall => ErrorKind::UnregisterFailed,
            _ => ErrorKind::TerminateFailed,
        }
    }

    /// Whether the action lets the distribution go once its script has run.
    pub open spec fn destroys(self) -> bool {
        self != Action::Install
    }
}

impl PlatformTarget {
    /// How the bundled scripts are run on the platform.
    pub open spec fn launcher(self) -> Launcher {
        match self {
            PlatformTarget::MacOS => Launcher::Bash,
            PlatformTarget::LinuxNative => Launcher::Elevated,
            PlatformTarget::WindowsWSL => Launcher::WindowsShell,
        }
    }
}

/// Whether the desktop shortcut is part of the action: on Linux alone, when
/// the application runs from an image, for installing, and for uninstalling
/// where the home directory is known too.
pub open spec fn with_shortcut(
    action: Action,
    platform: PlatformTarget,
    appimage: Seq<char>,
    home: Seq<char>,
) -> bool {
    &&& platform == PlatformTarget::LinuxNative
    &&& appimage.len() > 0
    &&& match action {
        Action::Install => true,
        Action::Stop => false,
        Action::Uninstall => home.len() > 0,
    }
}

impl Dispatcher {
    /// The action `action` on `platform` before its first step. `appimage`
    /// is the path of the image that the application runs from, `home` the
    /// home directory; each is empty where it is not known.
    pub open spec fn initial(
        action: Action,
        platform: PlatformTarget,
        appimage: Seq<char>,
        home: Seq<char>,
    ) -> Dispatcher {
        Dispatcher {
            action,
            platform,
            stage: if platform == PlatformTarget::WindowsWSL {
                Stage::Query
            } else if with_shortcut(action, platform, appimage, home) {
                Stage::Shortcut
            } else {
                Stage::Script
            },
        }
    }

    /// The same action at the stage `stage`.
    pub open spec fn at(self, stage: Stage) -> Dispatcher {
        Dispatcher { action: self.action, platform: self.platform, stage }
    }

    /// What the driver has to do at this stage.
    pub open spec fn spec_task(&self) -> Task {
        match self.stage {
            Stage::Query => Task::Call(self.action.query()),
            Stage::Shortcut => if self.action == Action::Uninstall {
                Task::RemoveShortcut
            } else {
                Task::CreateShortcut
            },
            Stage::Script => Task::RunScript,
            Stage::Confirm => Task::Confirm(self.action.prompt()),
            Stage::Destroy => Task::Call(self.action.destroyer()),
        }
    }

    /// Whether a script that ended with an error of the kind `kind` was
    /// refused by the elevation front-end.
    pub open spec fn refused(self, kind: ErrorKind) -> bool {
        self.platform.launcher() == Launcher::Elevated && kind == ErrorKind::NonZeroExit(
            Some(PERMISSION_DENIED_CODE),
        )
    }

    /// Whether the error of the kind `kind` of a command at this stage ends
    /// the action as it came: at every stage that takes the result of a
    /// command, but for the refusal of the elevation front-end.
    pub open spec fn hands_on(self, kind: ErrorKind) -> bool {
        match self.stage {
            Stage::Query => true,
            Stage::Script => !self.refused(kind),
            Stage::Destroy => true,
            _ => false,
        }
    }

    /// After the call that says whether the action applies. Installing needs
    /// WSL 2; stopping needs the distribution to run, uninstalling needs it
    /// to be there, and without it there is nothing to do.
    pub open spec fn after_query(self, answer: Result<CommandModel, ErrorKind>) -> AdvanceModel {
        match answer {
            Err(e) => AdvanceModel::Finished(Err(e)),
            Ok(c) => match self.action {
                Action::Install => if !c.exit_success {
                    AdvanceModel::Finished(Err(ErrorKind::WslMissing))
                } else if !shows_wsl2(c.stdout) {
                    AdvanceModel::Finished(Err(ErrorKind::WslOutdated))
                } else {
                    AdvanceModel::Next(self.at(Stage::Script))
                },
                _ => if !lists_distribution(c) {
                    AdvanceModel::Finished(Ok(self.action.idle_text()))
                } else {
                    AdvanceModel::Next(self.at(Stage::Script))
                },
            },
        }
    }

    /// After the script. What ran with elevated rights and was refused is a
    /// condition on which the user is asked again. On Windows, stopping and
    /// uninstalling go on to ask whether the distribution may go; everywhere
    /// else the output of the script is the result.
    pub open spec fn after_script(self, answer: Result<CommandModel, ErrorKind>) -> AdvanceModel {
        match if self.platform.launcher() == Launcher::Elevated {
            after_elevation(answer)
        } else {
            answer
        } {
            Err(e) => AdvanceModel::Finished(Err(e)),
            Ok(c) => if self.platform == PlatformTarget::WindowsWSL && self.action.destroys() {
                AdvanceModel::Next(self.at(Stage::Confirm))
            } else {
                AdvanceModel::Finished(Ok(c.stdout))
            },
        }
    }

    /// After the question: the distribution goes only where the user agreed.
    pub open spec fn after_confirm(self, yes: bool) -> AdvanceModel {
        if yes {
            AdvanceModel::Next(self.at(Stage::Destroy))
        } else {
            AdvanceModel::Finished(Ok(self.action.done_text()))
        }
    }

    /// After the call that lets the distribution go.
    pub open spec fn after_destroy(self, answer: Result<CommandModel, ErrorKind>) -> AdvanceModel {
        match answer {
            Err(e) => AdvanceModel::Finished(Err(e)),
            Ok(c) => if !c.exit_success {
                AdvanceModel::Finished(Err(self.action.destroy_failure()))
            } else {
                AdvanceModel::Finished(Ok(self.action.done_text()))
            },
        }
    }

    /// How the action goes on after `reply`. The step for the shortcut is
    /// over with any reply. A reply of another kind than the task takes
    /// changes nothing: the same task is asked for again.
    pub open spec fn step(self, reply: ReplyModel) -> AdvanceModel {
        match (self.stage, reply) {
            (Stage::Query, ReplyModel::Command(c)) => self.after_query(c),
            (Stage::Shortcut, _) => AdvanceModel::Next(self.at(Stage::Script)),
            (Stage::Script, ReplyModel::Command(c)) => self.after_script(c),
            (Stage::Confirm, ReplyModel::Confirmed(yes)) => self.after_confirm(yes),
            (Stage::Destroy, ReplyModel::Command(c)) => self.after_destroy(c),
            _ => AdvanceModel::Next(self),
        }
    }

    /// The action `action` on `platform` before its first step.
    pub fn new(action: Action, platform: PlatformTarget, appimage: &str, home: &str) -> (r:
        Dispatcher)
        ensures
            r == Dispatcher::initial(action, platform, appimage@, home@),
    {
        let stage = match platform {
            PlatformTarget::WindowsWSL => Stage::Query,
            PlatformTarget::MacOS => Stage::Script,
            PlatformTarget::LinuxNative => {
                let wanted = !appimage.is_empty() && match action {
                    Action::Install => true,
                    Action::Stop => false,
                    Action::Uninstall => !home.is_empty(),
                };
                if wanted {
                    Stage::Shortcut
                } else {
                    Stage::Script
                }
            },
        };
        Dispatcher { action, platform, stage }
    }

    /// What the driver has to do at this stage.
    #[verifier::when_used_as_spec(spec_task)]
    pub fn task(&self) -> (r: Task)
        ensures
            r == self.spec_task(),
    {
        match self.stage {
            Stage::Query => Task::Call(
                match self.action {
                    Action::Install => WslCall::Version,
                    Action::Stop => WslCall::ListRunning,
                    Action::Uninstall => WslCall::List,
                },
            ),
            Stage::Shortcut => match self.action {
                Action::Uninstall => Task::RemoveShortcut,
                _ => Task::CreateShortcut,
            },
            Stage::Script => Task::RunScript,
            Stage::Confirm => Task::Confirm(
                match self.action {
                    Action::Uninstall => Prompt::Unregister,
                    _ => Prompt::Terminate,
                },
            ),
            Stage::Destroy => Task::Call(
                match self.action {
                    Action::Uninstall => WslCall::Unregister,
                    _ => WslCall::Terminate,
                },
            ),
        }
    }

    fn done_message(&self) -> (r: String)
        ensures
            r@ == self.action.done_text(),
    {
        match self.action {
            Action::Uninstall => "Successfully uninstalled".to_owned(),
            _ => "Successfully stopped".to_owned(),
        }
    }

    fn idle_message(&self) -> (r: String)
        ensures
            r@ == self.action.idle_text(),
    {
        match self.action {
            Action::Stop => "WSL distribution is not running".to_owned(),
            _ => "WSL distribution is not installed".to_owned(),
        }
    }

    fn on_query(&self, answer: Result<CommandResult, Error>) -> (r: Advance)
        ensures
            r@ == self.after_query(outcome(answer)),
            answer matches Err(e) ==> r == Advance::Finished(Err(e)),
    {
        let c = match answer {
            Ok(c) => c,
            Err(e) => { return Advance::Finished(Err(e)); },
        };
        match self.action {
            Action::Install => {
                if !c.exit_success {
                    Advance::Finished(Err(Error::Failed(Failure::WslMissing)))
                } else if !is_wsl2(c.stdout.as_str()) {
                    Advance::Finished(Err(Error::Failed(Failure::WslOutdated)))
                } else {
                    Advance::Next(
                        Dispatcher {
                            action: self.action,
                            platform: self.platform,
                            stage: Stage::Script,
                        },
                    )
                }
            },
            _ => {
                if !distribution_listed(&c) {
                    Advance::Finished(Ok(self.idle_message()))
                } else {
                    Advance::Next(
                        Dispatcher {
                            action: self.action,
                            platform: self.platform,
                            stage: Stage::Script,
                        },
                    )
                }
            },
        }
    }

    fn on_script(&self, answer: Result<CommandResult, Error>) -> (r: Advance)
        ensures
            r@ == self.after_script(outcome(answer)),
            answer matches Err(e) ==> (!self.refused(e.spec_kind()) ==> r == Advance::Finished(
                Err(e),
            )),
    {
        let judged = match self.platform {
            PlatformTarget::LinuxNative => copy_and_exec(answer),
            _ => answer,
        };
        match judged {
            Err(e) => Advance::Finished(Err(e)),
            Ok(c) => {
                let destroys = match self.action {
                    Action::Install => false,
                    _ => true,
                };
                let windows = match self.platform {
                    PlatformTarget::WindowsWSL => true,
                    _ => false,
                };
                if windows && destroys {
                    Advance::Next(
                        Dispatcher {
                            action: self.action,
                            platform: self.platform,
                            stage: Stage::Confirm,
                        },
                    )
                } else {
                    Advance::Finished(Ok(c.stdout))
                }
            },
        }
    }

    fn on_destroy(&self, answer: Result<CommandResult, Error>) -> (r: Advance)
        ensures
            r@ == self.after_destroy(outcome(answer)),
            answer matches Err(e) ==> r == Advance::Finished(Err(e)),
    {
        match answer {
            Err(e) => Advance::Finished(Err(e)),
            Ok(c) => {
                if !c.exit_success {
                    Advance::Finished(
                        Err(
                            match self.action {
                                Action::Uninstall => Error::Failed(Failure::UnregisterFailed),
                                _ => Error::Failed(Failure::TerminateFailed),
                            },
                        ),
                    )
                } else {
                    Advance::Finished(Ok(self.done_message()))
                }
            },
        }
    }

    /// Takes the reply to the task asked for and says how the action goes
    /// on. The error of a call or of the script ends the action and is
    /// handed on as it came, with all that it carries; the one exception is
    /// the refusal of the elevation front-end, which becomes the condition
    /// on which the user is asked again.
    pub fn reply(&self, reply: Reply) -> (r: Advance)
        ensures
            r@ == self.step(reply@),
            reply matches Reply::Command(Err(e)) ==> (self.hands_on(e.spec_kind()) ==> r
                == Advance::Finished(Err(e))),
    {
        match (self.stage, reply) {
            (Stage::Query, Reply::Command(c)) => self.on_query(c),
            (Stage::Shortcut, _) => Advance::Next(
                Dispatcher { action: self.action, platform: self.platform, stage: Stage::Script },
            ),
            (Stage::Script, Reply::Command(c)) => self.on_script(c),
            (Stage::Confirm, Reply::Confirmed(yes)) => {
                if yes {
                    Advance::Next(
                        Dispatcher {
                            action: self.action,
                            platform: self.platform,
                            stage: Stage::Destroy,
                        },
                    )
                } else {
                    Advance::Finished(Ok(self.done_message()))
                }
            },
            (Stage::Destroy, Reply::Command(c)) => self.on_destroy(c),
            _ => Advance::Next(*self),
        }
    }
}

/// What the driver would reply at each stage of one action.
pub struct Replies {
    /// The result of the call that says whether the action applies.
    pub query: Result<CommandModel, ErrorKind>,
    /// The result of the script.
    pub script: Result<CommandModel, ErrorKind>,
    /// Whether the user lets the distribution go.
    pub consent: bool,
    /// The result of the call that lets the distribution go.
    pub destroy: Result<CommandModel, ErrorKind>,
}

impl Replies {
    /// The reply at `stage`.
    pub open spec fn at(self, stage: Stage) -> ReplyModel {
        match stage {
            Stage::Query => ReplyModel::Command(self.query),
            Stage::Shortcut => ReplyModel::Attempted,
            Stage::Script => ReplyModel::Command(self.script),
            Stage::Confirm => ReplyModel::Confirmed(self.consent),
            Stage::Destroy => ReplyModel::Command(self.destroy),
        }
    }

    /// What an action comes to on the host: the output of its script, or the
    /// failure of the script. Under the elevation front-end a refusal is the
    /// condition on which the user is asked again.
    pub open spec fn host_result(self, platform: PlatformTarget) -> Result<Seq<char>, ErrorKind> {
        match if platform.launcher() == Launcher::Elevated {
            after_elevation(self.script)
        } else {
            self.script
        } {
            Err(e) => Err(e),
            Ok(c) => Ok(c.stdout),
        }
    }

    /// What installing comes to on Windows: it needs WSL 2, and then is what
    /// the script gives.
    pub open spec fn windows_install_result(self) -> Result<Seq<char>, ErrorKind> {
        match self.query {
            Err(e) => Err(e),
            Ok(version) => if !version.exit_success {
                Err(ErrorKind::WslMissing)
            } else if !shows_wsl2(version.stdout) {
                Err(ErrorKind::WslOutdated)
            } else {
                self.host_result(PlatformTarget::WindowsWSL)
            },
        }
    }

    /// What stopping and uninstalling come to on Windows. Without the
    /// distribution there is nothing to do; with it the script runs, and the
    /// distribution goes where the user agrees.
    pub open spec fn windows_removal_result(self, action: Action) -> Result<Seq<char>, ErrorKind> {
        match self.query {
            Err(e) => Err(e),
            Ok(listing) => if !lists_distribution(listing) {
                Ok(action.idle_text())
            } else {
                match self.script {
                    Err(e) => Err(e),
                    Ok(_) => if !self.consent {
                        Ok(action.done_text())
                    } else {
                        match self.destroy {
                            Err(e) => Err(e),
                            Ok(gone) => if gone.exit_success {
                                Ok(action.done_text())
                            } else {
                                Err(action.destroy_failure())
                            },
                        }
                    },
                }
            },
        }
    }

    /// What `action` comes to on `platform` with these replies.
    pub open spec fn result(self, action: Action, platform: PlatformTarget) -> Result<
        Seq<char>,
        ErrorKind,
    > {
        if platform != PlatformTarget::WindowsWSL {
            self.host_result(platform)
        } else if action == Action::Install {
            self.windows_install_result()
        } else {
            self.windows_removal_result(action)
        }
    }
}

/// Where the action `d` stands after at most `tasks` more tasks, each with
/// the reply of `replies`.
pub open spec fn run(d: Dispatcher, replies: Replies, tasks: nat) -> AdvanceModel
    decreases tasks,
{
    if tasks == 0 {
        AdvanceModel::Next(d)
    } else {
        match d.step(replies.at(d.stage)) {
            AdvanceModel::Next(next) => run(next, replies, (tasks - 1) as nat),
            end => end,
        }
    }
}

/// The number of tasks after which every action has ended.
pub open spec fn max_tasks() -> nat {
    4
}

/// Every action ends after at most `max_tasks()` tasks, and with the result
/// that the replies stand for. Whether the shortcut is part of the action,
/// and what became of it, makes no difference to the result.
pub proof fn lemma_action_gives_result(
    action: Action,
    platform: PlatformTarget,
    appimage: Seq<char>,
    home: Seq<char>,
    replies: Replies,
)
    ensures
        run(Dispatcher::initial(action, platform, appimage, home), replies, max_tasks())
            == AdvanceModel::Finished(replies.result(action, platform)),
{
    reveal_with_fuel(run, 5);
}

/// The distribution never goes unasked: a step leads to the stage that lets
/// it go only from the question, and only with the user's consent.
pub proof fn lemma_destroy_needs_consent(d: Dispatcher, reply: ReplyModel)
    requires
        d.stage != Stage::Destroy,
        d.step(reply) matches AdvanceModel::Next(next) && next.stage == Stage::Destroy,
    ensures
        d.stage == Stage::Confirm,
        reply == ReplyModel::Confirmed(true),
{
}

/// A step never changes the action or the platform.
pub proof fn lemma_step_keeps_action(d: Dispatcher, reply: ReplyModel)
    ensures
        d.step(reply) matches AdvanceModel::Next(next) ==> next.action == d.action && next.platform
            == d.platform,
{
}

/// The name of the bundled script for `action` on `platform`.
pub open spec fn script_resource(action: Action, platform: PlatformTarget) -> Seq<char> {
    match (action, platform) {
        (Action::Install, PlatformTarget::MacOS) => "res/install-mac.sh"@,
        (Action::Install, PlatformTarget::LinuxNative) => "res/install-linux.sh"@,
        (Action::Install, PlatformTarget::WindowsWSL) => "res/install-win.bat"@,
        (Action::Stop, PlatformTarget::MacOS) => "res/stop-mac.sh"@,
        (Action::Stop, PlatformTarget::LinuxNative) => "res/stop-linux.sh"@,
        (Action::Stop, PlatformTarget::WindowsWSL) => "res/stop-win.bat"@,
        (Action::Uninstall, PlatformTarget::MacOS) => "res/uninstall-mac.sh"@,
        (Action::Uninstall, PlatformTarget::LinuxNative) => "res/uninstall-linux.sh"@,
        (Action::Uninstall, PlatformTarget::WindowsWSL) => "res/uninstall-win.bat"@,
    }
}

/// The name under which the script for `action` is copied to the directory
/// for temporary files before it runs with elevated rights.
pub open spec fn temp_script_name(action: Action) -> Seq<char> {
    match action {
        Action::Install => "sonaric-install.sh"@,
        Action::Stop => "sonaric-stop.sh"@,
        Action::Uninstall => "sonaric-remove.sh"@,
    }
}

impl Launcher {
    /// The command line that runs the script at `script`. Its lines are
    /// emitted, and an exit with a failure is an error.
    pub open spec fn command(self, script: Seq<char>) -> InvocationModel {
        match self {
            Launcher::Bash => streamed("bash"@, seq![script], true, true),
            Launcher::WindowsShell => streamed(
                WINDOWS_SHELL@,
                seq![WINDOWS_SHELL_RUN@, script],
                true,
                true,
            ),
            Launcher::Elevated => streamed(
                ELEVATION_PROGRAM@,
                seq![ELEVATED_SHELL@, script],
                true,
                true,
            ),
        }
    }

    /// The command line that runs the script at `script`.
    pub fn invocation(&self, script: &str) -> (r: Invocation)
        ensures
            r@ == self.command(script@),
    {
        match self {
            Launcher::Bash => {
                let mut args: Vec<String> = Vec::new();
                assert(texts(args@) =~= Seq::<Seq<char>>::empty());
                push_text(&mut args, script);
                assert(texts(args@) =~= seq![script@]);
                exec_script("bash", args, true, true)
            },
            Launcher::WindowsShell => {
                let mut args: Vec<String> = Vec::new();
                assert(texts(args@) =~= Seq::<Seq<char>>::empty());
                push_text(&mut args, WINDOWS_SHELL_RUN);
                push_text(&mut args, script);
                assert(texts(args@) =~= seq![WINDOWS_SHELL_RUN@, script@]);
                exec_script(WINDOWS_SHELL, args, true, true)
            },
            Launcher::Elevated => elevated_script(script),
        }
    }
}

impl Dispatcher {
    /// How the script of the action is run.
    pub fn launcher(&self) -> (r: Launcher)
        ensures
            r == self.platform.launcher(),
    {
        match self.platform {
            PlatformTarget::MacOS => Launcher::Bash,
            PlatformTarget::LinuxNative => Launcher::Elevated,
            PlatformTarget::WindowsWSL => Launcher::WindowsShell,
        }
    }

    /// The name of the bundled script of the action.
    pub fn resource(&self) -> (r: String)
        ensures
            r@ == script_resource(self.action, self.platform),
    {
        match (self.action, self.platform) {
            (Action::Install, PlatformTarget::MacOS) => "res/install-mac.sh".to_owned(),
            (Action::Install, PlatformTarget::LinuxNative) => "res/install-linux.sh".to_owned(),
            (Action::Install, PlatformTarget::WindowsWSL) => "res/install-win.bat".to_owned(),
            (Action::Stop, PlatformTarget::MacOS) => "res/stop-mac.sh".to_owned(),
            (Action::Stop, PlatformTarget::LinuxNative) => "res/stop-linux.sh".to_owned(),
            (Action::Stop, PlatformTarget::WindowsWSL) => "res/stop-win.bat".to_owned(),
            (Action::Uninstall, PlatformTarget::MacOS) => "res/uninstall-mac.sh".to_owned(),
            (Action::Uninstall, PlatformTarget::LinuxNative) => "res/uninstall-linux.sh".to_owned(),
            (Action::Uninstall, PlatformTarget::WindowsWSL) => "res/uninstall-win.bat".to_owned(),
        }
    }

    /// The name of the copy of the script that runs with elevated rights.
    pub fn temp_name(&self) -> (r: String)
        ensures
            r@ == temp_script_name(self.action),
    {
        match self.action {
            Action::Install => "sonaric-install.sh".to_owned(),
            Action::Stop => "sonaric-stop.sh".to_owned(),
            Action::Uninstall => "sonaric-remove.sh".to_owned(),
        }
    }
}

/// What Windows puts before a path to say that it is to be taken literally.
pub const VERBATIM_PREFIX: &'static str = "\\\\?\\";

/// The path of a bundled resource as the scripts take it: on Windows
/// without the prefix of a literal path, elsewhere as it was resolved.
pub open spec fn resource_path(resolved: Seq<char>, platform: PlatformTarget) -> Seq<char> {
    if platform == PlatformTarget::WindowsWSL {
        strip_all_leading(resolved, VERBATIM_PREFIX@)
    } else {
        resolved
    }
}

/// The path of a bundled resource as the scripts take it. `resolved` is
/// where the resource was found, if it was.
pub fn get_resource_path(resolved: Option<&str>, platform: PlatformTarget) -> (r: Result<
    String,
    Error,
>)
    ensures
        match resolved {
            Some(path) => r matches Ok(p) && p@ == resource_path(path@, platform),
            None => r matches Err(e) && e.spec_kind() == ErrorKind::InvalidPath,
        },
{
    match resolved {
        None => Err(Error::Failed(Failure::InvalidPath("install".to_owned()))),
        Some(path) => match platform {
            PlatformTarget::WindowsWSL => Ok(without_all_leading(path, VERBATIM_PREFIX)),
            _ => Ok(path.to_owned()),
        },
    }
}

/// Where the desktop shortcut lies below the home directory.
pub const DESKTOP_ENTRY_SUFFIX: &'static str = "/.local/share/applications/sonaric.desktop";

/// The resource that holds the icon of the shortcut.
pub const ICON_RESOURCE: &'static str = "res/icon.png";

/// The name of the icon's copy in the directory of the configuration.
pub const ICON_FILE: &'static str = "icon.png";

/// The path of the desktop shortcut for the home directory `home`.
pub fn desktop_entry_path(home: &str) -> (r: String)
    ensures
        r@ == home@ + DESKTOP_ENTRY_SUFFIX@,
{
    let mut r = home.to_owned();
    r.append(DESKTOP_ENTRY_SUFFIX);
    r
}

/// What the desktop shortcut holds: the name of the application, the image
/// to run and its icon.
pub open spec fn desktop_entry_text(appimage: Seq<char>, icon: Seq<char>) -> Seq<char> {
    "[Desktop Entry]\nName=Sonaric\nExec="@ + appimage + "\nIcon="@ + icon
        + "\nType=Application\nCategories="@
}

/// What the desktop shortcut holds.
pub fn desktop_entry(appimage: &str, icon: &str) -> (r: String)
    ensures
        r@ == desktop_entry_text(appimage@, icon@),
{
    let mut r = "[Desktop Entry]\nName=Sonaric\nExec=".to_owned();
    r.append(appimage);
    r.append("\nIcon=");
    r.append(icon);
    r.append("\nType=Application\nCategories=");
    r
}

/// Whether the desktop shortcut is to be written: it is missing, and the
/// folder for it is there.
pub fn create_desktop_entry(entry_exists: bool, folder_exists: bool) -> (r: bool)
    ensures
        r == (!entry_exists && folder_exists),
{
    !(entry_exists || !folder_exists)
}

} // verus!
