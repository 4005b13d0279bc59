//! What can go wrong, and how each failure reads to the user.

use crate::text::texts;
use vstd::prelude::*;
use vstd::string::*;

verus! {

/// A condition that is no failure: the caller asks the user to try again.
#[derive(Clone, Copy, Debug, PartialEq, Eq, Structural)]
pub enum RetryableCondition {
    /// The elevated command was refused: the user has to grant permission.
    PermissionDenied,
    /// The local GUI service does not answer yet.
    GuiUnavailable,
}

/// One of the two texts that frame a version.
#[derive(Clone, Copy, Debug, PartialEq, Eq, Structural)]
pub enum Marker {
    /// The marker that introduces the version.
    Start,
    /// The delimiter that ends it.
    End,
}

/// Why no version could be read from a text.
#[derive(Clone, Debug)]
pub enum ParseError {
    /// The marker that introduces the version, or the delimiter that ends it,
    /// is missing; the payload says which.
    MarkerNotFound(Marker),
    /// The text between them is no semantic version; the payload says why.
    InvalidVersion(String),
}

/// A named failure of a probe or an action.
#[derive(Clone, Debug)]
pub enum Failure {
    /// The agent binary is in none of the searched directories.
    BinaryNotFound,
    /// The agent's version command printed no version.
    NotInstalled,
    /// The WSL distribution is not running.
    WslNotRunning,
    /// WSL itself is absent.
    WslMissing,
    /// WSL is present in version 1 only.
    WslOutdated,
    /// The registry lists no release of the GUI under the tag `latest`.
    GuiReleaseNotFound,
    /// The WSL distribution could not be terminated.
    TerminateFailed,
    /// The WSL distribution could not be unregistered.
    UnregisterFailed,
    /// This library does not know the operating system.
    UnsupportedPlatform,
    /// A path that is needed cannot be had; the payload names it.
    InvalidPath(String),
}

/// Every error of this library.
#[derive(Clone, Debug)]
pub enum Error {
    /// The external program could not be started; the payload says why.
    SpawnFailure(String),
    /// The program ran and exited with a failure; `tail_lines` holds the last
    /// lines of its output, `code` the exit code where there is one.
    NonZeroExit { tail_lines: Vec<String>, code: Option<i32> },
    /// The output was no text in the expected encoding; `tail_lines` holds
    /// the last lines read before, `output` all of them.
    DecodeFailure { tail_lines: Vec<String>, output: String },
    /// No version could be read.
    ParseFailure(ParseError),
    /// A request to a local or remote service failed; the payload says why.
    NetworkFailure(String),
    /// Not a failure: the caller may try again.
    RetryError(RetryableCondition),
    /// A probe or an action failed in a way of its own.
    Failed(Failure),
}

/// An error without its payload: what went wrong, not the details.
#[derive(Clone, Copy, Debug, PartialEq, Eq, Structural)]
pub enum ErrorKind {
    SpawnFailure,
    /// With the exit code, where the program ended with one.
    NonZeroExit(Option<i32>),
    DecodeFailure,
    MarkerNotFound,
    InvalidVersion,
    NetworkFailure,
    Retry(RetryableCondition),
    BinaryNotFound,
    NotInstalled,
    WslNotRunning,
    WslMissing,
    WslOutdated,
    GuiReleaseNotFound,
    TerminateFailed,
    UnregisterFailed,
    UnsupportedPlatform,
    InvalidPath,
}

/// What a call gave, without the payload of its error: the view of the value,
/// or the kind of the error.
pub open spec fn outcome<T: View>(r: Result<T, Error>) -> Result<T::V, ErrorKind> {
    match r {
        Ok(v) => Ok(v@),
        Err(e) => Err(e.spec_kind()),
    }
}

impl RetryableCondition {
    /// The text shown to the user.
    pub open spec fn text(self) -> Seq<char> {
        match self {
            RetryableCondition::PermissionDenied =>
                "permission denied: please try again with elevated permissions"@,
            RetryableCondition::GuiUnavailable => "GUI is not available"@,
        }
    }

    /// The text shown to the user.
    pub fn message(&self) -> (r: String)
        ensures
            r@ == self.text(),
    {
        match self {
            RetryableCondition::PermissionDenied =>
                "permission denied: please try again with elevated permissions".to_owned(),
            RetryableCondition::GuiUnavailable => "GUI is not available".to_owned(),
        }
    }
}

impl Failure {
    /// The text shown to the user.
    pub open spec fn text(self) -> Seq<char> {
        match self {
            Failure::BinaryNotFound => "Sonaric binary not found"@,
            Failure::NotInstalled => "Sonaric is not installed"@,
            Failure::WslNotRunning => "WSL distribution is not running"@,
            Failure::WslMissing =>
                "It looks like WSL is not installed. Please install WSL from Microsoft Store (https://aka.ms/wslstorepage) and try again."@,
            Failure::WslOutdated =>
                "It looks like you are using WSL 1. Please upgrade to WSL 2 (https://aka.ms/wslstorepage) and try again."@,
            Failure::GuiReleaseNotFound => "GUI release not found in registry"@,
            Failure::TerminateFailed => "Failed to terminate WSL distribution"@,
            Failure::UnregisterFailed => "Failed to unregister WSL distribution"@,
            Failure::UnsupportedPlatform => "Unsupported OS"@,
            Failure::InvalidPath(which) => "Invalid "@ + which@ + " path"@,
        }
    }

    /// The text shown to the user.
    pub fn message(&self) -> (r: String)
        ensures
            r@ == self.text(),
    {
        match self {
            Failure::BinaryNotFound => "Sonaric binary not found".to_owned(),
            Failure::NotInstalled => "Sonaric is not installed".to_owned(),
            Failure::WslNotRunning => "WSL distribution is not running".to_owned(),
            Failure::WslMissing =>
                "It looks like WSL is not installed. Please install WSL from Microsoft Store (https://aka.ms/wslstorepage) and try again.".to_owned(),
            Failure::WslOutdated =>
                "It looks like you are using WSL 1. Please upgrade to WSL 2 (https://aka.ms/wslstorepage) and try again.".to_owned(),
            Failure::GuiReleaseNotFound => "GUI release not found in registry".to_owned(),
            Failure::TerminateFailed => "Failed to terminate WSL distribution".to_owned(),
            Failure::UnregisterFailed => "Failed to unregister WSL distribution".to_owned(),
            Failure::UnsupportedPlatform => "Unsupported OS".to_owned(),
            Failure::InvalidPath(which) => {
                let mut r = "Invalid ".to_owned();
                r.append(which.as_str());
                r.append(" path");
                r
            },
        }
    }
}

impl Failure {
    /// The failure without its payload.
    pub open spec fn spec_kind(&self) -> ErrorKind {
        match self {
            Failure::BinaryNotFound => ErrorKind::BinaryNotFound,
            Failure::NotInstalled => ErrorKind::NotInstalled,
            Failure::WslNotRunning => ErrorKind::WslNotRunning,
            Failure::WslMissing => ErrorKind::WslMissing,
            Failure::WslOutdated => ErrorKind::WslOutdated,
            Failure::GuiReleaseNotFound => ErrorKind::GuiReleaseNotFound,
            Failure::TerminateFailed => ErrorKind::TerminateFailed,
            Failure::UnregisterFailed => ErrorKind::UnregisterFailed,
            Failure::UnsupportedPlatform => ErrorKind::UnsupportedPlatform,
            Failure::InvalidPath(_) => ErrorKind::InvalidPath,
        }
    }

    /// The failure without its payload.
    #[verifier::when_used_as_spec(spec_kind)]
    pub fn kind(&self) -> (r: ErrorKind)
        ensures
            r == self.spec_kind(),
    {
        match self {
            Failure::BinaryNotFound => ErrorKind::BinaryNotFound,
            Failure::NotInstalled => ErrorKind::NotInstalled,
            Failure::WslNotRunning => ErrorKind::WslNotRunning,
            Failure::WslMissing => ErrorKind::WslMissing,
            Failure::WslOutdated => ErrorKind::WslOutdated,
            Failure::GuiReleaseNotFound => ErrorKind::GuiReleaseNotFound,
            Failure::TerminateFailed => ErrorKind::TerminateFailed,
            Failure::UnregisterFailed => ErrorKind::UnregisterFailed,
            Failure::UnsupportedPlatform => ErrorKind::UnsupportedPlatform,
            Failure::InvalidPath(_) => ErrorKind::InvalidPath,
        }
    }
}

/// The lines one below the other: a line feed between each two, and none at
/// the end.
pub open spec fn stacked(lines: Seq<Seq<char>>) -> Seq<char>
    decreases lines.len(),
{
    if lines.len() == 0 {
        Seq::empty()
    } else if lines.len() == 1 {
        lines[0]
    } else {
        stacked(lines.drop_last()) + seq!['\n'] + lines.last()
    }
}

/// The lines one below the other.
pub fn stack(lines: &Vec<String>) -> (r: String)
    ensures
        r@ == stacked(texts(lines@)),
{
    let ghost all = texts(lines@);
    assert(all.len() == lines@.len());
    let mut r = String::new();
    let mut i: usize = 0;
    assert(all.subrange(0, 0) =~= Seq::<Seq<char>>::empty());
    while i < lines.len()
        invariant
            i <= lines.len(),
            all == texts(lines@),
            all.len() == lines@.len(),
            r@ == stacked(all.subrange(0, i as int)),
        decreases lines.len() - i,
    {
        proof {
            reveal_strlit("\n");
            assert("\n"@ =~= seq!['\n']);
            let next = all.subrange(0, i + 1);
            assert(next.drop_last() =~= all.subrange(0, i as int));
            assert(next.last() == lines[i as int]@);
        }
        if i > 0 {
            r.append("\n");
        }
        r.append(lines[i].as_str());
        i += 1;
    }
    assert(all.subrange(0, i as int) =~= all);
    r
}

impl ParseError {
    /// The text shown to the user. For a text that is no version it is the
    /// reason that the parser gave.
    pub open spec fn text(self) -> Seq<char> {
        match self {
            ParseError::MarkerNotFound(Marker::Start) => "Version start not found"@,
            ParseError::MarkerNotFound(Marker::End) => "Version end not found"@,
            ParseError::InvalidVersion(reason) => reason@,
        }
    }

    /// The text shown to the user.
    pub fn message(&self) -> (r: String)
        ensures
            r@ == self.text(),
    {
        match self {
            ParseError::MarkerNotFound(Marker::Start) => "Version start not found".to_owned(),
            ParseError::MarkerNotFound(Marker::End) => "Version end not found".to_owned(),
            ParseError::InvalidVersion(reason) => reason.clone(),
        }
    }
}

impl Error {
    /// The text shown to the user. A command that failed shows the last
    /// lines of its output; what failed outside this library shows the
    /// reason that came with it.
    pub open spec fn text(self) -> Seq<char> {
        match self {
            Error::SpawnFailure(reason) => reason@,
            Error::NonZeroExit { tail_lines, .. } => "command execution failed:\n\n"@ + stacked(
                texts(tail_lines@),
            ),
            Error::DecodeFailure { tail_lines, .. } => "command execution failed:\n\n"@ + stacked(
                texts(tail_lines@),
            ),
            Error::ParseFailure(p) => p.text(),
            Error::NetworkFailure(reason) => reason@,
            Error::RetryError(c) => c.text(),
            Error::Failed(f) => f.text(),
        }
    }

    /// The text shown to the user.
    pub fn message(&self) -> (r: String)
        ensures
            r@ == self.text(),
    {
        match self {
            Error::SpawnFailure(reason) => reason.clone(),
            Error::NonZeroExit { tail_lines, .. } => {
                let mut r = "command execution failed:\n\n".to_owned();
                r.append(stack(tail_lines).as_str());
                r
            },
            Error::DecodeFailure { tail_lines, .. } => {
                let mut r = "command execution failed:\n\n".to_owned();
                r.append(stack(tail_lines).as_str());
                r
            },
            Error::ParseFailure(p) => p.message(),
            Error::NetworkFailure(reason) => reason.clone(),
            Error::RetryError(c) => c.message(),
            Error::Failed(f) => f.message(),
        }
    }

    /// The error without its payload.
    pub open spec fn spec_kind(&self) -> ErrorKind {
        match self {
            Error::SpawnFailure(_) => ErrorKind::SpawnFailure,
            Error::NonZeroExit { code, .. } => ErrorKind::NonZeroExit(*code),
            Error::DecodeFailure { .. } => ErrorKind::DecodeFailure,
            Error::ParseFailure(ParseError::MarkerNotFound(_)) => ErrorKind::MarkerNotFound,
            Error::ParseFailure(ParseError::InvalidVersion(_)) => ErrorKind::InvalidVersion,
            Error::NetworkFailure(_) => ErrorKind::NetworkFailure,
            Error::RetryError(c) => ErrorKind::Retry(*c),
            Error::Failed(f) => f.spec_kind(),
        }
    }

    /// The error without its payload.
    #[verifier::when_used_as_spec(spec_kind)]
    pub fn kind(&self) -> (r: ErrorKind)
        ensures
            r == self.spec_kind(),
    {
        match self {
            Error::SpawnFailure(_) => ErrorKind::SpawnFailure,
            Error::NonZeroExit { code, .. } => ErrorKind::NonZeroExit(*code),
            Error::DecodeFailure { .. } => ErrorKind::DecodeFailure,
            Error::ParseFailure(ParseError::MarkerNotFound(_)) => ErrorKind::MarkerNotFound,
            Error::ParseFailure(ParseError::InvalidVersion(_)) => ErrorKind::InvalidVersion,
            Error::NetworkFailure(_) => ErrorKind::NetworkFailure,
            Error::RetryError(c) => ErrorKind::Retry(*c),
            Error::Failed(f) => f.kind(),
        }
    }

    /// Whether the caller may try again instead of giving up.
    pub open spec fn is_retryable(self) -> bool {
        self is RetryError
    }

    /// Whether the caller may try again instead of giving up.
    pub fn retryable(&self) -> (r: bool)
        ensures
            r == self.is_retryable(),
    {
        match self {
            Error::RetryError(_) => true,
            _ => false,
        }
    }
}

} // verus!
