//! Semantic versions: reading one out of free text, rendering and ordering.

use crate::error::{outcome, Error, ErrorKind, Failure, Marker, ParseError};
use crate::text::{
    cleaned, contains, find, find_from, from_chars, same_text, slice, starts_with, str_contains,
    str_starts_with, strip_leading, texts, to_chars, trim, trimmed, without_leading,
};
use vstd::prelude::*;
use vstd::string::*;

verus! {

/// A semantic version: `major.minor.patch`, an optional pre-release after `-`
/// and optional build metadata after `+`.
#[derive(Clone, Debug)]
pub struct Version {
    pub major: u64,
    pub minor: u64,
    pub patch: u64,
    /// The pre-release identifiers, dot-separated; empty for a release.
    pub pre: String,
    /// The build metadata, dot-separated; empty where there is none.
    pub build: String,
}

/// What a `Version` stands for.
pub struct VersionModel {
    pub major: nat,
    pub minor: nat,
    pub patch: nat,
    pub pre: Seq<char>,
    pub build: Seq<char>,
}

impl View for Version {
    type V = VersionModel;

    open spec fn view(&self) -> VersionModel {
        VersionModel {
            major: self.major as nat,
            minor: self.minor as nat,
            patch: self.patch as nat,
            pre: self.pre@,
            build: self.build@,
        }
    }
}

/// What `semver::Version::parse` makes of `text`: the numbers, the pre-release
/// and the build metadata of the version that it reads, or `None` where it
/// rejects the text.
pub uninterp spec fn semver_parse(text: Seq<char>) -> Option<(u64, u64, u64, Seq<char>, Seq<char>)>;

/// What reading `text` as a semantic version gives: the version that
/// `semver::Version::parse` reads, or `InvalidVersion` where it rejects the
/// text.
pub open spec fn read(text: Seq<char>) -> Result<VersionModel, ErrorKind> {
    match semver_parse(text) {
        Some(t) => Ok(
            VersionModel {
                major: t.0 as nat,
                minor: t.1 as nat,
                patch: t.2 as nat,
                pre: t.3,
                build: t.4,
            },
        ),
        None => Err(ErrorKind::InvalidVersion),
    }
}

/// Calls `semver::Version::parse` and copies the fields of the version that it
/// returns, or renders its error as text. The contract only gives the outcome
/// its name, `semver_parse`; of the error's text it claims nothing.
#[verifier::external_body]
pub(crate) fn parse_semver(text: &str) -> (r: Result<Version, String>)
    ensures
        match r {
            Ok(v) => semver_parse(text@) == Some((v.major, v.minor, v.patch, v.pre@, v.build@)),
            Err(_) => semver_parse(text@) is None,
        },
{
    match ::semver::Version::parse(text) {
        Ok(v) => Ok(
            Version {
                major: v.major,
                minor: v.minor,
                patch: v.patch,
                pre: v.pre.as_str().to_owned(),
                build: v.build.as_str().to_owned(),
            },
        ),
        Err(e) => Err(e.to_string()),
    }
}

impl Version {
    /// The release `major.minor.patch`, with no pre-release and no build
    /// metadata.
    pub fn new(major: u64, minor: u64, patch: u64) -> (r: Version)
        ensures
            r@ == (VersionModel {
                major: major as nat,
                minor: minor as nat,
                patch: patch as nat,
                pre: Seq::empty(),
                build: Seq::empty(),
            }),
    {
        Version { major, minor, patch, pre: String::new(), build: String::new() }
    }

    /// Reads `text` as a semantic version.
    pub fn parse(text: &str) -> (r: Result<Version, Error>)
        ensures
            outcome(r) == read(text@),
    {
        match parse_semver(text) {
            Ok(v) => Ok(v),
            Err(reason) => Err(Error::ParseFailure(ParseError::InvalidVersion(reason))),
        }
    }
}

/// The text that introduces the version in the output of the agent's version
/// command.
pub const VERSION_MARKER: &'static str = "CLI version:";

/// The text that ends the version there.
pub const VERSION_DELIMITER: &'static str = ", ";

/// The text of the version in `text`: what stands between the first marker
/// and the first delimiter after it, without surrounding white space and
/// without one leading `v`. `None` where the marker or the delimiter is
/// missing.
pub open spec fn version_text(text: Seq<char>) -> Option<Seq<char>> {
    match find(text, VERSION_MARKER@, 0) {
        None => None,
        Some(start) => match find(text, VERSION_DELIMITER@, start + VERSION_MARKER@.len()) {
            None => None,
            Some(end) => Some(
                strip_leading(trim(text.subrange(start + VERSION_MARKER@.len(), end)), 'v'),
            ),
        },
    }
}

/// A text of the shape `CLI version: v1.2.3, ` gives exactly the version in
/// it: whatever stands before the marker, as long as the marker does not
/// begin in it, and whatever follows the delimiter, the text handed to the
/// version parser is what stands after `CLI version: v` and before the
/// delimiter, where that holds neither a comma nor white space.
pub proof fn lemma_version_text_of_shape(before: Seq<char>, version: Seq<char>, rest: Seq<char>)
    requires
        forall|j: int|
            0 <= j < before.len() ==> !crate::text::occurs_at(
                before + VERSION_MARKER@,
                VERSION_MARKER@,
                j,
            ),
        forall|i: int|
            0 <= i < version.len() ==> version[i] != ',' && !crate::text::is_whitespace(
                #[trigger] version[i],
            ),
    ensures
        version_text(before + VERSION_MARKER@ + " v"@ + version + VERSION_DELIMITER@ + rest) == Some(
            version,
        ),
        version_in(before + VERSION_MARKER@ + " v"@ + version + VERSION_DELIMITER@ + rest) == read(
            version,
        ),
{
    reveal_strlit("CLI version:");
    reveal_strlit(", ");
    reveal_strlit(" v");
    let marker = VERSION_MARKER@;
    let delimiter = VERSION_DELIMITER@;
    let text = before + marker + " v"@ + version + delimiter + rest;
    let start = before.len() as int;
    let from = start + marker.len();
    let end = from + 2 + version.len();
    assert(text.subrange(start, start + marker.len()) =~= marker);
    assert forall|j: int| 0 <= j < start implies !crate::text::occurs_at(text, marker, j) by {
        assert(!crate::text::occurs_at(before + marker, marker, j));
        assert(text.subrange(j, j + marker.len()) =~= (before + marker).subrange(
            j,
            j + marker.len(),
        ));
    }
    assert(crate::text::is_first_occurrence(text, marker, 0, start));
    crate::text::lemma_found(text, marker, 0, start);
    assert(text.subrange(end, end + delimiter.len()) =~= delimiter);
    assert forall|j: int| from <= j < end implies !crate::text::occurs_at(text, delimiter, j) by {
        if crate::text::occurs_at(text, delimiter, j) {
            assert(text.subrange(j, j + delimiter.len())[0] == delimiter[0]);
            assert(text[j] == ',');
            if j >= from + 2 {
                assert(text[j] == version[j - from - 2]);
            }
        }
    }
    assert(crate::text::is_first_occurrence(text, delimiter, from, end));
    crate::text::lemma_found(text, delimiter, from, end);
    let between = text.subrange(from, end);
    assert(between =~= " v"@ + version);
    let unpadded = seq!['v'] + version;
    assert(between.subrange(1, between.len() as int) =~= unpadded);
    assert(crate::text::trim_start(between) == crate::text::trim_start(unpadded));
    assert(crate::text::trim_start(unpadded) == unpadded);
    assert(!crate::text::is_whitespace(unpadded[unpadded.len() - 1])) by {
        if version.len() > 0 {
            assert(unpadded[unpadded.len() - 1] == version[version.len() - 1]);
        }
    }
    assert(crate::text::trim_end(unpadded) == unpadded);
    assert(strip_leading(unpadded, 'v') =~= version);
}

/// Without the marker, and without the delimiter, no version is read.
pub proof fn lemma_version_text_needs_markers(text: Seq<char>)
    requires
        !contains(text, VERSION_MARKER@) || !contains(text, VERSION_DELIMITER@),
    ensures
        version_text(text) is None,
        version_in(text) == Err::<VersionModel, ErrorKind>(ErrorKind::MarkerNotFound),
{
    crate::text::lemma_find(text, VERSION_MARKER@, 0);
    if find(text, VERSION_MARKER@, 0) is Some {
        let start = find(text, VERSION_MARKER@, 0)->0;
        assert(crate::text::occurs_at(text, VERSION_MARKER@, start));
        let from = start + VERSION_MARKER@.len();
        crate::text::lemma_find(text, VERSION_DELIMITER@, from);
        if find(text, VERSION_DELIMITER@, from) is Some {
            let end = find(text, VERSION_DELIMITER@, from)->0;
            assert(crate::text::occurs_at(text, VERSION_DELIMITER@, end));
        }
    }
}

/// Reads the agent's version out of the output of its version command.
pub fn parse_version(text: String) -> (r: Result<Version, Error>)
    ensures
        outcome(r) == version_in(text@),
        r matches Err(Error::ParseFailure(ParseError::MarkerNotFound(missing))) ==> (missing
            == Marker::Start <==> find(text@, VERSION_MARKER@, 0) is None),
{
    let chars = to_chars(text.as_str());
    let marker = to_chars(VERSION_MARKER);
    let delimiter = to_chars(VERSION_DELIMITER);
    let start = match find_from(&chars, &marker, 0) {
        Some(i) => i,
        None => { return Err(Error::ParseFailure(ParseError::MarkerNotFound(Marker::Start))); },
    };
    let from = start + marker.len();
    let end = match find_from(&chars, &delimiter, from) {
        Some(i) => i,
        None => { return Err(Error::ParseFailure(ParseError::MarkerNotFound(Marker::End))); },
    };
    let between = slice(&chars, from, end);
    let version = without_leading(&trimmed(&between), 'v');
    Version::parse(from_chars(&version).as_str())
}

/// Reads the latest published version out of the body that the release
/// endpoint returned: the body without surrounding white space and without
/// one leading `v`.
pub fn get_latest_version(body: &str) -> (r: Result<Version, Error>)
    ensures
        outcome(r) == version_of_body(body@),
{
    Version::parse(cleaned(body, 'v').as_str())
}

/// The character of the decimal digit `d`.
pub open spec fn digit(d: nat) -> char
    recommends
        d < 10,
{
    (48 + d) as char
}

/// `n` written in base 10, without leading zeros.
pub open spec fn decimal(n: nat) -> Seq<char>
    decreases n,
{
    if n < 10 {
        seq![digit(n)]
    } else {
        decimal(n / 10).push(digit(n % 10))
    }
}

/// `n` written in base 10, without leading zeros.
pub fn to_decimal(n: u64) -> (r: Vec<char>)
    ensures
        r@ == decimal(n as nat),
{
    // The digits from the last to the first.
    let mut reversed: Vec<char> = Vec::new();
    let mut rest: u64 = n;
    while rest >= 10
        invariant
            decimal(n as nat) == decimal(rest as nat) + reversed@.reverse(),
        decreases rest,
    {
        let d: u8 = (rest % 10) as u8;
        let c: char = (48u8 + d) as char;
        proof {
            assert(c == digit((rest % 10) as nat));
            let before = reversed@;
            let after = before.push(c);
            assert(after.reverse() =~= seq![c] + before.reverse());
            assert(decimal(rest as nat) == decimal((rest / 10) as nat).push(c));
            assert(decimal((rest / 10) as nat).push(c) + before.reverse() =~= decimal(
                (rest / 10) as nat,
            ) + after.reverse());
        }
        reversed.push(c);
        rest = rest / 10;
    }
    let c: char = (48u8 + (rest as u8)) as char;
    let mut r: Vec<char> = Vec::new();
    r.push(c);
    let mut i: usize = reversed.len();
    while i > 0
        invariant
            i <= reversed.len(),
            r@ == seq![c] + reversed@.reverse().take(reversed.len() - i),
        decreases i,
    {
        i -= 1;
        r.push(reversed[i]);
        assert(r@ =~= seq![c] + reversed@.reverse().take(reversed.len() - i));
    }
    assert(reversed@.reverse().take(reversed.len() as int) =~= reversed@.reverse());
    r
}

/// What comparing two pre-release texts as `semver::Prerelease` values gives:
/// whether the first is greater than the second, or `None` where
/// `semver::Prerelease::new` rejects one of them.
pub uninterp spec fn prerelease_gt(a: Seq<char>, b: Seq<char>) -> Option<bool>;

/// Reads both texts with `semver::Prerelease::new` and compares the two
/// values with `>`. The contract gives the outcome its name, `prerelease_gt`,
/// and states three facts of it: a pre-release is not greater than itself;
/// the empty pre-release, which marks a release, is greater than every other
/// one that can be read; and no other one is greater than the empty one.
#[verifier::external_body]
pub(crate) fn compare_prerelease(a: &str, b: &str) -> (r: Option<bool>)
    ensures
        r == prerelease_gt(a@, b@),
        a@ == b@ ==> r != Some(true),
        a@.len() == 0 && b@.len() > 0 && r is Some ==> r == Some(true),
        a@.len() > 0 && b@.len() == 0 ==> r != Some(true),
{
    match (::semver::Prerelease::new(a), ::semver::Prerelease::new(b)) {
        (Ok(x), Ok(y)) => Some(x > y),
        _ => None,
    }
}

/// The pre-release `a` has precedence over the pre-release `b`. No
/// pre-release has it over itself or over the empty one, which marks a
/// release; the empty one has it over every other one that can be read; and
/// between two others the comparison of the `semver` crate decides. A
/// pre-release that cannot be read has precedence over none.
pub open spec fn prerelease_newer(a: Seq<char>, b: Seq<char>) -> bool {
    if a == b || b.len() == 0 {
        false
    } else if a.len() == 0 {
        prerelease_gt(a, b) is Some
    } else {
        prerelease_gt(a, b) == Some(true)
    }
}

/// `a` has precedence over `b`: the greater major number, then the greater
/// minor number, then the greater patch number, then the pre-release with
/// precedence. Build metadata plays no part.
pub open spec fn newer(a: VersionModel, b: VersionModel) -> bool {
    ||| a.major > b.major
    ||| a.major == b.major && a.minor > b.minor
    ||| a.major == b.major && a.minor == b.minor && a.patch > b.patch
    ||| a.major == b.major && a.minor == b.minor && a.patch == b.patch && prerelease_newer(
        a.pre,
        b.pre,
    )
}

/// With `latest` published, `current` needs no update.
pub open spec fn is_up_to_date(current: VersionModel, latest: VersionModel) -> bool {
    !newer(latest, current)
}

/// No version has precedence over itself, so every version is up to date
/// with itself.
pub proof fn lemma_up_to_date_reflexive(a: VersionModel)
    ensures
        !newer(a, a),
        is_up_to_date(a, a),
{
}

/// A release has precedence over each of its pre-releases that can be read,
/// and none of them has precedence over the release: with `1.3.0` published,
/// `1.3.0-rc.1` is not up to date.
pub proof fn lemma_release_after_prerelease(release: VersionModel, before: VersionModel)
    requires
        release.major == before.major,
        release.minor == before.minor,
        release.patch == before.patch,
        release.pre.len() == 0,
        before.pre.len() > 0,
    ensures
        !newer(before, release),
        is_up_to_date(release, before),
        prerelease_gt(release.pre, before.pre) is Some ==> newer(release, before)
            && !is_up_to_date(before, release),
{
}

/// Precedence by the numbers is asymmetric: of two versions that differ in
/// major, minor or patch, exactly one has precedence over the other.
pub proof fn lemma_newer_by_numbers(a: VersionModel, b: VersionModel)
    requires
        a.major != b.major || a.minor != b.minor || a.patch != b.patch,
    ensures
        newer(a, b) != newer(b, a),
{
}

/// A release with a greater number is newer, whatever the build metadata.
pub proof fn lemma_newer_release(a: VersionModel, b: VersionModel)
    requires
        a.pre == b.pre,
    ensures
        newer(a, b) == (a.major > b.major || (a.major == b.major && (a.minor > b.minor || (a.minor
            == b.minor && a.patch > b.patch)))),
{
}

impl Version {
    /// Whether `self` has precedence over `other`.
    pub fn gt(&self, other: &Version) -> (r: bool)
        ensures
            r == newer(self@, other@),
    {
        if self.major != other.major {
            return self.major > other.major;
        }
        if self.minor != other.minor {
            return self.minor > other.minor;
        }
        if self.patch != other.patch {
            return self.patch > other.patch;
        }
        proof {
            if self.pre@.len() == 0 && other.pre@.len() == 0 {
                assert(self.pre@ =~= other.pre@);
            }
        }
        match compare_prerelease(self.pre.as_str(), other.pre.as_str()) {
            Some(greater) => greater,
            None => false,
        }
    }

    /// The text of the version: `major.minor.patch`, then `-` and the
    /// pre-release where there is one, then `+` and the build metadata where
    /// there is any.
    pub open spec fn text(v: VersionModel) -> Seq<char> {
        decimal(v.major) + seq!['.'] + decimal(v.minor) + seq!['.'] + decimal(v.patch) + (if v.pre.len()
            > 0 {
            seq!['-'] + v.pre
        } else {
            Seq::empty()
        }) + (if v.build.len() > 0 {
            seq!['+'] + v.build
        } else {
            Seq::empty()
        })
    }

    /// The text of the version.
    pub fn to_string(&self) -> (r: String)
        ensures
            r@ == Version::text(self@),
    {
        let mut out: Vec<char> = to_decimal(self.major);
        out.push('.');
        let mut minor = to_decimal(self.minor);
        out.append(&mut minor);
        out.push('.');
        let mut patch = to_decimal(self.patch);
        out.append(&mut patch);
        let mut pre = to_chars(self.pre.as_str());
        if pre.len() > 0 {
            out.push('-');
            out.append(&mut pre);
        }
        let mut build = to_chars(self.build.as_str());
        if build.len() > 0 {
            out.push('+');
            out.append(&mut build);
        }
        assert(out@ =~= Version::text(self@));
        from_chars(&out)
    }
}

/// Whether `current` needs no update when `latest` is the newest version
/// published: `latest` does not have precedence over it.
pub fn up_to_date(current: &Version, latest: &Version) -> (r: bool)
    ensures
        r == is_up_to_date(current@, latest@),
        r == !newer(latest@, current@),
{
    !latest.gt(current)
}

/// The text that stands for a version that is not known.
pub const NA: &'static str = "n/a";

/// The version of one component: the one installed, the latest one published
/// and whether the first is up to date with the second.
#[derive(Clone, Debug)]
pub struct AppVersion {
    pub version: String,
    pub latest: String,
    pub up_to_date: bool,
}

/// What an `AppVersion` stands for.
pub struct AppVersionModel {
    pub version: Seq<char>,
    pub latest: Seq<char>,
    pub up_to_date: bool,
}

impl View for AppVersion {
    type V = AppVersionModel;

    open spec fn view(&self) -> AppVersionModel {
        AppVersionModel { version: self.version@, latest: self.latest@, up_to_date: self.up_to_date }
    }
}

impl AppVersionModel {
    /// The version of a component of which nothing is known. It counts as up
    /// to date: what cannot be compared is not out of date.
    pub open spec fn unknown() -> AppVersionModel {
        AppVersionModel { version: NA@, latest: NA@, up_to_date: true }
    }

    /// The versions `current` and `latest`, compared.
    pub open spec fn compared(current: VersionModel, latest: VersionModel) -> AppVersionModel {
        AppVersionModel {
            version: Version::text(current),
            latest: Version::text(latest),
            up_to_date: is_up_to_date(current, latest),
        }
    }

    /// The version `current` where no latest one is published.
    pub open spec fn unrivalled(current: VersionModel) -> AppVersionModel {
        AppVersionModel { version: Version::text(current), latest: NA@, up_to_date: true }
    }

    /// The line that shows the version to the user.
    pub open spec fn rendered(self) -> Seq<char> {
        if self.version == NA@ {
            self.version
        } else if self.up_to_date {
            self.version + " (up to date)"@
        } else {
            self.version + " (latest: "@ + self.latest + ")"@
        }
    }
}

impl Default for AppVersion {
    fn default() -> (r: AppVersion)
        ensures
            r@ == AppVersionModel::unknown(),
    {
        AppVersion { version: NA.to_owned(), latest: NA.to_owned(), up_to_date: true }
    }
}

impl AppVersion {
    /// The versions `current` and `latest`, compared.
    pub fn compare(current: &Version, latest: &Version) -> (r: AppVersion)
        ensures
            r@ == AppVersionModel::compared(current@, latest@),
    {
        AppVersion {
            version: current.to_string(),
            latest: latest.to_string(),
            up_to_date: up_to_date(current, latest),
        }
    }

    /// The line that shows the version to the user.
    pub fn to_string(&self) -> (r: String)
        ensures
            r@ == self@.rendered(),
    {
        if same_text(self.version.as_str(), NA) {
            return self.version.clone();
        }
        let mut r = self.version.clone();
        if self.up_to_date {
            r.append(" (up to date)");
        } else {
            r.append(" (latest: ");
            r.append(self.latest.as_str());
            r.append(")");
        }
        r
    }
}

/// The versions of the three components.
#[derive(Clone, Debug)]
pub struct VersionPayload {
    pub daemon: AppVersion,
    pub gui: AppVersion,
    pub app: AppVersion,
}

/// The version that a lookup gave, or the unknown version where it failed.
pub open spec fn or_unknown(looked_up: Result<AppVersion, Error>) -> AppVersionModel {
    match looked_up {
        Ok(v) => v@,
        Err(_) => AppVersionModel::unknown(),
    }
}

/// The version that a lookup gave, or the unknown version where it failed.
pub fn known_or_default(looked_up: Result<AppVersion, Error>) -> (r: AppVersion)
    ensures
        r@ == or_unknown(looked_up),
{
    match looked_up {
        Ok(v) => v,
        Err(_) => AppVersion::default(),
    }
}

/// Puts the three lookups together. Each one that failed gives the unknown
/// version and leaves the two others as they are.
pub fn show_version(
    app: Result<AppVersion, Error>,
    daemon: Result<AppVersion, Error>,
    gui: Result<AppVersion, Error>,
) -> (r: VersionPayload)
    ensures
        r.app@ == or_unknown(app),
        r.daemon@ == or_unknown(daemon),
        r.gui@ == or_unknown(gui),
{
    VersionPayload {
        daemon: known_or_default(daemon),
        gui: known_or_default(gui),
        app: known_or_default(app),
    }
}

/// The version of this application, from what the updater reported: the
/// running version, the latest one and whether an update is available.
pub fn get_app_version(current: &str, latest: &str, update_available: bool) -> (r: AppVersion)
    ensures
        r@ == (AppVersionModel { version: current@, latest: latest@, up_to_date: !update_available }),
{
    AppVersion { version: current.to_owned(), latest: latest.to_owned(), up_to_date: !update_available }
}

/// The word that the agent's version command prints only where the agent is
/// installed.
pub const VERSION_WORD: &'static str = "version";

/// What reading the agent's version out of `text` gives: `MarkerNotFound`
/// where the marker or the delimiter is missing, `InvalidVersion` where what
/// stands between them is no semantic version.
pub open spec fn version_in(text: Seq<char>) -> Result<VersionModel, ErrorKind> {
    match version_text(text) {
        None => Err(ErrorKind::MarkerNotFound),
        Some(t) => read(t),
    }
}

/// What reading `body`, the answer of a version endpoint, gives.
pub open spec fn version_of_body(body: Seq<char>) -> Result<VersionModel, ErrorKind> {
    read(strip_leading(trim(body), 'v'))
}

/// The version that the agent reports in `output`, the output of its version
/// command: `NotInstalled` where the output lacks the word `version`.
pub open spec fn installed(output: Seq<char>) -> Result<VersionModel, ErrorKind> {
    if !contains(output, VERSION_WORD@) {
        Err(ErrorKind::NotInstalled)
    } else {
        version_in(output)
    }
}

/// The version that the agent reports in `output`, the output of its version
/// command.
pub fn installed_version(output: &str) -> (r: Result<Version, Error>)
    ensures
        outcome(r) == installed(output@),
        r matches Err(Error::ParseFailure(ParseError::MarkerNotFound(missing))) ==> (missing
            == Marker::Start <==> find(output@, VERSION_MARKER@, 0) is None),
{
    if !str_contains(output, VERSION_WORD) {
        return Err(Error::Failed(Failure::NotInstalled));
    }
    parse_version(output.to_owned())
}

/// The agent's version against the latest one: first what `installed` gives
/// for `output`, then what the body of the release endpoint holds.
pub open spec fn daemon_version(output: Seq<char>, latest_body: Seq<char>) -> Result<
    AppVersionModel,
    ErrorKind,
> {
    match installed(output) {
        Err(e) => Err(e),
        Ok(current) => match version_of_body(latest_body) {
            Err(e) => Err(e),
            Ok(latest) => Ok(AppVersionModel::compared(current, latest)),
        },
    }
}

/// The agent's version against the latest one. `output` is the output of the
/// agent's version command, `latest_body` the body that the release endpoint
/// returned.
pub fn get_daemon_version(output: &str, latest_body: &str) -> (r: Result<AppVersion, Error>)
    ensures
        outcome(r) == daemon_version(output@, latest_body@),
        r matches Err(Error::ParseFailure(ParseError::MarkerNotFound(missing))) ==> (missing
            == Marker::Start <==> find(output@, VERSION_MARKER@, 0) is None),
{
    let current = match installed_version(output) {
        Ok(v) => v,
        Err(e) => { return Err(e); },
    };
    let latest = match get_latest_version(latest_body) {
        Ok(v) => v,
        Err(e) => { return Err(e); },
    };
    Ok(AppVersion::compare(&current, &latest))
}

/// One entry of the registry's list of tags: the tags of one published
/// image.
#[derive(Clone, Debug)]
pub struct Manifest {
    pub tag: Vec<String>,
}

/// The tag that marks the image that is the latest one.
pub const LATEST_TAG: &'static str = "latest";

/// What a tag begins with when it names a release.
pub const RELEASE_PREFIX: &'static str = "v";

impl Manifest {
    /// The tags as texts.
    pub open spec fn tags(&self) -> Seq<Seq<char>> {
        texts(self.tag@)
    }
}

/// The tags of every manifest, in order.
pub open spec fn tag_lists(manifests: Seq<Manifest>) -> Seq<Seq<Seq<char>>> {
    Seq::new(manifests.len(), |i: int| manifests[i].tags())
}

/// The first of `tags` that names a release.
pub open spec fn release_tag(tags: Seq<Seq<char>>) -> Option<Seq<char>>
    decreases tags.len(),
{
    if tags.len() == 0 {
        None
    } else if starts_with(tags[0], RELEASE_PREFIX@) {
        Some(tags[0])
    } else {
        release_tag(tags.drop_first())
    }
}

/// The tags of the first manifest that carries the tag `latest`.
pub open spec fn latest_tags(lists: Seq<Seq<Seq<char>>>) -> Option<Seq<Seq<char>>>
    decreases lists.len(),
{
    if lists.len() == 0 {
        None
    } else if lists[0].contains(LATEST_TAG@) {
        Some(lists[0])
    } else {
        latest_tags(lists.drop_first())
    }
}

/// The GUI's version against the latest one published. `local_body` is what
/// the GUI answered, `lists` the tags of the registry's manifests in the
/// order in which they are looked through. Where no manifest carries the tag
/// `latest`, the GUI's version stands alone and counts as up to date.
pub open spec fn gui_version(local_body: Seq<char>, lists: Seq<Seq<Seq<char>>>) -> Result<
    AppVersionModel,
    ErrorKind,
> {
    match version_of_body(local_body) {
        Err(e) => Err(e),
        Ok(current) => match latest_tags(lists) {
            None => Ok(AppVersionModel::unrivalled(current)),
            Some(tags) => match release_tag(tags) {
                None => Err(ErrorKind::GuiReleaseNotFound),
                Some(tag) => match version_of_body(tag) {
                    Err(e) => Err(e),
                    Ok(latest) => Ok(AppVersionModel::compared(current, latest)),
                },
            },
        },
    }
}

/// Whether one of `tags` is `tag`.
pub fn has_tag(tags: &Vec<String>, tag: &str) -> (r: bool)
    ensures
        r == texts(tags@).contains(tag@),
{
    let mut i: usize = 0;
    while i < tags.len()
        invariant
            i <= tags.len(),
            forall|j: int| 0 <= j < i ==> texts(tags@)[j] != tag@,
        decreases tags.len() - i,
    {
        if same_text(tags[i].as_str(), tag) {
            assert(texts(tags@)[i as int] == tag@);
            return true;
        }
        i += 1;
    }
    false
}

/// The index of the first of `tags` that names a release.
pub fn find_release_tag(tags: &Vec<String>) -> (r: Option<usize>)
    ensures
        match r {
            Some(i) => i < tags.len() && release_tag(texts(tags@)) == Some(tags[i as int]@),
            None => release_tag(texts(tags@)) is None,
        },
{
    let ghost all = texts(tags@);
    let mut i: usize = 0;
    assert(all =~= all.subrange(0, all.len() as int));
    while i < tags.len()
        invariant
            i <= tags.len(),
            all == texts(tags@),
            release_tag(all) == release_tag(all.subrange(i as int, all.len() as int)),
        decreases tags.len() - i,
    {
        proof {
            let rest = all.subrange(i as int, all.len() as int);
            assert(rest[0] == tags[i as int]@);
            assert(rest.drop_first() =~= all.subrange(i + 1, all.len() as int));
        }
        if str_starts_with(tags[i].as_str(), RELEASE_PREFIX) {
            return Some(i);
        }
        i += 1;
    }
    None
}

/// The index of the first manifest that carries the tag `latest`.
pub fn find_latest_manifest(manifests: &Vec<Manifest>) -> (r: Option<usize>)
    ensures
        match r {
            Some(i) => i < manifests.len() && latest_tags(tag_lists(manifests@)) == Some(
                manifests[i as int].tags(),
            ),
            None => latest_tags(tag_lists(manifests@)) is None,
        },
{
    let ghost all = tag_lists(manifests@);
    let mut i: usize = 0;
    assert(all =~= all.subrange(0, all.len() as int));
    while i < manifests.len()
        invariant
            i <= manifests.len(),
            all == tag_lists(manifests@),
            latest_tags(all) == latest_tags(all.subrange(i as int, all.len() as int)),
        decreases manifests.len() - i,
    {
        proof {
            let rest = all.subrange(i as int, all.len() as int);
            assert(rest[0] == manifests[i as int].tags());
            assert(rest.drop_first() =~= all.subrange(i + 1, all.len() as int));
        }
        if has_tag(&manifests[i].tag, LATEST_TAG) {
            return Some(i);
        }
        i += 1;
    }
    None
}

/// The GUI's version, read from what the GUI answered: the running version
/// alone. Whoever asks the registry next learns here whether that is worth
/// the request.
pub fn gui_current_version(local_body: &str) -> (r: Result<Version, Error>)
    ensures
        outcome(r) == version_of_body(local_body@),
{
    get_latest_version(local_body)
}

/// The GUI's version against the latest one published. `local_body` is what
/// the GUI answered, `manifests` the registry's manifests in the order in
/// which they are looked through.
pub fn get_gui_version(local_body: &str, manifests: &Vec<Manifest>) -> (r: Result<
    AppVersion,
    Error,
>)
    ensures
        outcome(r) == gui_version(local_body@, tag_lists(manifests@)),
{
    let current = match gui_current_version(local_body) {
        Ok(v) => v,
        Err(e) => { return Err(e); },
    };
    let manifest = match find_latest_manifest(manifests) {
        Some(i) => &manifests[i],
        None => {
            return Ok(
                AppVersion { version: current.to_string(), latest: NA.to_owned(), up_to_date: true },
            );
        },
    };
    let tag = match find_release_tag(&manifest.tag) {
        Some(i) => &manifest.tag[i],
        None => { return Err(Error::Failed(Failure::GuiReleaseNotFound)); },
    };
    let latest = match get_latest_version(tag.as_str()) {
        Ok(v) => v,
        Err(e) => { return Err(e); },
    };
    Ok(AppVersion::compare(&current, &latest))
}

} // verus!
