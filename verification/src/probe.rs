//! What the probes of a platform mean: where the agent binary is looked
//! for, what the answers of the WSL tooling say and whether the local GUI
//! has identified itself.

use crate::error::{outcome, Error, ErrorKind, RetryableCondition};
use crate::runner::{
    exec_script, shell_command, streamed, windows_shell, CommandModel, CommandResult, Invocation,
    InvocationModel, Reading,
};
use crate::text::{
    contains, find, find_from, from_chars, push_text, slice, str_contains, texts, to_chars,
};
use vstd::prelude::*;
use vstd::string::*;

verus! {

/// What the `regex` crate makes of the pattern `pattern` on the text `text`:
/// whether the pattern matches somewhere in the text, or `None` where the
/// crate rejects the pattern.
pub uninterp spec fn regex_match(pattern: Seq<char>, text: Seq<char>) -> Option<bool>;

/// Compiles `pattern` with `regex::Regex::new` and asks `Regex::is_match` for
/// `text`. The contract only gives the outcome its name, `regex_match`.
#[verifier::external_body]
pub(crate) fn regex_is_match(pattern: &str, text: &str) -> (r: Option<bool>)
    ensures
        r == regex_match(pattern@, text@),
{
    match ::regex::Regex::new(pattern) {
        Ok(re) => Some(re.is_match(text)),
        Err(_) => None,
    }
}

/// `s` without one trailing `c`, where it has one.
pub open spec fn strip_trailing(s: Seq<char>, c: char) -> Seq<char> {
    if s.len() > 0 && s[s.len() - 1] == c {
        s.subrange(0, s.len() - 1)
    } else {
        s
    }
}

/// The first line of `text`: what stands before the first line feed, without
/// a carriage return that ends it; all of `text` where it has no line feed;
/// none where `text` is empty.
pub open spec fn first_line(text: Seq<char>) -> Option<Seq<char>> {
    if text.len() == 0 {
        None
    } else {
        match find(text, seq!['\n'], 0) {
            None => Some(text),
            Some(end) => Some(strip_trailing(text.subrange(0, end), '\r')),
        }
    }
}

/// The first line of `text`.
pub fn first_line_of(text: &str) -> (r: Option<String>)
    ensures
        match r {
            Some(line) => first_line(text@) == Some(line@),
            None => first_line(text@) is None,
        },
{
    let chars = to_chars(text);
    if chars.len() == 0 {
        return None;
    }
    let mut feed: Vec<char> = Vec::new();
    feed.push('\n');
    assert(feed@ =~= seq!['\n']);
    match find_from(&chars, &feed, 0) {
        None => Some(from_chars(&chars)),
        Some(end) => {
            let stop: usize = if end > 0 && chars[end - 1] == '\r' {
                end - 1
            } else {
                end
            };
            proof {
                let line = chars@.subrange(0, end as int);
                if end > 0 && chars@[end - 1] == '\r' {
                    assert(line.subrange(0, line.len() - 1) =~= chars@.subrange(0, stop as int));
                }
            }
            Some(from_chars(&slice(&chars, 0, stop)))
        },
    }
}

/// The pattern that the first line of the answer to `wsl --version` matches
/// where WSL is of version 2: a 2 and a dot after a space, with something
/// before and something after.
pub const WSL2_PATTERN: &'static str = "^.+ 2\\..+$";

/// What the answer to `wsl --version` says of WSL 2, given what the pattern
/// made of its first line: WSL 2 is there only where the line matched.
pub open spec fn wsl2_by_match(matched: Option<bool>) -> bool {
    matched == Some(true)
}

/// Whether `version_output`, the answer to `wsl --version`, shows WSL 2: it
/// has a first line, and the pattern `WSL2_PATTERN` matches that line.
pub open spec fn shows_wsl2(version_output: Seq<char>) -> bool {
    match first_line(version_output) {
        Some(line) => wsl2_by_match(regex_match(WSL2_PATTERN@, line)),
        None => false,
    }
}

/// What the answer to `wsl --version` says of WSL 2, given what the pattern
/// made of its first line.
pub fn wsl2_from_match(matched: Option<bool>) -> (r: bool)
    ensures
        r == wsl2_by_match(matched),
{
    match matched {
        Some(hit) => hit,
        None => false,
    }
}

/// Whether `version_output`, the answer to `wsl --version`, shows WSL 2.
pub fn is_wsl2(version_output: &str) -> (r: bool)
    ensures
        r == shows_wsl2(version_output@),
{
    match first_line_of(version_output) {
        Some(line) => wsl2_from_match(regex_is_match(WSL2_PATTERN, line.as_str())),
        None => false,
    }
}

/// The WSL distribution that hosts the agent on Windows.
pub const DISTRIBUTION: &'static str = "Ubuntu-22.04";

/// Whether a listing of distributions succeeded and names the distribution
/// that hosts the agent.
pub open spec fn lists_distribution(listing: CommandModel) -> bool {
    listing.exit_success && contains(listing.stdout, DISTRIBUTION@)
}

/// Whether `listing`, the answer to a listing of distributions, succeeded
/// and names the distribution that hosts the agent.
pub fn distribution_listed(listing: &CommandResult) -> (r: bool)
    ensures
        r == lists_distribution(listing@),
{
    listing.exit_success && str_contains(listing.stdout.as_str(), DISTRIBUTION)
}

/// Whether the distribution runs, given the outcome of the version query and
/// of the listing of running distributions: both succeeded, and the listing
/// names the distribution. A query that could not be made counts as failed.
pub open spec fn wsl_running(
    version_query: Result<CommandModel, ErrorKind>,
    running: Result<CommandModel, ErrorKind>,
) -> bool {
    &&& version_query matches Ok(v) && v.exit_success
    &&& running matches Ok(l) && lists_distribution(l)
}

/// Whether WSL is there at all, given the result of the version query. Where
/// it is not, the listing of running distributions need not be asked for.
pub fn wsl_installed(version_query: &Result<CommandResult, Error>) -> (r: bool)
    ensures
        r == (outcome(*version_query) matches Ok(v) && v.exit_success),
{
    match version_query {
        Ok(v) => v.exit_success,
        Err(_) => false,
    }
}

/// Whether the distribution runs, given the result of the version query and
/// of the listing of running distributions.
pub fn is_wsl_running(
    version_query: &Result<CommandResult, Error>,
    running: &Result<CommandResult, Error>,
) -> (r: bool)
    ensures
        r == wsl_running(outcome(*version_query), outcome(*running)),
{
    if !wsl_installed(version_query) {
        return false;
    }
    match running {
        Ok(listing) => distribution_listed(listing),
        Err(_) => false,
    }
}

/// What the body of the local GUI's answer holds where the GUI is the one
/// looked for.
pub const GUI_MARKER: &'static str = "Sonaric";

/// What `check_gui` answers where the GUI is there.
pub const GUI_OK: &'static str = "OK";

/// What the probe of the local GUI comes to: fine where the request
/// succeeded and the body identifies the GUI. Everything else is the
/// condition `GuiUnavailable`, on which the caller asks again: a request
/// that failed, however it failed, and a body that does not identify the
/// GUI.
pub open spec fn gui_probe(response: Result<Seq<char>, ErrorKind>) -> Result<(), ErrorKind> {
    match response {
        Ok(body) => if contains(body, GUI_MARKER@) {
            Ok(())
        } else {
            Err(ErrorKind::Retry(RetryableCondition::GuiUnavailable))
        },
        Err(_) => Err(ErrorKind::Retry(RetryableCondition::GuiUnavailable)),
    }
}

/// The outcome of a request without the payload of its error: the body, or
/// the kind of the error.
pub open spec fn body_outcome(response: Result<String, Error>) -> Result<Seq<char>, ErrorKind> {
    match response {
        Ok(body) => Ok(body@),
        Err(e) => Err(e.spec_kind()),
    }
}

/// What the probe of the local GUI comes to, given the response to the
/// request: `GUI_OK` where the GUI is there, and else the condition
/// `GuiUnavailable`, never the error of the request.
pub fn check_gui(response: Result<String, Error>) -> (r: Result<String, Error>)
    ensures
        match gui_probe(body_outcome(response)) {
            Ok(_) => r matches Ok(s) && s@ == GUI_OK@,
            Err(_) => r matches Err(Error::RetryError(RetryableCondition::GuiUnavailable)),
        },
{
    match response {
        Ok(body) => {
            if str_contains(body.as_str(), GUI_MARKER) {
                Ok(GUI_OK.to_owned())
            } else {
                Err(Error::RetryError(RetryableCondition::GuiUnavailable))
            }
        },
        Err(_) => Err(Error::RetryError(RetryableCondition::GuiUnavailable)),
    }
}

/// The probe of the local GUI never ends in a hard failure: whatever the
/// response, the result is fine or a condition on which the caller asks
/// again.
pub proof fn lemma_gui_probe_is_retryable(response: Result<Seq<char>, ErrorKind>)
    ensures
        gui_probe(response) matches Err(kind) ==> kind == ErrorKind::Retry(
            RetryableCondition::GuiUnavailable,
        ),
{
}

/// The name of the agent's binary.
pub const AGENT_BINARY: &'static str = "sonaric";

/// What separates the directories in the search path.
pub const PATH_SEPARATOR: char = ':';

/// The parts of `s` between the separators `sep`, in order. A text without a
/// separator is one part, and so is the empty text.
pub open spec fn split(s: Seq<char>, sep: char) -> Seq<Seq<char>>
    decreases s.len(),
{
    match find(s, seq![sep], 0) {
        Some(i) => if 0 <= i < s.len() {
            seq![s.subrange(0, i)] + split(s.subrange(i + 1, s.len() as int), sep)
        } else {
            seq![s]
        },
        None => seq![s],
    }
}

/// The path of the file `name` in the directory `dir`: the two joined by a
/// slash, which is left out where `dir` is empty or ends with one.
pub open spec fn join_path(dir: Seq<char>, name: Seq<char>) -> Seq<char> {
    if dir.len() == 0 || dir[dir.len() - 1] == '/' {
        dir + name
    } else {
        dir + seq!['/'] + name
    }
}

/// The places where the agent's binary is looked for when it is in none of
/// the directories of the search path, in this order.
pub open spec fn fallback_candidates() -> Seq<Seq<char>> {
    seq!["/usr/local/bin/sonaric"@, "/usr/bin/sonaric"@, "/opt/homebrew/bin/sonaric"@]
}

/// The places in the directories of the search path `path`, in its order.
/// There are none where no search path is set.
pub open spec fn path_candidates(path: Option<Seq<char>>) -> Seq<Seq<char>> {
    match path {
        Some(p) => split(p, PATH_SEPARATOR).map_values(|dir: Seq<char>| join_path(dir, AGENT_BINARY@)),
        None => Seq::empty(),
    }
}

/// All places where the agent's binary is looked for, in the order of the
/// search: first those of the search path, then the fallbacks.
pub open spec fn candidates(path: Option<Seq<char>>) -> Seq<Seq<char>> {
    path_candidates(path) + fallback_candidates()
}

/// The index of the first `true` in `present`.
pub open spec fn first_present(present: Seq<bool>) -> Option<int>
    decreases present.len(),
{
    if present.len() == 0 {
        None
    } else if present[0] {
        Some(0)
    } else {
        match first_present(present.drop_first()) {
            Some(i) => Some(i + 1),
            None => None,
        }
    }
}

/// `first_present` gives an index that is marked and before which nothing
/// is; it gives none only where nothing is marked.
pub proof fn lemma_first_present(present: Seq<bool>)
    ensures
        match first_present(present) {
            Some(i) => 0 <= i < present.len() && present[i] && forall|j: int|
                0 <= j < i ==> !present[j],
            None => forall|j: int| 0 <= j < present.len() ==> !present[j],
        },
    decreases present.len(),
{
    if present.len() > 0 && !present[0] {
        let rest = present.drop_first();
        lemma_first_present(rest);
        match first_present(rest) {
            Some(i) => {
                assert(rest[i] == present[i + 1]);
                assert forall|j: int| 0 <= j < i + 1 implies !present[j] by {
                    if j > 0 {
                        assert(rest[j - 1] == present[j]);
                    }
                }
            },
            None => {
                assert forall|j: int| 0 <= j < present.len() implies !present[j] by {
                    if j > 0 {
                        assert(rest[j - 1] == present[j]);
                    }
                }
            },
        }
    }
}

/// The place where the agent's binary is found, given for each candidate
/// whether a file is there: the first candidate with a file. A candidate
/// for which nothing is said counts as absent.
pub open spec fn found_binary(path: Option<Seq<char>>, present: Seq<bool>) -> Option<Seq<char>> {
    match first_present(present) {
        Some(i) => if i < candidates(path).len() {
            Some(candidates(path)[i])
        } else {
            None
        },
        None => None,
    }
}

/// A binary in a directory of the search path is found before any fallback
/// is considered: where a candidate of the search path has a file, the place
/// found is a candidate of the search path, and no candidate before it has a
/// file.
pub proof fn lemma_search_path_first(path: Option<Seq<char>>, present: Seq<bool>, k: int)
    requires
        0 <= k < path_candidates(path).len(),
        k < present.len(),
        present[k],
    ensures
        first_present(present) matches Some(i) && i <= k && found_binary(path, present) == Some(
            path_candidates(path)[i],
        ),
{
    lemma_first_present(present);
}

/// The parts of `s` between the separators `sep`, in order.
pub fn split_text(s: &Vec<char>, sep: char) -> (r: Vec<Vec<char>>)
    ensures
        r@.len() == split(s@, sep).len(),
        forall|i: int| 0 <= i < r@.len() ==> r@[i]@ == #[trigger] split(s@, sep)[i],
{
    let mut needle: Vec<char> = Vec::new();
    needle.push(sep);
    assert(needle@ =~= seq![sep]);
    let mut parts: Vec<Vec<char>> = Vec::new();
    let mut start: usize = 0;
    let ghost mut done: Seq<Seq<char>> = Seq::empty();
    assert(s@.subrange(0, s@.len() as int) =~= s@);
    loop
        invariant
            start <= s.len(),
            needle@ == seq![sep],
            done.len() == parts@.len(),
            forall|i: int| 0 <= i < done.len() ==> parts@[i]@ == #[trigger] done[i],
            split(s@, sep) == done + split(s@.subrange(start as int, s@.len() as int), sep),
        decreases s.len() - start,
    {
        let rest = slice(s, start, s.len());
        match find_from(&rest, &needle, 0) {
            Some(i) => {
                assert(i < rest.len());
                parts.push(slice(&rest, 0, i));
                proof {
                    let tail = rest@.subrange(i + 1, rest@.len() as int);
                    assert(tail =~= s@.subrange(start + i + 1, s@.len() as int));
                    assert(done + (seq![rest@.subrange(0, i as int)] + split(tail, sep)) =~= done.push(
                        rest@.subrange(0, i as int),
                    ) + split(tail, sep));
                    done = done.push(rest@.subrange(0, i as int));
                }
                start = start + i + 1;
            },
            None => {
                parts.push(rest);
                proof {
                    assert(done + seq![rest@] =~= done.push(rest@));
                    done = done.push(rest@);
                }
                return parts;
            },
        }
    }
}

/// All places where the agent's binary is looked for, in the order of the
/// search. `path` is the search path, where one is set.
pub fn search_candidates(path: Option<&str>) -> (r: Vec<String>)
    ensures
        texts(r@) == candidates(match path {
            Some(p) => Some(p@),
            None => None,
        }),
{
    let ghost spec_path: Option<Seq<char>> = match path {
        Some(p) => Some(p@),
        None => None,
    };
    let mut r: Vec<String> = Vec::new();
    match path {
        Some(p) => {
            let dirs = split_text(&to_chars(p), PATH_SEPARATOR);
            let name = to_chars(AGENT_BINARY);
            let mut i: usize = 0;
            while i < dirs.len()
                invariant
                    i <= dirs.len(),
                    name@ == AGENT_BINARY@,
                    spec_path == Some(p@),
                    dirs@.len() == split(p@, PATH_SEPARATOR).len(),
                    forall|k: int|
                        0 <= k < dirs@.len() ==> dirs@[k]@ == #[trigger] split(p@, PATH_SEPARATOR)[k],
                    r@.len() == i,
                    forall|k: int| 0 <= k < i ==> r@[k]@ == #[trigger] path_candidates(spec_path)[k],
                decreases dirs.len() - i,
            {
                let dir = &dirs[i];
                let mut place: Vec<char> = slice(dir, 0, dir.len());
                assert(place@ =~= dir@);
                if dir.len() > 0 && dir[dir.len() - 1] != '/' {
                    place.push('/');
                }
                let mut file = slice(&name, 0, name.len());
                assert(file@ =~= name@);
                place.append(&mut file);
                assert(place@ =~= join_path(dir@, AGENT_BINARY@));
                r.push(from_chars(&place));
                i += 1;
            }
        },
        None => {},
    }
    let ghost from_path = r@;
    r.push("/usr/local/bin/sonaric".to_owned());
    r.push("/usr/bin/sonaric".to_owned());
    r.push("/opt/homebrew/bin/sonaric".to_owned());
    proof {
        let want = candidates(spec_path);
        assert(from_path.len() == path_candidates(spec_path).len());
        assert(texts(r@).len() == want.len());
        assert forall|k: int| 0 <= k < want.len() implies texts(r@)[k] == want[k] by {
            if k < from_path.len() {
                assert(r@[k] == from_path[k]);
            }
        }
        assert(texts(r@) =~= want);
    }
    r
}

/// The place where the agent's binary is found. `path` is the search path,
/// where one is set; `present` says for each place of `search_candidates`,
/// in its order, whether a file is there.
pub fn find_sonaric_binary(path: Option<&str>, present: &Vec<bool>) -> (r: Option<String>)
    ensures
        match found_binary(
            match path {
                Some(p) => Some(p@),
                None => None,
            },
            present@,
        ) {
            Some(place) => r matches Some(p) && p@ == place,
            None => r is None,
        },
{
    let places = search_candidates(path);
    let ghost spec_path: Option<Seq<char>> = match path {
        Some(p) => Some(p@),
        None => None,
    };
    let ghost all = present@;
    let mut i: usize = 0;
    assert(all.subrange(0, all.len() as int) =~= all);
    while i < present.len()
        invariant
            i <= present.len(),
            all == present@,
            texts(places@) == candidates(spec_path),
            spec_path == (match path {
                Some(p) => Some(p@),
                None => None,
            }),
            match first_present(all.subrange(i as int, all.len() as int)) {
                Some(k) => first_present(all) == Some(k + i),
                None => first_present(all) is None,
            },
        decreases present.len() - i,
    {
        proof {
            let rest = all.subrange(i as int, all.len() as int);
            assert(rest[0] == all[i as int]);
            assert(rest.drop_first() =~= all.subrange(i + 1, all.len() as int));
        }
        if present[i] {
            assert(texts(places@).len() == places@.len());
            if i < places.len() {
                assert(texts(places@)[i as int] == places@[i as int]@);
                return Some(places[i].clone());
            } else {
                return None;
            }
        }
        i += 1;
    }
    None
}

/// A call of the WSL tooling.
#[derive(Clone, Copy, Debug, PartialEq, Eq, Structural)]
pub enum WslCall {
    /// `wsl --version`
    Version,
    /// `wsl --list`
    List,
    /// `wsl --list --running`
    ListRunning,
    /// `wsl --terminate` with the distribution
    Terminate,
    /// `wsl --unregister` with the distribution
    Unregister,
    /// The agent's version command, run as root in the distribution.
    AgentVersion,
}

impl WslCall {
    /// The words of the call.
    pub open spec fn words(self) -> Seq<Seq<char>> {
        match self {
            WslCall::Version => seq!["wsl"@, "--version"@],
            WslCall::List => seq!["wsl"@, "--list"@],
            WslCall::ListRunning => seq!["wsl"@, "--list"@, "--running"@],
            WslCall::Terminate => seq!["wsl"@, "--terminate"@, DISTRIBUTION@],
            WslCall::Unregister => seq!["wsl"@, "--unregister"@, DISTRIBUTION@],
            WslCall::AgentVersion => seq![
                "wsl"@,
                "--distribution"@,
                DISTRIBUTION@,
                "--user"@,
                "root"@,
                "--exec"@,
                "/bin/bash"@,
                "-c"@,
                "sonaric version"@,
            ],
        }
    }

    /// How the answer to the call is read: the tooling itself answers in
    /// UTF-16, what runs inside the distribution in UTF-8.
    pub open spec fn reading(self) -> Reading {
        match self {
            WslCall::AgentVersion => Reading::Utf8Streams,
            _ => Reading::Utf16Output,
        }
    }

    /// The command line of the call.
    pub open spec fn command(self) -> InvocationModel {
        shell_command(self.words(), self.reading())
    }

    /// The command line of the call.
    pub fn invocation(&self) -> (r: Invocation)
        ensures
            r@ == self.command(),
    {
        let mut words: Vec<String> = Vec::new();
        assert(texts(words@) =~= Seq::<Seq<char>>::empty());
        push_text(&mut words, "wsl");
        match self {
            WslCall::Version => {
                push_text(&mut words, "--version");
            },
            WslCall::List => {
                push_text(&mut words, "--list");
            },
            WslCall::ListRunning => {
                push_text(&mut words, "--list");
                push_text(&mut words, "--running");
            },
            WslCall::Terminate => {
                push_text(&mut words, "--terminate");
                push_text(&mut words, DISTRIBUTION);
            },
            WslCall::Unregister => {
                push_text(&mut words, "--unregister");
                push_text(&mut words, DISTRIBUTION);
            },
            WslCall::AgentVersion => {
                push_text(&mut words, "--distribution");
                push_text(&mut words, DISTRIBUTION);
                push_text(&mut words, "--user");
                push_text(&mut words, "root");
                push_text(&mut words, "--exec");
                push_text(&mut words, "/bin/bash");
                push_text(&mut words, "-c");
                push_text(&mut words, "sonaric version");
            },
        }
        assert(texts(words@) =~= self.words());
        let reading = match self {
            WslCall::AgentVersion => Reading::Utf8Streams,
            _ => Reading::Utf16Output,
        };
        windows_shell(&words, reading)
    }
}

/// The word that asks the agent for its version.
pub const VERSION_COMMAND: &'static str = "version";

/// The command line that asks the agent at `binary` for its version. Nothing
/// is emitted, and an exit with a failure is no error: the output says what
/// is the matter.
pub fn agent_version_command(binary: &str) -> (r: Invocation)
    ensures
        r@ == streamed(binary@, seq![VERSION_COMMAND@], false, false),
{
    let mut args: Vec<String> = Vec::new();
    assert(texts(args@) =~= Seq::<Seq<char>>::empty());
    push_text(&mut args, VERSION_COMMAND);
    assert(texts(args@) =~= seq![VERSION_COMMAND@]);
    exec_script(binary, args, false, false)
}

/// The address at which the local GUI is probed.
pub const GUI_URL: &'static str = "http://localhost:44004";

/// The address at which the local GUI tells its version.
pub const GUI_VERSION_URL: &'static str = "http://127.0.0.1:44005/version";

/// The address of the release endpoint, which tells the latest version of
/// the agent.
pub const LATEST_VERSION_URL: &'static str =
    "https://storage.googleapis.com/sonaric-releases/stable/linux/latest-version";

/// The address of the registry's list of the GUI's tags.
pub const GUI_TAGS_URL: &'static str =
    "https://us-central1-docker.pkg.dev/v2/sonaric-platform/sonaric-public/sonaric-gui/tags/list";

} // verus!
