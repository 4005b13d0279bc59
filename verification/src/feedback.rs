//! What a bug report holds: the user's feedback and the excerpts of the logs
//! that go with it.

use crate::error::{stack, stacked};
use crate::text::texts;
use vstd::prelude::*;
use vstd::string::*;

verus! {

/// The feedback of a user on a reported event.
#[derive(Clone, Debug)]
pub struct FeedbackBody {
    pub name: String,
    pub email: String,
    pub comments: String,
    pub event_id: String,
}

/// The address that stands for a user who gave none.
pub const NO_EMAIL: &'static str = "none@example.com";

/// The number of lines of a log that a report carries at most.
pub const LOG_LINES: usize = 500;

impl FeedbackBody {
    /// The feedback of the user `name` on the event `event_id`. No address is
    /// asked for, so none is given.
    pub fn new(name: String, comments: String, event_id: String) -> (r: FeedbackBody)
        ensures
            r.name == name,
            r.comments == comments,
            r.event_id == event_id,
            r.email@ == NO_EMAIL@,
    {
        FeedbackBody { name, email: NO_EMAIL.to_owned(), comments, event_id }
    }
}

/// The message under which a bug report is filed.
pub fn report_message(name: &str, description: &str) -> (r: String)
    ensures
        r@ == "Bug report by "@ + name@ + "\n"@ + description@,
{
    let mut r = "Bug report by ".to_owned();
    r.append(name);
    r.append("\n");
    r.append(description);
    r
}

/// The excerpt of a log: its last lines in the order of the log, one below
/// the other. `from_end` holds them from the last line backwards.
pub open spec fn excerpt(from_end: Seq<Seq<char>>) -> Seq<char> {
    stacked(from_end.reverse())
}

/// The excerpt of a log for a report, or none where the log gave no line.
/// `from_end` holds the last lines of the log, from the last one backwards.
pub fn log_excerpt(from_end: &Vec<String>) -> (r: Option<String>)
    ensures
        match r {
            Some(text) => from_end@.len() > 0 && text@ == excerpt(texts(from_end@)),
            None => from_end@.len() == 0,
        },
{
    if from_end.len() == 0 {
        return None;
    }
    let n = from_end.len();
    let ghost want = texts(from_end@).reverse();
    let mut ordered: Vec<String> = Vec::new();
    let mut i: usize = n;
    assert(texts(from_end@).len() == n);
    assert(texts(ordered@) =~= want.subrange(0, 0));
    while i > 0
        invariant
            i <= n == from_end.len(),
            want == texts(from_end@).reverse(),
            want.len() == n,
            texts(ordered@) == want.subrange(0, n - i),
        decreases i,
    {
        i -= 1;
        let ghost before = ordered@;
        ordered.push(from_end[i].clone());
        proof {
            let next = want.subrange(0, n - i);
            assert(texts(before).len() == before.len());
            assert(texts(ordered@).len() == next.len());
            assert forall|k: int| 0 <= k < next.len() implies texts(ordered@)[k] == next[k] by {
                if k < before.len() {
                    assert(texts(before)[k] == before[k]@);
                    assert(want.subrange(0, n - i - 1)[k] == next[k]);
                } else {
                    assert(next[k] == texts(from_end@)[i as int]);
                }
            }
            assert(texts(ordered@) =~= next);
        }
    }
    assert(want.subrange(0, n as int) =~= want);
    Some(stack(&ordered))
}

} // verus!
