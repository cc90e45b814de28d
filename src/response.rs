use vstd::prelude::*;

use vstd::string::StringExecFns;

use crate::task::{Task, TaskState};

verus! {

/// The JSON text that `serde_json` writes for a string: quoted and escaped.
pub uninterp spec fn json_string_of(s: Seq<char>) -> Seq<char>;

/// Relies on `serde_json::to_string` on a `str`: it writes the string as one JSON
/// string literal. Writing into memory cannot fail, so the result is unwrapped.
#[verifier::external_body]
pub(crate) fn json_string(s: &str) -> (r: String)
    ensures
        r@ == json_string_of(s@),
{
    serde_json::to_string(s).unwrap()
}

/// The decimal digit `d`, as text.
pub open spec fn digit_text(d: nat) -> Seq<char> {
    if d == 0 {
        "0"@
    } else if d == 1 {
        "1"@
    } else if d == 2 {
        "2"@
    } else if d == 3 {
        "3"@
    } else if d == 4 {
        "4"@
    } else if d == 5 {
        "5"@
    } else if d == 6 {
        "6"@
    } else if d == 7 {
        "7"@
    } else if d == 8 {
        "8"@
    } else {
        "9"@
    }
}

/// `n` written in decimal, without leading zeros.
pub open spec fn decimal(n: nat) -> Seq<char>
    decreases n,
{
    if n < 10 {
        digit_text(n)
    } else {
        decimal(n / 10) + digit_text(n % 10)
    }
}

fn digit_str(d: u64) -> (r: &'static str)
    requires
        d < 10,
    ensures
        r@ == digit_text(d as nat),
{
    if d == 0 {
        "0"
    } else if d == 1 {
        "1"
    } else if d == 2 {
        "2"
    } else if d == 3 {
        "3"
    } else if d == 4 {
        "4"
    } else if d == 5 {
        "5"
    } else if d == 6 {
        "6"
    } else if d == 7 {
        "7"
    } else if d == 8 {
        "8"
    } else {
        "9"
    }
}

/// Appends `n` in decimal to `out`.
pub fn push_decimal(out: &mut String, n: u64)
    ensures
        final(out)@ == old(out)@ + decimal(n as nat),
    decreases n,
{
    if n >= 10 {
        push_decimal(out, n / 10);
    }
    out.append(digit_str(n % 10));
    assert(final(out)@ =~= old(out)@ + decimal(n as nat));
}

/// The route at which a task's status is polled and its cancellation requested.
pub open spec fn location_text(id: u32) -> Seq<char> {
    "/api/v0/task/"@ + decimal(id as nat)
}

/// The location that an accepted submission points the client at.
pub fn task_location(id: u32) -> (r: String)
    ensures
        r@ == location_text(id),
{
    let mut r = "/api/v0/task/".to_string();
    push_decimal(&mut r, id as u64);
    r
}

/// The body that reports a task's state.
pub open spec fn status_text(s: TaskState) -> Seq<char> {
    match s {
        TaskState::InProgress => "{\"status\":\"in_progress\"}"@,
        TaskState::Cancelled => "{\"status\":\"cancelled\"}"@,
        TaskState::Completed { data } => "{\"status\":\"completed\",\"data\":"@ + data + "}"@,
    }
}

/// The body that reports a task's state; a completed task's data is embedded
/// as it was recorded.
pub fn status_body(task: &Task) -> (r: String)
    ensures
        r@ == status_text(task@),
{
    match task {
        Task::InProgress { .. } => "{\"status\":\"in_progress\"}".to_string(),
        Task::Cancelled => "{\"status\":\"cancelled\"}".to_string(),
        Task::Completed { data } => {
            let mut r = "{\"status\":\"completed\",\"data\":".to_string();
            r.append(data.as_str());
            r.append("}");
            r
        },
    }
}

/// The body for a status query on an unknown identifier.
pub open spec fn unknown_task_text() -> Seq<char> {
    "{\"error\":\"unknown task\"}"@
}

/// An HTTP status code and a JSON body.
pub struct Reply {
    pub code: u16,
    pub body: String,
}

/// The reply to a status query: `200` with the task's state, or `400` when the
/// identifier is unknown.
pub fn status_reply(task: &Option<Task>) -> (r: Reply)
    ensures
        task is None ==> r.code == 400 && r.body@ == unknown_task_text(),
        task matches Some(t) ==> r.code == 200 && r.body@ == status_text(t@),
{
    match task {
        Some(t) => Reply { code: 200, body: status_body(t) },
        None => Reply { code: 400, body: "{\"error\":\"unknown task\"}".to_string() },
    }
}

/// The views of a list of strings.
pub open spec fn texts(items: Seq<String>) -> Seq<Seq<char>> {
    items.map_values(|s: String| s@)
}

/// The items as JSON strings, separated by commas.
pub open spec fn joined_json_strings(items: Seq<Seq<char>>) -> Seq<char>
    decreases items.len(),
{
    if items.len() == 0 {
        Seq::empty()
    } else if items.len() == 1 {
        json_string_of(items[0])
    } else {
        joined_json_strings(items.drop_last()) + ","@ + json_string_of(items.last())
    }
}

/// A JSON array of strings.
pub open spec fn json_array_text(items: Seq<Seq<char>>) -> Seq<char> {
    "["@ + joined_json_strings(items) + "]"@
}

/// Writes the strings as a JSON array.
pub fn json_array(items: &Vec<String>) -> (r: String)
    ensures
        r@ == json_array_text(texts(items@)),
{
    let mut r = "[".to_string();
    let mut i: usize = 0;
    while i < items.len()
        invariant
            i <= items@.len(),
            r@ == "["@ + joined_json_strings(texts(items@).take(i as int)),
        decreases items@.len() - i,
    {
        proof {
            let t = texts(items@);
            assert(t.take(i + 1).drop_last() =~= t.take(i as int));
        }
        if i > 0 {
            r.append(",");
        }
        let e = json_string(items[i].as_str());
        r.append(e.as_str());
        proof {
            let t = texts(items@);
            assert(t.take(i + 1).last() == items@[i as int]@);
            if i == 0 {
                assert(t.take(0) =~= Seq::<Seq<char>>::empty());
            }
        }
        i = i + 1;
        assert(r@ =~= "["@ + joined_json_strings(texts(items@).take(i as int)));
    }
    assert(texts(items@).take(i as int) =~= texts(items@));
    r.append("]");
    r
}

/// The structured value that records a failed operation: its message, its
/// chain of causes, the input it was given (JSON text) and the route it came by.
pub open spec fn envelope_text(
    message: Seq<char>,
    causes: Seq<Seq<char>>,
    input: Seq<char>,
    path: Seq<char>,
) -> Seq<char> {
    "{\"backtrace\":"@ + json_array_text(causes) + ",\"error\":"@ + json_string_of(message)
        + ",\"input\":"@ + input + ",\"path\":"@ + json_string_of(path) + "}"@
}

/// Writes the record of a failed operation as one JSON object.
pub fn error_envelope(message: &str, causes: &Vec<String>, input: &str, path: &str) -> (r: String)
    ensures
        r@ == envelope_text(message@, texts(causes@), input@, path@),
{
    let mut r = "{\"backtrace\":".to_string();
    let a = json_array(causes);
    r.append(a.as_str());
    r.append(",\"error\":");
    let m = json_string(message);
    r.append(m.as_str());
    r.append(",\"input\":");
    r.append(input);
    r.append(",\"path\":");
    let p = json_string(path);
    r.append(p.as_str());
    r.append("}");
    assert(r@ =~= envelope_text(message@, texts(causes@), input@, path@));
    r
}

} // verus!
