use vstd::prelude::*;

use vstd::string::StringExecFns;

use crate::response::{envelope_text, error_envelope, texts};
use crate::task::{Task, TaskState};

verus! {

/// A failed operation: its message and its chain of causes, outermost first.
pub struct Failure {
    pub message: String,
    pub causes: Vec<String>,
}

/// What a finished operation leaves behind: the data recorded for its task,
/// and for a failure the line appended to the failure log.
pub struct Settled {
    pub data: String,
    pub log_line: Option<String>,
}

/// The data recorded for a failure of an operation on `input` through `path`.
pub open spec fn failure_data(f: Failure, input: Seq<char>, path: Seq<char>) -> Seq<char> {
    envelope_text(f.message@, texts(f.causes@), input, path)
}

/// Turns the outcome of an operation into the data that completes its task.
/// A success is recorded as it is (JSON text); a failure is recorded as its
/// structured error value, and the same value, with a line break, is the line
/// for the failure log.
pub fn settle(outcome: Result<String, Failure>, input: &str, path: &str) -> (r: Settled)
    ensures
        outcome matches Ok(v) ==> r.data@ == v@ && r.log_line is None,
        outcome matches Err(f) ==> {
            &&& r.data@ == failure_data(f, input@, path@)
            &&& r.log_line is Some
            &&& (r.log_line->0)@ == failure_data(f, input@, path@) + "\n"@
        },
{
    match outcome {
        Ok(v) => Settled { data: v, log_line: None },
        Err(f) => {
            let data = error_envelope(f.message.as_str(), &f.causes, input, path);
            let mut line = data.clone();
            line.append("\n");
            Settled { data, log_line: Some(line) }
        },
    }
}

/// What a client that waits for a task does after one poll.
pub enum PollStep {
    /// Still in progress: poll again later.
    Wait,
    /// The task was cancelled: give up.
    Cancelled,
    /// The task is done: `data` is its result.
    Done { data: String },
}

/// The client's decision on one observed state of the task it waits for.
pub fn poll_step(task: Task) -> (r: PollStep)
    ensures
        task@ is InProgress ==> r is Wait,
        task@ is Cancelled ==> r is Cancelled,
        task@ matches TaskState::Completed { data } ==> r matches PollStep::Done { data: d } && d@
            == data,
{
    match task {
        Task::InProgress { .. } => PollStep::Wait,
        Task::Cancelled => PollStep::Cancelled,
        Task::Completed { data } => PollStep::Done { data },
    }
}

} // verus!
