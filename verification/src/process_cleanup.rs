//! Ending a child process and everything that it started, within a bounded time.
//!
//! Starting, waiting for and killing processes is the caller's. Here it is decided what
//! to do next.

use vstd::prelude::*;

use crate::text::{decimal, decimal_text, strings};

verus! {

/// How many milliseconds lie between two looks at a process.
pub const POLL_INTERVAL_MILLIS: u64 = 10;

/// How many seconds each wait may take.
pub const CLEANUP_WAIT_SECS: u64 = 2;

/// What to do after a look at a process.
#[derive(Clone, Copy, Debug, PartialEq, Eq, Structural)]
pub enum Poll {
    /// It has ended.
    Ended,
    /// The time is up.
    TimedOut,
    /// Look again after the interval.
    Again,
}

/// What to do after a look at a process: an end counts even where the time is up.
pub fn wait_for_child(ended: bool, deadline_reached: bool) -> (r: Poll)
    ensures
        r == if ended {
            Poll::Ended
        } else if deadline_reached {
            Poll::TimedOut
        } else {
            Poll::Again
        },
{
    if ended {
        Poll::Ended
    } else if deadline_reached {
        Poll::TimedOut
    } else {
        Poll::Again
    }
}

/// The arguments with which `taskkill` ends a process and everything that it started.
pub open spec fn taskkill_arguments(pid: nat) -> Seq<Seq<char>> {
    seq!["/PID"@, decimal(pid), "/T"@, "/F"@]
}

/// The arguments with which `taskkill` ends a process and everything that it started.
pub fn taskkill_args(pid: u32) -> (r: Vec<String>)
    ensures
        strings(r@) == taskkill_arguments(pid as nat),
{
    let r = vec![
        "/PID".to_owned(),
        decimal_text(pid as usize),
        "/T".to_owned(),
        "/F".to_owned(),
    ];
    assert(strings(r@) == taskkill_arguments(pid as nat));
    r
}

/// How far the cleanup has come: what was done last.
#[derive(Clone, Copy, Debug, PartialEq, Eq, Structural)]
pub enum Cleanup {
    /// `taskkill` was started and waited for.
    Taskkill,
    /// `taskkill` did not end in time, was killed and waited for again.
    TaskkillKilled,
    /// The child was waited for; `Some` tells whether `taskkill` had succeeded.
    Child { taskkill: Option<bool> },
    /// The child did not end in time, was killed and waited for again.
    ChildKilled { taskkill: Option<bool> },
}

/// What to do next.
#[derive(Clone, Copy, Debug, PartialEq, Eq, Structural)]
pub enum CleanupStep {
    /// Kill `taskkill` and wait for it again.
    KillTaskkill,
    /// Wait for the child.
    AwaitChild { taskkill: Option<bool> },
    /// Kill the child and wait for it again.
    KillChild { taskkill: Option<bool> },
    /// The child has ended: its status is the result.
    Ended,
    /// `taskkill` could not be ended.
    TaskkillStuck,
    /// The child could not be ended.
    ChildStuck,
    /// The child has ended, but `taskkill` did not do its work.
    TaskkillFailed,
}

/// What to do after a wait, which saw the process end (`Some`, with its success) or not.
///
/// A child that ends after `taskkill` is fine, however `taskkill` ended. One that has to
/// be killed is fine only where `taskkill` had succeeded: else its own children may be
/// left.
pub open spec fn cleanup_step(done: Cleanup, exit: Option<bool>) -> CleanupStep {
    match done {
        Cleanup::Taskkill => match exit {
            Some(success) => CleanupStep::AwaitChild { taskkill: Some(success) },
            None => CleanupStep::KillTaskkill,
        },
        Cleanup::TaskkillKilled => match exit {
            Some(_) => CleanupStep::AwaitChild { taskkill: None },
            None => CleanupStep::TaskkillStuck,
        },
        Cleanup::Child { taskkill } => match exit {
            Some(_) => CleanupStep::Ended,
            None => CleanupStep::KillChild { taskkill },
        },
        Cleanup::ChildKilled { taskkill } => match exit {
            None => CleanupStep::ChildStuck,
            Some(_) => if taskkill == Some(true) {
                CleanupStep::Ended
            } else {
                CleanupStep::TaskkillFailed
            },
        },
    }
}

/// What to do after a wait.
pub fn terminate_process_tree(done: Cleanup, exit: Option<bool>) -> (r: CleanupStep)
    ensures
        r == cleanup_step(done, exit),
{
    match (done, exit) {
        (Cleanup::Taskkill, Some(success)) => CleanupStep::AwaitChild { taskkill: Some(success) },
        (Cleanup::Taskkill, None) => CleanupStep::KillTaskkill,
        (Cleanup::TaskkillKilled, Some(_)) => CleanupStep::AwaitChild { taskkill: None },
        (Cleanup::TaskkillKilled, None) => CleanupStep::TaskkillStuck,
        (Cleanup::Child { taskkill: _ }, Some(_)) => CleanupStep::Ended,
        (Cleanup::Child { taskkill }, None) => CleanupStep::KillChild { taskkill },
        (Cleanup::ChildKilled { taskkill: _ }, None) => CleanupStep::ChildStuck,
        (Cleanup::ChildKilled { taskkill: Some(true) }, Some(_)) => CleanupStep::Ended,
        (Cleanup::ChildKilled { taskkill: _ }, Some(_)) => CleanupStep::TaskkillFailed,
    }
}

/// What was done once a step was taken; `None` where the step is the last.
pub open spec fn after_step(step: CleanupStep) -> Option<Cleanup> {
    match step {
        CleanupStep::KillTaskkill => Some(Cleanup::TaskkillKilled),
        CleanupStep::AwaitChild { taskkill } => Some(Cleanup::Child { taskkill }),
        CleanupStep::KillChild { taskkill } => Some(Cleanup::ChildKilled { taskkill }),
        _ => None,
    }
}

impl CleanupStep {
    /// What was done once this step was taken; `None` where it is the last.
    pub fn taken(self) -> (r: Option<Cleanup>)
        ensures
            r == after_step(self),
    {
        match self {
            CleanupStep::KillTaskkill => Some(Cleanup::TaskkillKilled),
            CleanupStep::AwaitChild { taskkill } => Some(Cleanup::Child { taskkill }),
            CleanupStep::KillChild { taskkill } => Some(Cleanup::ChildKilled { taskkill }),
            _ => None,
        }
    }
}

/// How many waits can still come.
pub open spec fn waits_left(done: Cleanup) -> nat {
    match done {
        Cleanup::Taskkill => 3,
        Cleanup::TaskkillKilled => 2,
        Cleanup::Child { .. } => 1,
        Cleanup::ChildKilled { .. } => 0,
    }
}

/// The cleanup comes to its end after at most four waits, whatever they see, and ends
/// well only after a wait that saw the child end.
pub proof fn law_cleanup_is_bounded(done: Cleanup, exit: Option<bool>)
    ensures
        after_step(cleanup_step(done, exit)) matches Some(next) ==> waits_left(next) < waits_left(
            done,
        ) <= 3,
        cleanup_step(done, exit) == CleanupStep::Ended ==> exit is Some && (done is Child
            || done is ChildKilled),
{
}

/// The last step of a cleanup, by what its waits see: the first and the second for
/// `taskkill`, the first and the second for the child.
pub open spec fn last_step(
    done: Cleanup,
    taskkill: Option<bool>,
    taskkill_again: Option<bool>,
    child: Option<bool>,
    child_again: Option<bool>,
) -> CleanupStep
    decreases waits_left(done),
{
    let exit = match done {
        Cleanup::Taskkill => taskkill,
        Cleanup::TaskkillKilled => taskkill_again,
        Cleanup::Child { .. } => child,
        Cleanup::ChildKilled { .. } => child_again,
    };
    match after_step(cleanup_step(done, exit)) {
        Some(next) => last_step(next, taskkill, taskkill_again, child, child_again),
        None => cleanup_step(done, exit),
    }
}

/// What a whole cleanup comes to: it fails where `taskkill` cannot be ended, where the
/// child cannot be ended, and where the child had to be killed after a `taskkill` that did
/// not succeed; else the child has ended.
pub proof fn law_cleanup_result(
    taskkill: Option<bool>,
    taskkill_again: Option<bool>,
    child: Option<bool>,
    child_again: Option<bool>,
)
    ensures
        last_step(Cleanup::Taskkill, taskkill, taskkill_again, child, child_again) == (
        if taskkill is None && taskkill_again is None {
            CleanupStep::TaskkillStuck
        } else if child is Some {
            CleanupStep::Ended
        } else if child_again is None {
            CleanupStep::ChildStuck
        } else if taskkill == Some(true) {
            CleanupStep::Ended
        } else {
            CleanupStep::TaskkillFailed
        }),
{
    reveal_with_fuel(last_step, 4);
}

/// `taskkill` is given the number of the process, and ends it, by force, with all that it
/// started.
pub proof fn law_taskkill_is_given_the_process(pid: nat)
    ensures
        taskkill_arguments(pid).len() == 4,
        taskkill_arguments(pid)[0] == "/PID"@,
        crate::text_laws::value_of(taskkill_arguments(pid)[1]) == pid,
        taskkill_arguments(pid)[1] == decimal(pid),
        taskkill_arguments(pid)[2] == "/T"@,
        taskkill_arguments(pid)[3] == "/F"@,
{
    crate::text_laws::law_decimal_stands_for_the_number(pid);
}

} // verus!
