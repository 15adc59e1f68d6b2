//! Running a command against a deadline, as a sequence of decisions.
//!
//! The caller does the work on the process: it starts it, sleeps for the whole
//! timeout, asks whether the process has ended, and then either collects what
//! it left behind or ends it by force. After each step it reports what came of
//! it, and [`after_step`] says what to do next or how the run ended. A process
//! that is still running at the deadline is ended, and the run then ends
//! without output and without a failure.

use crate::command::{
    lossy_text, map_output, proc_fail, proc_failure, run_fail, Captured, CommandFail,
    CommandFailView, OsError,
};
use vstd::prelude::*;
use vstd::utf8::{decode_utf8, valid_utf8};

verus! {

/// One step of the caller's work on the process.
#[derive(Debug, Clone, Copy, PartialEq, Eq, Structural)]
pub enum Step {
    /// Start the process.
    Launch,
    /// Sleep for the whole timeout.
    Sleep,
    /// Ask, without waiting, whether the process has ended.
    Poll,
    /// Wait for the process and collect its exit status and output.
    Collect,
    /// End the process by force.
    Kill,
}

/// What came of a step.
#[derive(Debug, PartialEq, Eq)]
pub enum Event {
    /// The process was started, or the operating system refused.
    Launched(Result<(), OsError>),
    /// The timeout has passed.
    Slept,
    /// Whether the process has ended, or why that could not be learned.
    Polled(Result<bool, OsError>),
    /// What the process left behind, or why it could not be collected.
    Collected(Result<Captured, OsError>),
    /// The process was ended, or the operating system refused.
    Killed(Result<(), OsError>),
}

/// What follows a step.
#[derive(Debug, PartialEq, Eq)]
pub enum Next {
    /// The caller takes this step next.
    Take(Step),
    /// The run has ended: with the text that the command printed, with
    /// nothing where the process was ended at the deadline, or with a failure.
    Done(Result<Option<String>, CommandFail>),
}

/// The step that a run begins with.
pub open spec fn first_step() -> Step {
    Step::Launch
}

/// Whether `event` is what can come of `step`.
pub open spec fn answers(step: Step, event: Event) -> bool {
    match event {
        Event::Launched(_) => step == Step::Launch,
        Event::Slept => step == Step::Sleep,
        Event::Polled(_) => step == Step::Poll,
        Event::Collected(_) => step == Step::Collect,
        Event::Killed(_) => step == Step::Kill,
    }
}

/// Whether `next` ends the run with the text `text`.
pub open spec fn done_with_text(next: Next, text: Seq<char>) -> bool {
    &&& next is Done
    &&& next->Done_0 is Ok
    &&& next->Done_0->Ok_0 is Some
    &&& next->Done_0->Ok_0->Some_0@ == text
}

/// Whether `next` ends the run without output and without a failure.
pub open spec fn done_at_deadline(next: Next) -> bool {
    &&& next is Done
    &&& next->Done_0 is Ok
    &&& next->Done_0->Ok_0 is None
}

/// Whether `next` ends the run with the failure `fail`.
pub open spec fn done_with_failure(next: Next, fail: CommandFailView) -> bool {
    &&& next is Done
    &&& next->Done_0 is Err
    &&& next->Done_0->Err_0@ == fail
}

/// Whether `next` is what follows `event` in a run of `command`.
///
/// A step that the operating system failed ends the run with that failure.
/// Otherwise the steps follow each other: start, sleep, ask. A process that has
/// ended by then is collected, and its exit status decides as it does for a run
/// without a deadline. One that has not is ended, and the run ends without
/// output.
pub open spec fn follows(event: Event, command: Seq<char>, next: Next) -> bool {
    match event {
        Event::Launched(Ok(_)) => next == Next::Take(Step::Sleep),
        Event::Slept => next == Next::Take(Step::Poll),
        Event::Polled(Ok(ended)) => next == Next::Take(
            if ended {
                Step::Collect
            } else {
                Step::Kill
            },
        ),
        Event::Collected(Ok(output)) => if output.status.success {
            &&& done_with_text(next, lossy_text(output.stdout@))
            &&& valid_utf8(output.stdout@) ==> done_with_text(next, decode_utf8(output.stdout@))
        } else {
            done_with_failure(
                next,
                run_fail(command, output.status.code, lossy_text(output.stderr@)),
            )
        },
        Event::Killed(Ok(_)) => done_at_deadline(next),
        Event::Launched(Err(err)) => done_with_failure(next, proc_fail(command, err@)),
        Event::Polled(Err(err)) => done_with_failure(next, proc_fail(command, err@)),
        Event::Collected(Err(err)) => done_with_failure(next, proc_fail(command, err@)),
        Event::Killed(Err(err)) => done_with_failure(next, proc_fail(command, err@)),
    }
}

/// The step that a run begins with.
pub fn start() -> (step: Step)
    ensures
        step == first_step(),
{
    Step::Launch
}

/// Tells whether `event` is what can come of `step`.
pub fn event_answers(step: Step, event: &Event) -> (b: bool)
    ensures
        b == answers(step, *event),
{
    match event {
        Event::Launched(_) => step == Step::Launch,
        Event::Slept => step == Step::Sleep,
        Event::Polled(_) => step == Step::Poll,
        Event::Collected(_) => step == Step::Collect,
        Event::Killed(_) => step == Step::Kill,
    }
}

/// Decides what follows `step`, given what came of it.
pub fn after_step(step: Step, event: Event, command: &str) -> (next: Next)
    requires
        answers(step, event),
    ensures
        follows(event, command@, next),
{
    match event {
        Event::Launched(Ok(_)) => Next::Take(Step::Sleep),
        Event::Slept => Next::Take(Step::Poll),
        Event::Polled(Ok(ended)) => if ended {
            Next::Take(Step::Collect)
        } else {
            Next::Take(Step::Kill)
        },
        Event::Collected(Ok(output)) => match map_output(output, command) {
            Ok(text) => Next::Done(Ok(Some(text))),
            Err(fail) => Next::Done(Err(fail)),
        },
        Event::Killed(Ok(_)) => Next::Done(Ok(None)),
        Event::Launched(Err(err)) => Next::Done(Err(proc_failure(err, command))),
        Event::Polled(Err(err)) => Next::Done(Err(proc_failure(err, command))),
        Event::Collected(Err(err)) => Next::Done(Err(proc_failure(err, command))),
        Event::Killed(Err(err)) => Next::Done(Err(proc_failure(err, command))),
    }
}

/// A run ends without output and without a failure only where the process
/// was ended by force, and a process is ended by force only where it was found
/// still running after the timeout.
pub proof fn lemma_deadline_only_after_kill(event: Event, command: Seq<char>, next: Next)
    requires
        follows(event, command, next),
    ensures
        done_at_deadline(next) ==> event is Killed && event->Killed_0 is Ok,
        next == Next::Take(Step::Kill) ==> event == Event::Polled(Ok(false)),
        next == Next::Take(Step::Poll) ==> event == Event::Slept,
{
}

} // verus!
