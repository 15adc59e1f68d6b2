use leak_profile::command::{Captured, CommandFail, ExitStatus, FailCause, OsError};
use leak_profile::timed::{after_step, event_answers, start, Event, Next, Step};

fn refused() -> OsError {
    OsError { code: Some(13), message: "Permission denied (os error 13)".to_string() }
}

fn launch_failure(command: &str) -> Next {
    Next::Done(Err(CommandFail {
        command: command.to_string(),
        cause: FailCause::ProcFail { err: refused() },
    }))
}

#[test]
fn run_begins_with_launch() {
    assert_eq!(start(), Step::Launch);
}

#[test]
fn process_that_ended_is_collected() {
    let step = start();
    let next = after_step(step, Event::Launched(Ok(())), "cmd");
    assert_eq!(next, Next::Take(Step::Sleep));
    let next = after_step(Step::Sleep, Event::Slept, "cmd");
    assert_eq!(next, Next::Take(Step::Poll));
    let next = after_step(Step::Poll, Event::Polled(Ok(true)), "cmd");
    assert_eq!(next, Next::Take(Step::Collect));
    let output = Captured {
        status: ExitStatus { success: true, code: Some(0) },
        stdout: b"hello\n".to_vec(),
        stderr: Vec::new(),
    };
    let next = after_step(Step::Collect, Event::Collected(Ok(output)), "cmd");
    assert_eq!(next, Next::Done(Ok(Some("hello\n".to_string()))));
}

#[test]
fn process_still_running_is_killed() {
    let next = after_step(Step::Poll, Event::Polled(Ok(false)), "cmd");
    assert_eq!(next, Next::Take(Step::Kill));
    let next = after_step(Step::Kill, Event::Killed(Ok(())), "cmd");
    assert_eq!(next, Next::Done(Ok(None)));
}

#[test]
fn process_that_ended_badly_fails() {
    let output = Captured {
        status: ExitStatus { success: false, code: Some(9) },
        stdout: b"out".to_vec(),
        stderr: b"err".to_vec(),
    };
    let next = after_step(Step::Collect, Event::Collected(Ok(output)), "cmd");
    assert_eq!(
        next,
        Next::Done(Err(CommandFail {
            command: "cmd".to_string(),
            cause: FailCause::RunFail { err_code: Some(9), err_out: "err".to_string() },
        }))
    );
}

#[test]
fn failed_step_ends_the_run() {
    assert_eq!(after_step(Step::Launch, Event::Launched(Err(refused())), "c"), launch_failure("c"));
    assert_eq!(after_step(Step::Poll, Event::Polled(Err(refused())), "c"), launch_failure("c"));
    assert_eq!(after_step(Step::Collect, Event::Collected(Err(refused())), "c"), launch_failure("c"));
    assert_eq!(after_step(Step::Kill, Event::Killed(Err(refused())), "c"), launch_failure("c"));
}

#[test]
fn event_answers_its_own_step_only() {
    let steps = [Step::Launch, Step::Sleep, Step::Poll, Step::Collect, Step::Kill];
    let events = [
        Event::Launched(Ok(())),
        Event::Slept,
        Event::Polled(Ok(true)),
        Event::Collected(Err(refused())),
        Event::Killed(Ok(())),
    ];
    for (i, step) in steps.iter().enumerate() {
        for (j, event) in events.iter().enumerate() {
            assert_eq!(event_answers(*step, event), i == j);
        }
    }
}
