use vstd::prelude::*;

verus! {

/// How a background task ended.
pub enum ExitOutcome {
    /// It returned normally.
    Completed,
    /// It returned an error, given by its display and debug texts.
    Failed { display: String, debug: String },
    /// It could not be joined (it panicked or was cancelled), given by the
    /// join error's display and debug texts.
    NotJoined { display: String, debug: String },
}

/// The severity of a log record.
#[derive(Clone, Copy, PartialEq, Eq, Structural, Debug)]
pub enum LogLevel {
    Info,
    Error,
}

/// The log record that reports how a task ended.
pub struct ExitReport {
    pub level: LogLevel,
    pub message: String,
    /// The error's debug text, when the task failed.
    pub cause_chain: Option<String>,
    /// The error's display text, when the task failed.
    pub error_message: Option<String>,
}

/// How the end of a task is reported: an information that it exited, or an
/// error that it failed or did not complete, with the error's texts.
pub open spec fn spec_exit_message(task_name: Seq<char>, outcome: ExitOutcome) -> Seq<char> {
    match outcome {
        ExitOutcome::Completed => task_name + " has exited"@,
        ExitOutcome::Failed { .. } => task_name + " failed"@,
        ExitOutcome::NotJoined { .. } => task_name + "' task failed to complete"@,
    }
}

/// The log record that reports how the task ended.
pub fn report_exit(task_name: &str, outcome: &ExitOutcome) -> (r: ExitReport)
    ensures
        r.message@ == spec_exit_message(task_name@, *outcome),
        r.level == (if outcome is Completed { LogLevel::Info } else { LogLevel::Error }),
        match outcome {
            ExitOutcome::Completed => r.cause_chain is None && r.error_message is None,
            ExitOutcome::Failed { display, debug } => r.cause_chain == Some(*debug) && r.error_message == Some(*display),
            ExitOutcome::NotJoined { display, debug } => r.cause_chain == Some(*debug) && r.error_message == Some(*display),
        },
{
    let name = String::from_str(task_name);
    match outcome {
        ExitOutcome::Completed => ExitReport {
            level: LogLevel::Info,
            message: name.concat(" has exited"),
            cause_chain: None,
            error_message: None,
        },
        ExitOutcome::Failed { display, debug } => ExitReport {
            level: LogLevel::Error,
            message: name.concat(" failed"),
            cause_chain: Some(debug.clone()),
            error_message: Some(display.clone()),
        },
        ExitOutcome::NotJoined { display, debug } => ExitReport {
            level: LogLevel::Error,
            message: name.concat("' task failed to complete"),
            cause_chain: Some(debug.clone()),
            error_message: Some(display.clone()),
        },
    }
}

} // verus!
