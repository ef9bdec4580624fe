//! Tasks: what the scheduler runs when an instant falls due.

use std::io::Write;
use vstd::prelude::*;

verus! {

/// A side effect that the scheduler sets off. The scheduler learns nothing
/// of what a task does: it gets no result back.
pub trait Task {
    /// Runs the task once.
    fn execute(&self);
}

/// A task that prints one line.
#[derive(Clone, Copy, Debug)]
pub struct PrintingTask;

impl PrintingTask {
    /// The line that the task prints, without its line break.
    pub fn message() -> (text: &'static str)
        ensures
            text@ == "Running printing Task... Goodbye"@,
    {
        "Running printing Task... Goodbye"
    }
}

impl Task for PrintingTask {
    fn execute(&self) {
        print_line(PrintingTask::message());
    }
}

/// Writes `text` and a line break to the standard output, through `writeln!`
/// on `std::io::stdout()`. A failure to write is dropped. Nothing is claimed.
#[verifier::external_body]
fn print_line(text: &str) {
    let _ = writeln!(std::io::stdout(), "{}", text);
}

} // verus!
