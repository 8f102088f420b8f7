//! The prompt's loop: what to do with each line of input, and when to stop.

use vstd::prelude::*;
use crate::command::{command_of, parse_command, words, Command, CommandView, ParseFailure};
use crate::error::Failure;

verus! {

/// What the loop does next.
#[derive(Debug, Clone, PartialEq, Eq)]
pub enum Step {
    /// Carry out a command, then go on.
    Run(Command),
    /// Tell the user why the line is no command, then go on.
    Report(ParseFailure),
    /// Leave the loop.
    Stop,
}

/// What a step holds.
pub enum StepView {
    Run(CommandView),
    Report(ParseFailure),
    Stop,
}

impl View for Step {
    type V = StepView;

    open spec fn view(&self) -> StepView {
        match *self {
            Step::Run(command) => StepView::Run(command@),
            Step::Report(failure) => StepView::Report(failure),
            Step::Stop => StepView::Stop,
        }
    }
}

/// The step that an input calls for. The end of the input and the command
/// to leave stop the loop; every other command is carried out; a line that
/// spells no command is reported.
pub open spec fn step_for(input: Option<Seq<char>>) -> StepView {
    match input {
        None => StepView::Stop,
        Some(line) => match command_of(words(line)) {
            Ok(CommandView::Exit) => StepView::Stop,
            Ok(command) => StepView::Run(command),
            Err(failure) => StepView::Report(failure),
        },
    }
}

/// What an input holds.
pub open spec fn input_view(input: Option<&str>) -> Option<Seq<char>> {
    match input {
        Some(line) => Some(line@),
        None => None,
    }
}

/// Whether the prompt awaits a command after an input, given whether it did
/// before: it does unless it had stopped or the input stops it.
pub open spec fn awaits_after_input(awaited: bool, input: Option<Seq<char>>) -> bool {
    awaited && !(step_for(input) is Stop)
}

/// Whether the prompt awaits a command after the outcome of a command,
/// given whether it did before: no outcome changes that.
pub open spec fn awaits_after_outcome(awaited: bool, outcome: Result<(), Failure>) -> bool {
    awaited
}

/// The state of the prompt between two lines of input: whether it still
/// awaits a command.
#[derive(Debug)]
pub struct Session {
    running: bool,
}

impl Session {
    /// Whether the prompt still awaits a command.
    pub closed spec fn awaits(&self) -> bool {
        self.running
    }

    /// A prompt that awaits its first command.
    pub fn new() -> (session: Session)
        ensures
            session.awaits(),
    {
        Session { running: true }
    }

    /// Whether the prompt still awaits a command.
    pub fn is_running(&self) -> (running: bool)
        ensures
            running == self.awaits(),
    {
        self.running
    }

    /// Takes the next input, a line or the end of the input (`None`), and
    /// says what to do with it. The prompt stops on the end of the input and
    /// on the command to leave, and on nothing else; once stopped, it stays
    /// stopped and reads no more.
    pub fn accept(&mut self, input: Option<&str>) -> (step: Step)
        ensures
            step@ == (if old(self).awaits() {
                step_for(input_view(input))
            } else {
                StepView::Stop
            }),
            final(self).awaits() == awaits_after_input(old(self).awaits(), input_view(input)),
    {
        if !self.running {
            return Step::Stop;
        }
        let line = match input {
            Some(line) => line,
            None => {
                self.running = false;
                return Step::Stop;
            },
        };
        match parse_command(line) {
            Ok(Command::Exit) => {
                self.running = false;
                Step::Stop
            },
            Ok(command) => Step::Run(command),
            Err(failure) => Step::Report(failure),
        }
    }

    /// Takes the outcome of the command that was carried out, and gives the
    /// message to show where the command failed. A failure never stops the
    /// prompt.
    pub fn finish(&mut self, outcome: Result<(), Failure>) -> (message: Option<String>)
        ensures
            final(self).awaits() == awaits_after_outcome(old(self).awaits(), outcome),
            match outcome {
                Ok(_) => message is None,
                Err(failure) => message matches Some(text) && text@ == failure.message_text(),
            },
    {
        match outcome {
            Ok(_) => None,
            Err(failure) => Some(failure.message()),
        }
    }
}

/// A prompt that awaits a command goes on after every input but the end of
/// the input and the command to leave.
pub proof fn lemma_only_leaving_stops(input: Option<Seq<char>>)
    ensures
        awaits_after_input(true, input) <==> (input matches Some(line) && command_of(words(line))
            != Ok::<CommandView, ParseFailure>(CommandView::Exit)),
{
}

/// A prompt that awaits a command still awaits one after the outcome of a
/// command, whether the command succeeded or failed, and after a line that
/// spells no command.
pub proof fn lemma_failures_never_stop(outcome: Result<(), Failure>, line: Seq<char>)
    ensures
        awaits_after_outcome(true, outcome),
        command_of(words(line)) is Err ==> awaits_after_input(true, Some(line)),
{
}

} // verus!
