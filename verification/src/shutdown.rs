use vstd::prelude::*;
use vstd::string::*;

verus! {

/// How a shutdown ended where the instruction to stop was delivered.
#[derive(Clone, Copy, Debug, PartialEq, Eq, Structural)]
pub enum ShutdownOutcome {
    /// The process exited.
    Stopped,
    /// The exit could not be awaited, or the process was not found: it is
    /// taken to be gone, which is what was asked for.
    AlreadyStopped,
}

/// Why a shutdown failed.
#[derive(Clone, Copy, Debug, PartialEq, Eq, Structural)]
pub enum ShutdownError {
    /// The instruction to stop could not be written: the pipe is closed
    /// or the process is gone. The process is taken to be dead.
    WriteFailed,
}

/// What the one who holds the process handle is to do next.
#[derive(Clone, Copy, Debug, PartialEq, Eq, Structural)]
pub enum ShutdownAction {
    /// Write [`stop_instruction`] to the standard input of the process.
    WriteInstruction,
    /// Block until the process has exited. Nothing bounds the wait: a
    /// server that ignores the instruction holds the caller up for good,
    /// and with it whatever exclusive access the caller holds.
    AwaitExit,
    /// Nothing more: the shutdown has ended as the state says.
    Finish,
}

/// What came of the last action.
#[derive(Clone, Copy, Debug, PartialEq, Eq, Structural)]
pub enum ShutdownEvent {
    /// The instruction was written.
    Written,
    /// The instruction could not be written.
    WriteFailed,
    /// The process exited.
    Exited,
    /// The wait failed, or found no process.
    WaitFailed,
}

/// Where a shutdown stands. A shutdown asks the server to stop and waits
/// for it; it never kills.
#[derive(Clone, Copy, Debug, PartialEq, Eq)]
pub enum ShutdownState {
    /// The instruction is yet to be written.
    Instructing,
    /// The instruction is written, and the exit is yet to come.
    Awaiting,
    /// The shutdown is over.
    Ended(Result<ShutdownOutcome, ShutdownError>),
}

/// The instruction that a server stops on, as it is written to its
/// standard input.
pub fn stop_instruction() -> (instruction: &'static str)
    ensures
        instruction@ == "stop"@,
{
    "stop"
}

impl ShutdownState {
    /// The state that `event` leads to. An event that does not answer the
    /// action of the state changes nothing.
    pub open spec fn after(self, event: ShutdownEvent) -> ShutdownState {
        match (self, event) {
            (ShutdownState::Instructing, ShutdownEvent::Written) => ShutdownState::Awaiting,
            (ShutdownState::Instructing, ShutdownEvent::WriteFailed) => ShutdownState::Ended(
                Err(ShutdownError::WriteFailed),
            ),
            (ShutdownState::Awaiting, ShutdownEvent::Exited) => ShutdownState::Ended(
                Ok(ShutdownOutcome::Stopped),
            ),
            (ShutdownState::Awaiting, ShutdownEvent::WaitFailed) => ShutdownState::Ended(
                Ok(ShutdownOutcome::AlreadyStopped),
            ),
            _ => self,
        }
    }

    /// The action that the state calls for.
    pub open spec fn pending(self) -> ShutdownAction {
        match self {
            ShutdownState::Instructing => ShutdownAction::WriteInstruction,
            ShutdownState::Awaiting => ShutdownAction::AwaitExit,
            ShutdownState::Ended(_) => ShutdownAction::Finish,
        }
    }

    /// How the shutdown ended, once it has.
    pub open spec fn ending(self) -> Option<Result<ShutdownOutcome, ShutdownError>> {
        match self {
            ShutdownState::Ended(result) => Some(result),
            _ => None,
        }
    }

    /// The state of a shutdown that has done nothing yet.
    pub fn begin() -> (state: ShutdownState)
        ensures
            state == ShutdownState::Instructing,
    {
        ShutdownState::Instructing
    }

    /// The action that the state calls for.
    pub fn action(&self) -> (action: ShutdownAction)
        ensures
            action == self.pending(),
    {
        match self {
            ShutdownState::Instructing => ShutdownAction::WriteInstruction,
            ShutdownState::Awaiting => ShutdownAction::AwaitExit,
            ShutdownState::Ended(_) => ShutdownAction::Finish,
        }
    }

    /// Takes in what came of the last action, and says where the shutdown
    /// stands now and what to do next.
    pub fn step(self, event: ShutdownEvent) -> (next: (ShutdownState, ShutdownAction))
        ensures
            next.0 == self.after(event),
            next.1 == self.after(event).pending(),
    {
        let state = match self {
            ShutdownState::Instructing => match event {
                ShutdownEvent::Written => ShutdownState::Awaiting,
                ShutdownEvent::WriteFailed => ShutdownState::Ended(Err(ShutdownError::WriteFailed)),
                _ => self,
            },
            ShutdownState::Awaiting => match event {
                ShutdownEvent::Exited => ShutdownState::Ended(Ok(ShutdownOutcome::Stopped)),
                ShutdownEvent::WaitFailed => ShutdownState::Ended(
                    Ok(ShutdownOutcome::AlreadyStopped),
                ),
                _ => self,
            },
            ShutdownState::Ended(_) => self,
        };
        let action = state.action();
        (state, action)
    }

    /// How the shutdown ended, once it has.
    pub fn result(&self) -> (result: Option<Result<ShutdownOutcome, ShutdownError>>)
        ensures
            result == self.ending(),
    {
        match self {
            ShutdownState::Ended(result) => Some(*result),
            _ => None,
        }
    }
}

/// The result of a whole shutdown, from whether the instruction could be
/// written and, where it could, whether the exit could be awaited.
pub open spec fn shutdown_result(written: bool, exited: bool) -> Result<
    ShutdownOutcome,
    ShutdownError,
> {
    if !written {
        Err(ShutdownError::WriteFailed)
    } else if exited {
        Ok(ShutdownOutcome::Stopped)
    } else {
        Ok(ShutdownOutcome::AlreadyStopped)
    }
}

/// A shutdown takes two actions at most. Where the instruction cannot be
/// written it ends at once, with the error and without a wait; where it
/// can, the wait follows, and the shutdown ends in success whether the
/// wait succeeds or fails.
pub proof fn lemma_shutdown_runs(written: bool, exited: bool)
    ensures
        ({
            let first = if written {
                ShutdownEvent::Written
            } else {
                ShutdownEvent::WriteFailed
            };
            let second = if exited {
                ShutdownEvent::Exited
            } else {
                ShutdownEvent::WaitFailed
            };
            let start = ShutdownState::Instructing;
            &&& start.pending() == ShutdownAction::WriteInstruction
            &&& !written ==> start.after(first).ending() == Some(shutdown_result(written, exited))
            &&& written ==> start.after(first).pending() == ShutdownAction::AwaitExit
            &&& written ==> start.after(first).after(second).ending() == Some(
                shutdown_result(written, exited),
            )
            &&& written ==> shutdown_result(written, exited) is Ok
        }),
{
}

/// A shutdown that has ended stays as it is, whatever comes after.
pub proof fn lemma_ended_is_final(state: ShutdownState, event: ShutdownEvent)
    requires
        state.ending() is Some,
    ensures
        state.after(event) == state,
        state.pending() == ShutdownAction::Finish,
{
}

} // verus!
