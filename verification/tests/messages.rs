use server_man::outcome::Outcome;
use server_man::shutdown::{
    stop_instruction, ShutdownAction, ShutdownError, ShutdownEvent, ShutdownOutcome, ShutdownState,
};

const NOTIFY: u64 = 123456789012345678;

#[test]
fn refusals_read_the_same_for_everyone() {
    assert_eq!(Outcome::NoGuild.message(NOTIFY), "No guild id in command");
    assert_eq!(Outcome::NoServerIndex.message(NOTIFY), "Did not receive a server index");
    assert_eq!(Outcome::OutOfBounds.message(NOTIFY), "Server index out of bounds");
    assert_eq!(
        Outcome::WrongGuild.message(NOTIFY),
        "Error: trying to control server from wrong guild"
    );
    assert_eq!(Outcome::AlreadyRunning.message(NOTIFY), "This server is already running!");
    assert_eq!(Outcome::AlreadyStopped.message(NOTIFY), "Server is already stopped!");
    assert_eq!(Outcome::NoGuild.message(0), "No guild id in command");
}

#[test]
fn started_message() {
    assert_eq!(
        Outcome::Started(None).message(NOTIFY),
        "<@123456789012345678> Starting the server, please wait ~20 seconds before joining"
    );
    assert_eq!(
        Outcome::Started(Some("198.51.100.4".to_string())).message(NOTIFY),
        "<@123456789012345678> Starting the server at 198.51.100.4, please wait ~20 seconds before joining"
    );
    assert_eq!(
        Outcome::Started(Some("2001:db8::1".to_string())).message(5),
        "<@5> Starting the server at 2001:db8::1, please wait ~20 seconds before joining"
    );
}

#[test]
fn launch_failure_message_carries_the_cause() {
    assert_eq!(
        Outcome::LaunchFailed("No such file or directory (os error 2)".to_string()).message(NOTIFY),
        "<@123456789012345678> Failed to start server process: No such file or directory (os error 2)"
    );
}

#[test]
fn stop_messages() {
    assert_eq!(Outcome::Stopped.message(NOTIFY), "<@123456789012345678> Server has been stopped");
    assert_eq!(
        Outcome::ProcessGone.message(NOTIFY),
        "<@123456789012345678> Tried to kill server, but it was already stopped"
    );
    assert_eq!(
        Outcome::StopNotDelivered.message(NOTIFY),
        "<@123456789012345678> Could not write 'stop' to stdin"
    );
    assert_eq!(Outcome::Stopped.message(0), "<@0> Server has been stopped");
    assert_eq!(
        Outcome::Stopped.message(u64::MAX),
        "<@18446744073709551615> Server has been stopped"
    );
}

#[test]
fn outcome_of_each_shutdown_result() {
    assert_eq!(Outcome::of_shutdown(Ok(ShutdownOutcome::Stopped)), Outcome::Stopped);
    assert_eq!(Outcome::of_shutdown(Ok(ShutdownOutcome::AlreadyStopped)), Outcome::ProcessGone);
    assert_eq!(Outcome::of_shutdown(Err(ShutdownError::WriteFailed)), Outcome::StopNotDelivered);
}

#[test]
fn the_instruction_is_stop() {
    assert_eq!(stop_instruction(), "stop");
}

#[test]
fn shutdown_begins_with_the_instruction() {
    let state = ShutdownState::begin();
    assert_eq!(state, ShutdownState::Instructing);
    assert_eq!(state.action(), ShutdownAction::WriteInstruction);
    assert_eq!(state.result(), None);
}

#[test]
fn shutdown_that_goes_well() {
    let (state, action) = ShutdownState::begin().step(ShutdownEvent::Written);
    assert_eq!(state, ShutdownState::Awaiting);
    assert_eq!(action, ShutdownAction::AwaitExit);
    assert_eq!(state.result(), None);
    let (state, action) = state.step(ShutdownEvent::Exited);
    assert_eq!(action, ShutdownAction::Finish);
    assert_eq!(state.result(), Some(Ok(ShutdownOutcome::Stopped)));
}

#[test]
fn shutdown_whose_write_fails_ends_without_a_wait() {
    let (state, action) = ShutdownState::begin().step(ShutdownEvent::WriteFailed);
    assert_eq!(action, ShutdownAction::Finish);
    assert_eq!(state.result(), Some(Err(ShutdownError::WriteFailed)));
}

#[test]
fn shutdown_whose_wait_fails_takes_the_process_for_gone() {
    let (state, _) = ShutdownState::begin().step(ShutdownEvent::Written);
    let (state, action) = state.step(ShutdownEvent::WaitFailed);
    assert_eq!(action, ShutdownAction::Finish);
    assert_eq!(state.result(), Some(Ok(ShutdownOutcome::AlreadyStopped)));
}

#[test]
fn shutdown_ignores_events_out_of_turn() {
    let begin = ShutdownState::begin();
    assert_eq!(begin.step(ShutdownEvent::Exited), (begin, ShutdownAction::WriteInstruction));
    assert_eq!(begin.step(ShutdownEvent::WaitFailed), (begin, ShutdownAction::WriteInstruction));
    let waiting = ShutdownState::Awaiting;
    assert_eq!(waiting.step(ShutdownEvent::Written), (waiting, ShutdownAction::AwaitExit));
    assert_eq!(waiting.step(ShutdownEvent::WriteFailed), (waiting, ShutdownAction::AwaitExit));
    let ended = ShutdownState::Ended(Ok(ShutdownOutcome::Stopped));
    for event in [
        ShutdownEvent::Written,
        ShutdownEvent::WriteFailed,
        ShutdownEvent::Exited,
        ShutdownEvent::WaitFailed,
    ] {
        assert_eq!(ended.step(event), (ended, ShutdownAction::Finish));
    }
}
