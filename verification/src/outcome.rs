use crate::shutdown::{ShutdownError, ShutdownOutcome};
use crate::text::{decimal, push_decimal};
use vstd::prelude::*;
use vstd::string::*;

verus! {

/// How a request ended, as the requester is told.
#[derive(Clone, Debug, PartialEq, Eq)]
pub enum Outcome {
    /// The request came from no guild.
    NoGuild,
    /// The request named no server index.
    NoServerIndex,
    /// The index is not that of a configured server.
    OutOfBounds,
    /// The server belongs to another guild than the requester's.
    WrongGuild,
    /// Nothing to start: the server's slot holds a process.
    AlreadyRunning,
    /// Nothing to stop: the server's slot is empty.
    AlreadyStopped,
    /// The server was launched. Carries the address to join it at, where
    /// one was handed in.
    Started(Option<String>),
    /// The process could not be spawned. Carries the cause.
    LaunchFailed(String),
    /// The server was told to stop, and its process exited.
    Stopped,
    /// The server was told to stop, but its exit could not be awaited: the
    /// process is taken to be gone.
    ProcessGone,
    /// The server could not be told to stop: the process is taken to be
    /// gone.
    StopNotDelivered,
}

/// An [`Outcome`] with its texts as sequences of characters.
pub enum OutcomeView {
    NoGuild,
    NoServerIndex,
    OutOfBounds,
    WrongGuild,
    AlreadyRunning,
    AlreadyStopped,
    Started(Option<Seq<char>>),
    LaunchFailed(Seq<char>),
    Stopped,
    ProcessGone,
    StopNotDelivered,
}

impl View for Outcome {
    type V = OutcomeView;

    open spec fn view(&self) -> OutcomeView {
        match self {
            Outcome::NoGuild => OutcomeView::NoGuild,
            Outcome::NoServerIndex => OutcomeView::NoServerIndex,
            Outcome::OutOfBounds => OutcomeView::OutOfBounds,
            Outcome::WrongGuild => OutcomeView::WrongGuild,
            Outcome::AlreadyRunning => OutcomeView::AlreadyRunning,
            Outcome::AlreadyStopped => OutcomeView::AlreadyStopped,
            Outcome::Started(address) => OutcomeView::Started(
                match address {
                    Some(a) => Some(a@),
                    None => None,
                },
            ),
            Outcome::LaunchFailed(cause) => OutcomeView::LaunchFailed(cause@),
            Outcome::Stopped => OutcomeView::Stopped,
            Outcome::ProcessGone => OutcomeView::ProcessGone,
            Outcome::StopNotDelivered => OutcomeView::StopNotDelivered,
        }
    }
}

/// The greeting that draws the attention of the user or role `notify_id`.
pub open spec fn mention(notify_id: u64) -> Seq<char> {
    "<@"@ + decimal(notify_id as nat) + "> "@
}

/// The message that tells of `outcome`. Outcomes that changed or may have
/// changed what runs on the host begin with a [`mention`].
pub open spec fn message_text(outcome: OutcomeView, notify_id: u64) -> Seq<char> {
    match outcome {
        OutcomeView::NoGuild => "No guild id in command"@,
        OutcomeView::NoServerIndex => "Did not receive a server index"@,
        OutcomeView::OutOfBounds => "Server index out of bounds"@,
        OutcomeView::WrongGuild => "Error: trying to control server from wrong guild"@,
        OutcomeView::AlreadyRunning => "This server is already running!"@,
        OutcomeView::AlreadyStopped => "Server is already stopped!"@,
        OutcomeView::Started(Some(address)) => mention(notify_id) + "Starting the server at "@
            + address + ", please wait ~20 seconds before joining"@,
        OutcomeView::Started(None) => mention(notify_id)
            + "Starting the server, please wait ~20 seconds before joining"@,
        OutcomeView::LaunchFailed(cause) => mention(notify_id)
            + "Failed to start server process: "@ + cause,
        OutcomeView::Stopped => mention(notify_id) + "Server has been stopped"@,
        OutcomeView::ProcessGone => mention(notify_id)
            + "Tried to kill server, but it was already stopped"@,
        OutcomeView::StopNotDelivered => mention(notify_id) + "Could not write 'stop' to stdin"@,
    }
}

/// The outcome of a request to stop a server whose shutdown ended in
/// `result`. The slot is empty in each case; the outcome says how sure it
/// is that the process is gone.
pub open spec fn shutdown_outcome(result: Result<ShutdownOutcome, ShutdownError>) -> OutcomeView {
    match result {
        Ok(ShutdownOutcome::Stopped) => OutcomeView::Stopped,
        Ok(ShutdownOutcome::AlreadyStopped) => OutcomeView::ProcessGone,
        Err(ShutdownError::WriteFailed) => OutcomeView::StopNotDelivered,
    }
}

fn mention_string(notify_id: u64) -> (text: String)
    ensures
        text@ == mention(notify_id),
{
    let mut text = String::from_str("<@");
    push_decimal(&mut text, notify_id);
    text.append("> ");
    text
}

impl Outcome {
    /// The outcome of a request to stop a server whose shutdown ended in
    /// `result`.
    pub fn of_shutdown(result: Result<ShutdownOutcome, ShutdownError>) -> (outcome: Outcome)
        ensures
            outcome@ == shutdown_outcome(result),
    {
        match result {
            Ok(ShutdownOutcome::Stopped) => Outcome::Stopped,
            Ok(ShutdownOutcome::AlreadyStopped) => Outcome::ProcessGone,
            Err(ShutdownError::WriteFailed) => Outcome::StopNotDelivered,
        }
    }

    /// Writes the message that tells the requester of this outcome.
    pub fn message(&self, notify_id: u64) -> (text: String)
        ensures
            text@ == message_text(self@, notify_id),
    {
        match self {
            Outcome::NoGuild => String::from_str("No guild id in command"),
            Outcome::NoServerIndex => String::from_str("Did not receive a server index"),
            Outcome::OutOfBounds => String::from_str("Server index out of bounds"),
            Outcome::WrongGuild => String::from_str(
                "Error: trying to control server from wrong guild",
            ),
            Outcome::AlreadyRunning => String::from_str("This server is already running!"),
            Outcome::AlreadyStopped => String::from_str("Server is already stopped!"),
            Outcome::Started(Some(address)) => mention_string(notify_id).concat(
                "Starting the server at ",
            ).concat(address.as_str()).concat(", please wait ~20 seconds before joining"),
            Outcome::Started(None) => mention_string(notify_id).concat(
                "Starting the server, please wait ~20 seconds before joining",
            ),
            Outcome::LaunchFailed(cause) => mention_string(notify_id).concat(
                "Failed to start server process: ",
            ).concat(cause.as_str()),
            Outcome::Stopped => mention_string(notify_id).concat("Server has been stopped"),
            Outcome::ProcessGone => mention_string(notify_id).concat(
                "Tried to kill server, but it was already stopped",
            ),
            Outcome::StopNotDelivered => mention_string(notify_id).concat(
                "Could not write 'stop' to stdin",
            ),
        }
    }
}

} // verus!
