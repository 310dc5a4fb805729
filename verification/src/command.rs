//! What the state machine asks of the runtime, and how a finished gateway call
//! comes back to it.

use vstd::prelude::*;
use crate::app::App;
use crate::message::{GatewayError, Msg};

verus! {

/// One asynchronous call into the contract gateway.
///
/// A command carries nothing but its kind. The runtime makes the call once,
/// waits for it, and hands the outcome to the function of [`App`] that
/// resolves this kind of command into exactly one [`Msg`].
#[derive(Clone, Copy, Debug, PartialEq, Eq)]
pub enum Command {
    /// Read the counter.
    FetchCount,
    /// Add one to the counter.
    Increment,
    /// Take one from the counter.
    Decrement,
    /// Set the counter back to its start value.
    Reset,
}

/// What the runtime has to do after a message was processed.
#[derive(Clone, Copy, Debug, PartialEq, Eq)]
pub enum Effect {
    /// Nothing.
    Idle,
    /// Start the gateway call and feed its outcome back as a message.
    Run(Command),
    /// Start the wallet's sign-out flow; no message comes back.
    SignOut,
    /// Start the wallet's sign-in flow; no message comes back.
    SignIn,
}

impl Command {
    /// The message that reports success of a command that changes the counter;
    /// a fetch has none, it reports the count it read.
    pub open spec fn acknowledgement(self) -> Option<Msg> {
        match self {
            Command::FetchCount => None,
            Command::Increment => Some(Msg::ContractIncremented),
            Command::Decrement => Some(Msg::ContractDecremented),
            Command::Reset => Some(Msg::ContractReset),
        }
    }

    /// Whether `msg` is a message that this command can resolve into.
    ///
    /// A fetch resolves into the count it read, a change of the counter into
    /// its own acknowledgement, and any of them into an error.
    pub open spec fn resolves_into(self, msg: Msg) -> bool {
        ||| msg is ContractError
        ||| self == Command::FetchCount && msg is ReceivedCount
        ||| self.acknowledgement() == Some(msg)
    }
}

/// The message a finished fetch of the counter resolves into.
pub open spec fn fetch_message(outcome: Result<i32, GatewayError>) -> Msg {
    match outcome {
        Ok(value) => Msg::ReceivedCount(value),
        Err(error) => Msg::ContractError(error),
    }
}

/// The message a finished change of the counter resolves into, given the
/// message that acknowledges it.
pub open spec fn mutation_message(acknowledgement: Msg, outcome: Result<(), GatewayError>) -> Msg {
    match outcome {
        Ok(_) => acknowledgement,
        Err(error) => Msg::ContractError(error),
    }
}

impl App {
    /// Resolves a finished [`Command::FetchCount`]: the count that was read
    /// refreshes the page, a failure is reported.
    pub fn update_ui(outcome: Result<i32, GatewayError>) -> (msg: Msg)
        ensures
            msg == fetch_message(outcome),
            Command::FetchCount.resolves_into(msg),
    {
        match outcome {
            Ok(value) => Msg::ReceivedCount(value),
            Err(error) => Msg::ContractError(error),
        }
    }

    /// Resolves a finished [`Command::Increment`].
    pub fn increment(outcome: Result<(), GatewayError>) -> (msg: Msg)
        ensures
            msg == mutation_message(Msg::ContractIncremented, outcome),
            Command::Increment.resolves_into(msg),
    {
        match outcome {
            Ok(_) => Msg::ContractIncremented,
            Err(error) => Msg::ContractError(error),
        }
    }

    /// Resolves a finished [`Command::Decrement`].
    pub fn decrement(outcome: Result<(), GatewayError>) -> (msg: Msg)
        ensures
            msg == mutation_message(Msg::ContractDecremented, outcome),
            Command::Decrement.resolves_into(msg),
    {
        match outcome {
            Ok(_) => Msg::ContractDecremented,
            Err(error) => Msg::ContractError(error),
        }
    }

    /// Resolves a finished [`Command::Reset`].
    pub fn reset(outcome: Result<(), GatewayError>) -> (msg: Msg)
        ensures
            msg == mutation_message(Msg::ContractReset, outcome),
            Command::Reset.resolves_into(msg),
    {
        match outcome {
            Ok(_) => Msg::ContractReset,
            Err(error) => Msg::ContractError(error),
        }
    }
}

} // verus!
