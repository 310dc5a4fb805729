//! The state of the page and its transition function, as mathematics.

use vstd::prelude::*;
use crate::command::{Command, Effect};
use crate::message::Msg;

verus! {

/// Everything the page remembers between two messages.
#[derive(Clone, Copy, Debug, PartialEq, Eq)]
pub struct State {
    /// The counter as last read from the gateway; `None` until the first read
    /// has come back.
    pub counter_value: Option<i32>,
    /// Whether a read or a change of the counter is still outstanding.
    pub loading: bool,
    pub left_eye_open: bool,
    pub right_eye_open: bool,
    pub light_indicator_on: bool,
}

impl State {
    /// The state a page is created with.
    pub open spec fn initial() -> State {
        State {
            counter_value: None,
            loading: false,
            left_eye_open: true,
            right_eye_open: false,
            light_indicator_on: false,
        }
    }

    /// The state after mounting: the first read of the counter is under way.
    pub open spec fn mounted(self) -> State {
        State { loading: true, ..self }
    }

    /// The state after `msg` was processed in this state.
    pub open spec fn after(self, msg: Msg) -> State {
        match msg {
            Msg::ReceivedCount(value) => State {
                counter_value: Some(value),
                loading: false,
                ..self
            },
            Msg::IncrementClicked | Msg::DecrementClicked | Msg::ResetClicked => State {
                loading: true,
                ..self
            },
            Msg::ToggleLeftEye => State { left_eye_open: !self.left_eye_open, ..self },
            Msg::ToggleRightEye => State { right_eye_open: !self.right_eye_open, ..self },
            Msg::ToggleLightIndicator => State {
                light_indicator_on: !self.light_indicator_on,
                ..self
            },
            Msg::ContractError(_)
            | Msg::ContractIncremented
            | Msg::ContractDecremented
            | Msg::ContractReset
            | Msg::SignOutClicked
            | Msg::SignInClicked => self,
        }
    }

    /// The state after all of `msgs` were processed, one at a time and in the
    /// order in which they arrived.
    pub open spec fn after_all(self, msgs: Seq<Msg>) -> State
        decreases msgs.len(),
    {
        if msgs.len() == 0 {
            self
        } else {
            self.after(msgs.first()).after_all(msgs.drop_first())
        }
    }
}

/// What the runtime has to do once `msg` was processed. It does not depend on
/// the state the message met.
pub open spec fn effect_of(msg: Msg) -> Effect {
    match msg {
        Msg::IncrementClicked => Effect::Run(Command::Increment),
        Msg::DecrementClicked => Effect::Run(Command::Decrement),
        Msg::ResetClicked => Effect::Run(Command::Reset),
        Msg::ContractIncremented | Msg::ContractDecremented | Msg::ContractReset => Effect::Run(
            Command::FetchCount,
        ),
        Msg::SignOutClicked => Effect::SignOut,
        Msg::SignInClicked => Effect::SignIn,
        Msg::ReceivedCount(_)
        | Msg::ContractError(_)
        | Msg::ToggleLeftEye
        | Msg::ToggleRightEye
        | Msg::ToggleLightIndicator => Effect::Idle,
    }
}

} // verus!
