//! The state machine: the one owner of the page's [`State`].

use vstd::prelude::*;
use crate::command::{Command, Effect};
use crate::message::Msg;
use crate::state::{effect_of, State};

verus! {

/// The page. Its state changes through [`App::init`] and [`App::update`] and
/// through nothing else.
pub struct App {
    state: State,
}

impl App {
    /// The state the page is in.
    pub closed spec fn spec_state(&self) -> State {
        self.state
    }

    /// A page that has not been mounted yet.
    pub fn new() -> (app: App)
        ensures
            app.state() == State::initial(),
    {
        App {
            state: State {
                counter_value: None,
                loading: false,
                left_eye_open: true,
                right_eye_open: false,
                light_indicator_on: false,
            },
        }
    }

    /// A copy of the state the page is in.
    #[verifier::when_used_as_spec(spec_state)]
    pub fn state(&self) -> (state: State)
        ensures
            state == self.spec_state(),
    {
        self.state
    }

    /// Mounts the page: whether or not anybody is signed in, the page shows as
    /// loading and the counter is to be read.
    pub fn init(&mut self) -> (effect: Effect)
        ensures
            final(self).state() == old(self).state().mounted(),
            effect == Effect::Run(Command::FetchCount),
    {
        self.state.loading = true;
        Effect::Run(Command::FetchCount)
    }

    /// Processes one message.
    ///
    /// Every message is handled in every state. The new state and the effect
    /// are functions of the old state and the message alone.
    pub fn update(&mut self, msg: Msg) -> (effect: Effect)
        ensures
            final(self).state() == old(self).state().after(msg),
            effect == effect_of(msg),
            // A count that was read replaces whatever was known before.
            msg matches Msg::ReceivedCount(value) ==> {
                &&& final(self).state().counter_value == Some(value)
                &&& !final(self).state().loading
            },
            // A click on a control that changes the counter only starts the call.
            msg.is_mutation_click() ==> final(self).state().loading,
            // Only a count that was read sets the counter or ends the loading.
            !(msg is ReceivedCount) ==> {
                &&& final(self).state().counter_value == old(self).state().counter_value
                &&& old(self).state().loading ==> final(self).state().loading
            },
            // The toggles outlive everything but their own message.
            !(msg is ToggleLeftEye) ==> {
                final(self).state().left_eye_open == old(self).state().left_eye_open
            },
            !(msg is ToggleRightEye) ==> {
                final(self).state().right_eye_open == old(self).state().right_eye_open
            },
            !(msg is ToggleLightIndicator) ==> {
                final(self).state().light_indicator_on == old(self).state().light_indicator_on
            },
    {
        match msg {
            Msg::ReceivedCount(value) => {
                self.state.loading = false;
                self.state.counter_value = Some(value);
                Effect::Idle
            },
            Msg::ContractError(_) => Effect::Idle,
            Msg::IncrementClicked => {
                self.state.loading = true;
                Effect::Run(Command::Increment)
            },
            Msg::DecrementClicked => {
                self.state.loading = true;
                Effect::Run(Command::Decrement)
            },
            Msg::ResetClicked => {
                self.state.loading = true;
                Effect::Run(Command::Reset)
            },
            Msg::ContractIncremented | Msg::ContractDecremented | Msg::ContractReset => {
                Effect::Run(Command::FetchCount)
            },
            Msg::ToggleLeftEye => {
                self.state.left_eye_open = !self.state.left_eye_open;
                Effect::Idle
            },
            Msg::ToggleRightEye => {
                self.state.right_eye_open = !self.state.right_eye_open;
                Effect::Idle
            },
            Msg::ToggleLightIndicator => {
                self.state.light_indicator_on = !self.state.light_indicator_on;
                Effect::Idle
            },
            Msg::SignOutClicked => Effect::SignOut,
            Msg::SignInClicked => Effect::SignIn,
        }
    }
}

} // verus!
