//! What the page shows for a state: flags and text for the markup to use.

use vstd::prelude::*;
use crate::app::App;
use crate::decimal::{decimal, decimal_text};
use crate::state::State;

verus! {

/// Whether the face smiles: the counter is known and not negative.
pub open spec fn positive_count(counter: Option<i32>) -> bool {
    counter matches Some(value) && value >= 0
}

/// Whether the tongue shows: the counter is known and further than 20 from
/// zero.
pub open spec fn show_tongue(counter: Option<i32>) -> bool {
    counter matches Some(value) && (value > 20 || value < -20)
}

/// The text in the display: the counter in decimal, or a placeholder while it
/// is not known.
pub open spec fn display_text(counter: Option<i32>) -> Seq<char> {
    match counter {
        Some(value) => decimal(value as int),
        None => "calculating..."@,
    }
}

/// The page of a signed-in user.
#[derive(Debug, PartialEq, Eq)]
pub struct MainView {
    /// The indicator light is on.
    pub light_on: bool,
    pub left_eye_open: bool,
    pub right_eye_open: bool,
    /// The mouth smiles; it cries otherwise.
    pub positive_count: bool,
    pub show_tongue: bool,
    /// The display shows as loading rather than as a number.
    pub loading: bool,
    /// The controls for increment, decrement and reset do not react.
    pub controls_disabled: bool,
    /// The text in the display.
    pub text: String,
}

/// What the page shows.
#[derive(Debug, PartialEq, Eq)]
pub enum Screen {
    /// Nobody is signed in: only the control to sign in.
    SignIn,
    /// Somebody is signed in.
    Main(MainView),
}

impl MainView {
    /// Whether this is the view of `state`.
    pub open spec fn shows(&self, state: State) -> bool {
        &&& self.light_on == state.light_indicator_on
        &&& self.left_eye_open == state.left_eye_open
        &&& self.right_eye_open == state.right_eye_open
        &&& self.positive_count == positive_count(state.counter_value)
        &&& self.show_tongue == show_tongue(state.counter_value)
        &&& self.loading == state.loading
        &&& self.controls_disabled == state.loading
        &&& self.text@ == display_text(state.counter_value)
    }
}

impl Screen {
    /// Whether this is what the page shows in `state` to the account
    /// `account_id`, where the empty account means that nobody is signed in.
    pub open spec fn shows(&self, state: State, account_id: Seq<char>) -> bool {
        match self {
            Screen::SignIn => account_id.len() == 0,
            Screen::Main(view) => account_id.len() != 0 && view.shows(state),
        }
    }
}

impl App {
    /// The page of a signed-in user in the current state.
    pub fn main_view(&self) -> (view: MainView)
        ensures
            view.shows(self.state()),
            self.state().loading ==> view.controls_disabled,
    {
        let state = self.state();
        let positive_count = if let Some(value) = state.counter_value {
            value >= 0
        } else {
            false
        };
        let show_tongue = if let Some(value) = state.counter_value {
            value > 20 || value < -20
        } else {
            false
        };
        let text = if let Some(value) = state.counter_value {
            decimal_text(value)
        } else {
            "calculating...".to_owned()
        };
        MainView {
            light_on: state.light_indicator_on,
            left_eye_open: state.left_eye_open,
            right_eye_open: state.right_eye_open,
            positive_count,
            show_tongue,
            loading: state.loading,
            controls_disabled: state.loading,
            text,
        }
    }

    /// What the page shows in the current state to the account `account_id`,
    /// as the gateway reports it: empty while nobody is signed in.
    pub fn view(&self, account_id: &str) -> (screen: Screen)
        ensures
            screen.shows(self.state(), account_id@),
    {
        if account_id.is_empty() {
            Screen::SignIn
        } else {
            Screen::Main(self.main_view())
        }
    }
}

} // verus!
