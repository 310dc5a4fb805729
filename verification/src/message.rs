//! The closed set of events the state machine reacts to.

use vstd::prelude::*;

verus! {

/// Why a gateway call failed.
///
/// Every failure of every gateway call (network, rejected transaction, not
/// signed in, ...) is the same kind of error at this layer; only a diagnostic
/// for the log is kept.
#[derive(Debug, PartialEq, Eq)]
pub struct GatewayError {
    pub diagnostic: String,
}

/// One variant per user interaction and per outcome of a gateway call.
#[derive(Debug, PartialEq, Eq)]
pub enum Msg {
    /// The gateway reported the current value of the counter.
    ReceivedCount(i32),
    /// A gateway call failed.
    ContractError(GatewayError),
    /// The increment control was clicked.
    IncrementClicked,
    /// The decrement control was clicked.
    DecrementClicked,
    /// The reset control was clicked.
    ResetClicked,
    /// The gateway acknowledged an increment.
    ContractIncremented,
    /// The gateway acknowledged a decrement.
    ContractDecremented,
    /// The gateway acknowledged a reset.
    ContractReset,
    ToggleLeftEye,
    ToggleRightEye,
    ToggleLightIndicator,
    SignOutClicked,
    SignInClicked,
}

impl Msg {
    /// One of the three clicks that ask the gateway to change the counter.
    pub open spec fn is_mutation_click(self) -> bool {
        self is IncrementClicked || self is DecrementClicked || self is ResetClicked
    }

    /// One of the three acknowledgements of a change of the counter.
    pub open spec fn is_acknowledgement(self) -> bool {
        self is ContractIncremented || self is ContractDecremented || self is ContractReset
    }

    /// One of the three cosmetic toggles.
    pub open spec fn is_toggle(self) -> bool {
        self is ToggleLeftEye || self is ToggleRightEye || self is ToggleLightIndicator
    }
}

} // verus!
