//! Laws of the state machine that speak of more than one step.

use vstd::prelude::*;
use crate::command::{fetch_message, mutation_message, Command, Effect};
use crate::message::Msg;
use crate::state::{effect_of, State};

verus! {

/// Toggling the left eye twice brings the page back to the state it was in;
/// in particular the left eye is as open as before.
pub proof fn lemma_toggle_left_eye_twice(state: State)
    ensures
        state.after(Msg::ToggleLeftEye).after(Msg::ToggleLeftEye).left_eye_open
            == state.left_eye_open,
        state.after(Msg::ToggleLeftEye).after(Msg::ToggleLeftEye) == state,
{
}

/// Any toggle, sent twice, brings the page back to the state it was in.
pub proof fn lemma_toggle_twice(state: State, toggle: Msg)
    requires
        toggle.is_toggle(),
    ensures
        state.after(toggle).after(toggle) == state,
{
}

/// A page that is loading stays loading over any run of messages that holds
/// no count: neither a click, an acknowledgement, a toggle nor an error ends
/// it.
pub proof fn lemma_loading_kept_until_count(state: State, msgs: Seq<Msg>)
    requires
        state.loading,
        forall|i: int| 0 <= i < msgs.len() ==> !(#[trigger] msgs[i] is ReceivedCount),
    ensures
        state.after_all(msgs).loading,
    decreases msgs.len(),
{
    if msgs.len() > 0 {
        let rest = msgs.drop_first();
        assert(!(msgs[0] is ReceivedCount));
        assert forall|i: int| 0 <= i < rest.len() implies !(#[trigger] rest[i] is ReceivedCount) by {
            assert(rest[i] == msgs[i + 1]);
        }
        lemma_loading_kept_until_count(state.after(msgs.first()), rest);
    }
}

/// After a click on increment, decrement or reset the page is loading, and it
/// still is after any run of later messages that holds no count. An error in
/// that run does not end the loading.
pub proof fn lemma_click_loads_until_count(state: State, click: Msg, later: Seq<Msg>)
    requires
        click.is_mutation_click(),
        forall|i: int| 0 <= i < later.len() ==> !(#[trigger] later[i] is ReceivedCount),
    ensures
        state.after(click).loading,
        state.after(click).after_all(later).loading,
{
    lemma_loading_kept_until_count(state.after(click), later);
}

/// Over any run of messages that holds no count, the counter on display stays
/// what it was: no click and no acknowledgement sets it.
pub proof fn lemma_counter_kept_until_count(state: State, msgs: Seq<Msg>)
    requires
        forall|i: int| 0 <= i < msgs.len() ==> !(#[trigger] msgs[i] is ReceivedCount),
    ensures
        state.after_all(msgs).counter_value == state.counter_value,
    decreases msgs.len(),
{
    if msgs.len() > 0 {
        let rest = msgs.drop_first();
        assert(!(msgs[0] is ReceivedCount));
        assert forall|i: int| 0 <= i < rest.len() implies !(#[trigger] rest[i] is ReceivedCount) by {
            assert(rest[i] == msgs[i + 1]);
        }
        lemma_counter_kept_until_count(state.after(msgs.first()), rest);
    }
}

/// Over any run of messages that holds no toggle, eyes and light stay as they
/// were, whatever happens to the counter.
pub proof fn lemma_toggles_kept_without_toggle(state: State, msgs: Seq<Msg>)
    requires
        forall|i: int| 0 <= i < msgs.len() ==> !(#[trigger] msgs[i]).is_toggle(),
    ensures
        state.after_all(msgs).left_eye_open == state.left_eye_open,
        state.after_all(msgs).right_eye_open == state.right_eye_open,
        state.after_all(msgs).light_indicator_on == state.light_indicator_on,
    decreases msgs.len(),
{
    if msgs.len() > 0 {
        let rest = msgs.drop_first();
        assert(!msgs[0].is_toggle());
        assert forall|i: int| 0 <= i < rest.len() implies !(#[trigger] rest[i]).is_toggle() by {
            assert(rest[i] == msgs[i + 1]);
        }
        lemma_toggles_kept_without_toggle(state.after(msgs.first()), rest);
    }
}

/// A change of the counter that succeeds ends with the value read back from
/// the gateway: the click starts `command`, its acknowledgement starts a
/// fetch, and the count that the fetch reads is what the page then shows, no
/// longer loading. Nothing else of the state has changed.
pub proof fn lemma_mutation_round_trip(state: State, click: Msg, command: Command, value: i32)
    requires
        click.is_mutation_click(),
        effect_of(click) == Effect::Run(command),
    ensures
        command.acknowledgement() matches Some(acknowledgement) && {
            &&& mutation_message(acknowledgement, Ok(())) == acknowledgement
            &&& command.resolves_into(acknowledgement)
            &&& effect_of(acknowledgement) == Effect::Run(Command::FetchCount)
            &&& state.after(click).after(acknowledgement).after(fetch_message(Ok(value)))
                == (State { counter_value: Some(value), loading: false, ..state })
        },
{
}

} // verus!
