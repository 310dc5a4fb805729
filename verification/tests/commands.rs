use counter_client::{App, GatewayError, Msg};

fn failure(text: &str) -> GatewayError {
    GatewayError { diagnostic: text.to_string() }
}

#[test]
fn fetched_count_becomes_received_count() {
    assert_eq!(App::update_ui(Ok(5)), Msg::ReceivedCount(5));
    assert_eq!(App::update_ui(Ok(0)), Msg::ReceivedCount(0));
    assert_eq!(App::update_ui(Ok(i32::MIN)), Msg::ReceivedCount(i32::MIN));
    assert_eq!(App::update_ui(Ok(i32::MAX)), Msg::ReceivedCount(i32::MAX));
}

#[test]
fn failed_fetch_becomes_contract_error() {
    assert_eq!(
        App::update_ui(Err(failure("not signed in"))),
        Msg::ContractError(failure("not signed in"))
    );
}

#[test]
fn successful_mutations_become_their_acknowledgement() {
    assert_eq!(App::increment(Ok(())), Msg::ContractIncremented);
    assert_eq!(App::decrement(Ok(())), Msg::ContractDecremented);
    assert_eq!(App::reset(Ok(())), Msg::ContractReset);
}

#[test]
fn failed_mutations_become_contract_error() {
    assert_eq!(App::increment(Err(failure("a"))), Msg::ContractError(failure("a")));
    assert_eq!(App::decrement(Err(failure("b"))), Msg::ContractError(failure("b")));
    assert_eq!(App::reset(Err(failure(""))), Msg::ContractError(failure("")));
}

#[test]
fn error_keeps_its_diagnostic() {
    let msg = App::increment(Err(failure("rejected: out of gas")));
    match msg {
        Msg::ContractError(error) => assert_eq!(error.diagnostic, "rejected: out of gas"),
        other => panic!("unexpected message {:?}", other),
    }
}
