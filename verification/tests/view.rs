use counter_client::{App, MainView, Msg, Screen};

fn page_with(value: i32) -> App {
    let mut app = App::new();
    app.init();
    app.update(Msg::ReceivedCount(value));
    app
}

#[test]
fn scenario_negative_twenty_five_cries_with_tongue() {
    let view = page_with(-25).main_view();
    assert!(!view.positive_count);
    assert!(view.show_tongue);
    assert_eq!(view.text, "-25");
}

#[test]
fn scenario_zero_smiles_without_tongue() {
    let view = page_with(0).main_view();
    assert!(view.positive_count);
    assert!(!view.show_tongue);
    assert_eq!(view.text, "0");
}

#[test]
fn unknown_counter_shows_the_placeholder() {
    let mut app = App::new();
    app.init();
    let view = app.main_view();
    assert_eq!(
        view,
        MainView {
            light_on: false,
            left_eye_open: true,
            right_eye_open: false,
            positive_count: false,
            show_tongue: false,
            loading: true,
            controls_disabled: true,
            text: "calculating...".to_string(),
        }
    );
}

#[test]
fn tongue_shows_beyond_twenty_either_way() {
    let cases = [
        (-22, true),
        (-21, true),
        (-20, false),
        (-19, false),
        (-1, false),
        (0, false),
        (19, false),
        (20, false),
        (21, true),
        (22, true),
        (i32::MAX, true),
        (i32::MIN, true),
    ];
    for (value, expected) in cases {
        assert_eq!(page_with(value).main_view().show_tongue, expected, "value {}", value);
    }
}

#[test]
fn smile_for_zero_and_above() {
    let cases = [(i32::MIN, false), (-1, false), (0, true), (1, true), (i32::MAX, true)];
    for (value, expected) in cases {
        assert_eq!(page_with(value).main_view().positive_count, expected, "value {}", value);
    }
}

#[test]
fn controls_are_disabled_exactly_while_loading() {
    let mut app = App::new();
    assert!(!app.main_view().controls_disabled);
    assert!(!app.main_view().loading);
    app.init();
    assert!(app.main_view().controls_disabled);
    assert!(app.main_view().loading);
    app.update(Msg::ReceivedCount(3));
    assert!(!app.main_view().controls_disabled);
    for click in [Msg::IncrementClicked, Msg::DecrementClicked, Msg::ResetClicked] {
        app.update(click);
        assert!(app.main_view().controls_disabled);
        assert!(app.main_view().loading);
        app.update(Msg::ReceivedCount(3));
        assert!(!app.main_view().controls_disabled);
        assert!(!app.main_view().loading);
    }
}

#[test]
fn view_keeps_showing_the_old_number_while_loading() {
    let mut app = page_with(5);
    app.update(Msg::IncrementClicked);
    let view = app.main_view();
    assert_eq!(view.text, "5");
    assert!(view.loading);
}

#[test]
fn toggles_show_in_the_view() {
    let mut app = page_with(1);
    let view = app.main_view();
    assert!(view.left_eye_open);
    assert!(!view.right_eye_open);
    assert!(!view.light_on);
    app.update(Msg::ToggleLeftEye);
    app.update(Msg::ToggleRightEye);
    app.update(Msg::ToggleLightIndicator);
    let view = app.main_view();
    assert!(!view.left_eye_open);
    assert!(view.right_eye_open);
    assert!(view.light_on);
}

#[test]
fn empty_account_gets_the_sign_in_screen() {
    assert_eq!(App::new().view(""), Screen::SignIn);
    assert_eq!(page_with(7).view(""), Screen::SignIn);
}

#[test]
fn signed_in_account_gets_the_main_view() {
    let app = page_with(7);
    assert_eq!(app.view("alice.testnet"), Screen::Main(app.main_view()));
    assert_eq!(app.view(" "), Screen::Main(app.main_view()));
    match app.view("a") {
        Screen::Main(view) => assert_eq!(view.text, "7"),
        Screen::SignIn => panic!("signed in, yet asked to sign in"),
    }
}

#[test]
fn view_does_not_change_the_state() {
    let app = page_with(-3);
    let before = app.state();
    let _ = app.main_view();
    let _ = app.view("bob");
    let _ = app.view("");
    assert_eq!(app.state(), before);
}
