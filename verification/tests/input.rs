use tile_runner::input::{Controls, InputState};

#[test]
fn starts_with_no_key_held() {
    let input = InputState::new();
    assert!(!input.is_held("ArrowLeft"));
    assert!(!input.is_held(" "));
    assert_eq!(
        input.controls(),
        Controls { left: false, right: false, forward: false, backward: false, jump: false }
    );
}

#[test]
fn key_down_holds_and_key_up_releases() {
    let mut input = InputState::new();
    assert!(input.key_down("ArrowLeft"));
    assert!(input.is_held("ArrowLeft"));
    assert!(!input.key_down("ArrowLeft"));
    assert!(input.is_held("ArrowLeft"));
    assert!(input.key_up("ArrowLeft"));
    assert!(!input.is_held("ArrowLeft"));
    assert!(!input.key_up("ArrowLeft"));
}

#[test]
fn each_control_has_its_key() {
    let mut input = InputState::new();
    input.key_down("ArrowLeft");
    assert_eq!(
        input.controls(),
        Controls { left: true, right: false, forward: false, backward: false, jump: false }
    );
    input.key_down("ArrowRight");
    input.key_up("ArrowLeft");
    assert_eq!(
        input.controls(),
        Controls { left: false, right: true, forward: false, backward: false, jump: false }
    );
    input.key_down("ArrowUp");
    input.key_up("ArrowRight");
    assert_eq!(
        input.controls(),
        Controls { left: false, right: false, forward: true, backward: false, jump: false }
    );
    input.key_down("ArrowDown");
    input.key_up("ArrowUp");
    assert_eq!(
        input.controls(),
        Controls { left: false, right: false, forward: false, backward: true, jump: false }
    );
    input.key_down(" ");
    input.key_up("ArrowDown");
    assert_eq!(
        input.controls(),
        Controls { left: false, right: false, forward: false, backward: false, jump: true }
    );
}

#[test]
fn other_keys_are_held_but_steer_nothing() {
    let mut input = InputState::new();
    input.key_down("a");
    input.key_down("Enter");
    input.key_down("arrowleft");
    assert!(input.is_held("a"));
    assert!(input.is_held("Enter"));
    assert_eq!(
        input.controls(),
        Controls { left: false, right: false, forward: false, backward: false, jump: false }
    );
}

#[test]
fn order_of_events_leaves_no_trace() {
    let mut one = InputState::new();
    one.key_down("ArrowLeft");
    one.key_down(" ");
    one.key_down("ArrowUp");
    one.key_up(" ");
    let mut other = InputState::new();
    other.key_down("ArrowUp");
    other.key_down("ArrowLeft");
    assert_eq!(one.controls(), other.controls());
    assert_eq!(one.is_held(" "), other.is_held(" "));
}
