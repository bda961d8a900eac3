use perseus::errors::ErrorKind;
use perseus::states::States;

#[test]
fn new_states_are_empty() {
    let s = States::new();
    assert!(s.build_state.is_none());
    assert!(s.request_state.is_none());
    assert!(!s.both_defined());
}

#[test]
fn get_defined_with_neither_is_none() {
    let s = States { build_state: None, request_state: None };
    assert_eq!(s.get_defined(), Ok(None));
}

#[test]
fn get_defined_with_build_state_only() {
    let s = States { build_state: Some("x".to_string()), request_state: None };
    assert_eq!(s.get_defined(), Ok(Some("x".to_string())));
}

#[test]
fn get_defined_with_request_state_only() {
    let s = States { build_state: None, request_state: Some("y".to_string()) };
    assert_eq!(s.get_defined(), Ok(Some("y".to_string())));
}

#[test]
fn get_defined_with_both_fails() {
    let s = States { build_state: Some("x".to_string()), request_state: Some("y".to_string()) };
    assert!(s.both_defined());
    assert_eq!(s.get_defined(), Err(ErrorKind::BothStatesDefined));
}
