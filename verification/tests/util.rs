use vessels_chat_demo::util::TransportError;
use vessels_chat_demo::Error;

#[test]
fn transport_error_keeps_the_display_text() {
    let error = TransportError::new("connection reset");
    assert_eq!(error.to_string(), "connection reset");
}

#[test]
fn transport_error_keeps_the_debug_text() {
    let error = TransportError::new("connection reset");
    assert_eq!(error.to_debug_string(), "\"connection reset\"");
}

#[test]
fn transport_error_of_a_number() {
    let error = TransportError::new(404);
    assert_eq!(error.to_string(), "404");
    assert_eq!(error.to_debug_string(), "404");
}

#[test]
fn transport_error_clone_keeps_both_texts() {
    let error = TransportError::new('x');
    let copy = error.clone();
    assert_eq!(copy.to_string(), "x");
    assert_eq!(copy.to_debug_string(), "'x'");
}

#[test]
fn chat_error_is_one_value() {
    assert_eq!(Error, Error.clone());
    assert_eq!(format!("{:?}", Error), "Error");
}
