use neoengramd::control_plane::message::{
    bounded_control_error_message, CONTROL_ERROR_MESSAGE_LIMIT,
};

#[test]
fn control_error_messages_are_bounded_on_utf8_boundaries() {
    let original = "界".repeat(CONTROL_ERROR_MESSAGE_LIMIT);
    let bounded = bounded_control_error_message(original);

    assert!(bounded.len() <= CONTROL_ERROR_MESSAGE_LIMIT);
    assert!(bounded.ends_with("..."));
    assert!(std::str::from_utf8(bounded.as_bytes()).is_ok());
    assert!(!bounded_control_error_message("   ".to_owned())
        .trim()
        .is_empty());
}
