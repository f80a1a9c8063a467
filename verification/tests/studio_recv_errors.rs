use can_flasher::studio::recv_errors::{is_benign_lowered, is_benign_recv_error, str_contains};

#[test]
fn contains_finds_substrings() {
    assert!(str_contains("abc", ""));
    assert!(str_contains("abc", "abc"));
    assert!(str_contains("xxabcxx", "bcx"));
    assert!(!str_contains("ab", "abc"));
    assert!(!str_contains("timeo ut", "timeout"));
}

#[test]
fn empty_poll_windows_are_benign() {
    assert!(is_benign_recv_error("timed out waiting for a frame after 50ms"));
    assert!(is_benign_recv_error("Recv TIMEOUT"));
    assert!(is_benign_recv_error("operation Would Block"));
    assert!(!is_benign_recv_error("bus off"));
    assert!(!is_benign_recv_error("adapter disconnected"));
    assert!(is_benign_lowered("timeout"));
    assert!(!is_benign_lowered("TIMEOUT"));
}

#[test]
fn ascii_messages_are_lowered_before_matching() {
    assert!(can_flasher::studio::recv_errors::is_benign_recv_error("Operation Would Block"));
    assert!(!can_flasher::studio::recv_errors::is_benign_recv_error("BUS-OFF"));
}
