use secs_transport::runtime::ByteDataSourceError;
use secs_transport::web_source::WebDataSourceState;

#[test]
fn flags_follow_open_close_and_failure() {
    let mut state = WebDataSourceState::new();
    assert!(!state.is_open());
    assert!(!state.has_error());
    assert_eq!(state.link_state(), "closed");
    state.open();
    assert!(state.is_open());
    assert_eq!(state.link_state(), "open");
    state.fail();
    assert!(state.has_error());
    assert_eq!(state.link_state(), "error");
    state.open();
    assert!(!state.has_error());
    state.push_read_bytes(&[1, 2, 3]);
    state.close();
    assert!(!state.is_open());
    assert_eq!(state.pending_read_len(), 0);
}

#[test]
fn reads_take_the_oldest_bytes_that_fit() {
    let mut state = WebDataSourceState::new();
    state.push_read_bytes(&[1, 2, 3]);
    state.push_read_bytes(&[4, 5]);
    assert_eq!(state.pending_read_len(), 5);
    let mut buf = [0u8; 3];
    assert_eq!(state.read_incoming(&mut buf), Err(ByteDataSourceError::WouldBlock));
    state.open();
    assert_eq!(state.read_incoming(&mut buf), Ok(3));
    assert_eq!(buf, [1, 2, 3]);
    let mut big = [9u8; 4];
    assert_eq!(state.read_incoming(&mut big), Ok(2));
    assert_eq!(big, [4, 5, 9, 9]);
    assert_eq!(state.read_incoming(&mut big), Ok(0));
}

#[test]
fn only_would_block_is_temporary() {
    assert!(ByteDataSourceError::WouldBlock.is_temporary());
    assert!(!ByteDataSourceError::ReadFailed.is_temporary());
    assert!(!ByteDataSourceError::Disconnected.is_temporary());
}

#[test]
fn reads_fail_after_a_failure_until_reopened() {
    let mut state = WebDataSourceState::new();
    state.open();
    state.push_read_bytes(&[7, 8]);
    state.fail();
    let mut buf = [0u8; 2];
    assert_eq!(state.read_incoming(&mut buf), Err(ByteDataSourceError::ReadFailed));
    assert_eq!(state.pending_read_len(), 2);
    assert_eq!(buf, [0, 0]);
    state.open();
    assert_eq!(state.read_incoming(&mut buf), Ok(2));
    assert_eq!(buf, [7, 8]);
}
