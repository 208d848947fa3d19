use oapps::errors::OAppError;
use oapps::oapp::{allow_initialize_path, check_peer, default_next_nonce, transfers_value, Origin};

const REMOTE_EID: u32 = 100;
const UNSET_EID: u32 = 999;

#[test]
fn test_allow_initialize_path_cases() {
    // no peer set -> false
    let origin_no_peer = Origin { src_eid: UNSET_EID, sender: [5; 32], nonce: 1 };
    assert_eq!(allow_initialize_path(&None, &origin_no_peer), false);

    // peer for REMOTE_EID
    let peer_bytes = [5u8; 32];
    let peer = Some(peer_bytes);

    // matching -> true
    let origin_match = Origin { src_eid: REMOTE_EID, sender: peer_bytes, nonce: 1 };
    assert_eq!(allow_initialize_path(&peer, &origin_match), true);

    // non-matching -> false
    let origin_non_match = Origin { src_eid: REMOTE_EID, sender: [6; 32], nonce: 1 };
    assert_eq!(allow_initialize_path(&peer, &origin_non_match), false);
}

#[test]
fn test_next_nonce_defaults_to_zero() {
    assert_eq!(default_next_nonce(), 0);
}

#[test]
fn test_lz_receive_wrong_peer_returns_only_peer_error() {
    let configured_peer = Some([7u8; 32]);
    let origin = Origin { src_eid: REMOTE_EID, sender: [8; 32], nonce: 1 };
    let result = check_peer(&configured_peer, &origin);
    assert_eq!(result.err().unwrap(), OAppError::OnlyPeer);
}

#[test]
fn test_lz_receive_no_peer_returns_no_peer_error() {
    let origin = Origin { src_eid: REMOTE_EID, sender: [1; 32], nonce: 1 };
    let result = check_peer(&None, &origin);
    assert_eq!(result.err().unwrap(), OAppError::NoPeer);
}

#[test]
fn peer_check_and_value_transfer() {
    let origin = Origin { src_eid: REMOTE_EID, sender: [7; 32], nonce: 1 };
    assert_eq!(check_peer(&Some([7u8; 32]), &origin), Ok(()));
    assert!(!transfers_value(0));
    assert!(transfers_value(123));
    // a negative value still reaches the token transfer, which refuses it
    assert!(transfers_value(-123));
}
