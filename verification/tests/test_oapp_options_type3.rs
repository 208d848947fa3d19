use oapps::errors::{DecodeError, Failure, OAppError};
use oapps::oapp::{assert_option_type3, combine_options, EnforcedOptionParam, EnforcedOptions};

const OPTION_TYPE_3: u32 = 3;
const REMOTE_EID_1: u32 = 100;
const REMOTE_EID_2: u32 = 200;
const MSG_TYPE_SEND: u32 = 1;
const MSG_TYPE_RECEIVE: u32 = 2;

fn create_valid_options(data: &[u8]) -> Vec<u8> {
    let mut buffer = (OPTION_TYPE_3 as u16).to_be_bytes().to_vec();
    buffer.extend_from_slice(data);
    buffer
}

#[test]
fn test_enforced_options_lifecycle() {
    let mut store = EnforcedOptions::new();

    // Unset returns None
    assert_eq!(store.enforced_options(999, 999), None);

    let enforced1 = create_valid_options(&[1, 2, 3, 4]);
    let enforced2 = create_valid_options(&[5, 6, 7, 8]);
    let enforced_params = vec![
        EnforcedOptionParam { eid: REMOTE_EID_1, msg_type: MSG_TYPE_SEND, options: Some(enforced1.clone()) },
        EnforcedOptionParam { eid: REMOTE_EID_2, msg_type: MSG_TYPE_RECEIVE, options: Some(enforced2.clone()) },
    ];
    store.set_enforced_options(&enforced_params).unwrap();

    assert_eq!(store.enforced_options(REMOTE_EID_1, MSG_TYPE_SEND), Some(enforced1.clone()));
    assert_eq!(store.enforced_options(REMOTE_EID_2, MSG_TYPE_RECEIVE), Some(enforced2.clone()));

    // Update enforced options for one combination
    let updated = create_valid_options(&[9, 8, 7, 6, 5]);
    let update_params =
        vec![EnforcedOptionParam { eid: REMOTE_EID_1, msg_type: MSG_TYPE_SEND, options: Some(updated.clone()) }];
    store.set_enforced_options(&update_params).unwrap();
    assert_eq!(store.enforced_options(REMOTE_EID_1, MSG_TYPE_SEND), Some(updated));
}

#[test]
fn test_combine_options() {
    let mut store = EnforcedOptions::new();

    // no enforced -> returns extra (including empty)
    let extra_only = create_valid_options(&[9, 10, 11]);
    assert_eq!(store.combine_options(REMOTE_EID_1, MSG_TYPE_SEND, &extra_only), Ok(extra_only.clone()));

    let empty_extra: Vec<u8> = Vec::new();
    assert_eq!(store.combine_options(REMOTE_EID_1, MSG_TYPE_SEND, &empty_extra), Ok(empty_extra.clone()));

    let enforced = create_valid_options(&[1, 2, 3, 4]);
    let enforced_params =
        vec![EnforcedOptionParam { eid: REMOTE_EID_1, msg_type: MSG_TYPE_SEND, options: Some(enforced.clone()) }];
    store.set_enforced_options(&enforced_params).unwrap();

    // enforced present -> empty extra returns enforced
    assert_eq!(store.combine_options(REMOTE_EID_1, MSG_TYPE_SEND, &Vec::new()), Ok(enforced.clone()));

    // both present -> enforced + extra(without its 2-byte header)
    let extra = create_valid_options(&[4, 5, 6]);
    let combined = store.combine_options(REMOTE_EID_1, MSG_TYPE_SEND, &extra).unwrap();
    let expected_combined = create_valid_options(&[1, 2, 3, 4, 4, 5, 6]);
    assert_eq!(combined, expected_combined);
}

#[test]
fn test_set_enforced_options_invalid_options_returns_error() {
    let mut store = EnforcedOptions::new();

    // wrong option type (not 3)
    let mut invalid = 4u16.to_be_bytes().to_vec();
    invalid.extend_from_slice(&[1, 2, 3]);

    let enforced_params =
        vec![EnforcedOptionParam { eid: REMOTE_EID_1, msg_type: MSG_TYPE_SEND, options: Some(invalid) }];

    let result = store.set_enforced_options(&enforced_params);
    assert_eq!(result.err().unwrap(), Failure::OApp(OAppError::InvalidOptions));
}

#[test]
fn test_combine_options_extra_invalid_type_returns_error_when_enforced_present() {
    let mut store = EnforcedOptions::new();

    let enforced = create_valid_options(&[1, 2, 3]);
    let params = vec![EnforcedOptionParam { eid: REMOTE_EID_1, msg_type: MSG_TYPE_SEND, options: Some(enforced) }];
    store.set_enforced_options(&params).unwrap();

    // extra has wrong option type (not 3) but len >= 2 -> validated and refused
    let mut extra_invalid = 4u16.to_be_bytes().to_vec();
    extra_invalid.extend_from_slice(&[9, 9, 9]);
    let result = store.combine_options(REMOTE_EID_1, MSG_TYPE_SEND, &extra_invalid);
    assert_eq!(result.err().unwrap(), OAppError::InvalidOptions);
}

#[test]
fn test_combine_options_extra_too_short_returns_error_when_enforced_present() {
    let mut store = EnforcedOptions::new();

    let enforced = create_valid_options(&[1, 2, 3]);
    let params = vec![EnforcedOptionParam { eid: REMOTE_EID_1, msg_type: MSG_TYPE_SEND, options: Some(enforced) }];
    store.set_enforced_options(&params).unwrap();

    // extra is non-empty but len < 2 -> refused
    let extra_too_short = vec![1u8];
    let result = store.combine_options(REMOTE_EID_1, MSG_TYPE_SEND, &extra_too_short);
    assert_eq!(result.err().unwrap(), OAppError::InvalidOptions);
}

#[test]
fn set_enforced_options_is_all_or_nothing() {
    let mut store = EnforcedOptions::new();
    let good = create_valid_options(&[1]);
    let params = vec![
        EnforcedOptionParam { eid: 1, msg_type: 1, options: Some(good.clone()) },
        EnforcedOptionParam { eid: 2, msg_type: 1, options: Some(vec![0u8]) },
    ];
    // the second options cannot even hold a type
    assert_eq!(store.set_enforced_options(&params), Err(Failure::Decode(DecodeError::EndOfInput)));
    assert_eq!(store.enforced_options(1, 1), None);
    // later parameters win, and None removes
    let params = vec![
        EnforcedOptionParam { eid: 1, msg_type: 1, options: Some(good.clone()) },
        EnforcedOptionParam { eid: 1, msg_type: 1, options: None },
        EnforcedOptionParam { eid: 2, msg_type: 2, options: Some(good.clone()) },
    ];
    store.set_enforced_options(&params).unwrap();
    assert_eq!(store.enforced_options(1, 1), None);
    assert_eq!(store.enforced_options(2, 2), Some(good));
}

#[test]
fn option_type_checks() {
    assert_eq!(assert_option_type3(&[0, 3]), Ok(()));
    assert_eq!(assert_option_type3(&[0, 1, 5]), Err(Failure::OApp(OAppError::InvalidOptions)));
    assert_eq!(assert_option_type3(&[3]), Err(Failure::Decode(DecodeError::EndOfInput)));
    // legacy options pass untouched when nothing is enforced
    assert_eq!(combine_options(&None, &[0, 1, 9]), Ok(vec![0, 1, 9]));
    assert_eq!(combine_options(&Some(vec![0, 3, 1]), &[0, 3, 2, 2]), Ok(vec![0, 3, 1, 2, 2]));
}
