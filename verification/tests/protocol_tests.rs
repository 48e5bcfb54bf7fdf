use entry_transactions::protocol::{classify_response_status, invited_service_path, CommandError};

#[test]
fn status_two_hundred_is_success() {
    assert_eq!(classify_response_status(200), None);
}

#[test]
fn known_failure_statuses_map_to_their_kinds() {
    assert_eq!(classify_response_status(404), Some(CommandError::InvitationNotFound));
    assert_eq!(classify_response_status(410), Some(CommandError::InvitationAlreadyDeleted));
    assert_eq!(classify_response_status(415), Some(CommandError::BadContent));
    assert_eq!(classify_response_status(422), Some(CommandError::UnsupportedApiVersion));
    assert_eq!(classify_response_status(460), Some(CommandError::ExpiredOrganization));
    assert_eq!(classify_response_status(461), Some(CommandError::RevokedUser));
}

#[test]
fn unknown_statuses_keep_their_code() {
    assert_eq!(
        classify_response_status(500),
        Some(CommandError::InvalidResponseStatus { status: 500 })
    );
    assert_eq!(
        classify_response_status(201),
        Some(CommandError::InvalidResponseStatus { status: 201 })
    );
}

#[test]
fn invited_path_joins_organization_and_token() {
    let path = invited_service_path(b"CoolOrg", b"123abc");
    assert_eq!(path, b"/invited/CoolOrg/123abc".to_vec());
}
