use backend::auth::RoleLv;
use backend::endpoint::{auth_from_token, TokenCheck};
use backend::error::{Error, StatusCode};

#[test]
fn permission_errors_are_denied() {
    let s = Error::PremissionDeny("nope").into_status();
    assert_eq!(s.code, StatusCode::PermissionDenied);
    assert_eq!(s.message, "nope");
    let s = Error::RequirePermission(RoleLv::Admin).into_status();
    assert_eq!(s.code, StatusCode::PermissionDenied);
}

#[test]
fn missing_payload_names_the_field() {
    let s = Error::NotInPayload("request").into_status();
    assert_eq!(s.code, StatusCode::InvalidArgument);
    assert_eq!(s.message, "payload.request is not found");
}

#[test]
fn buffer_too_large_names_the_buffer() {
    let s = Error::BufferTooLarge("code").into_status();
    assert_eq!(s.code, StatusCode::InvalidArgument);
    assert_eq!(s.message, "buffer code too large");
}

#[test]
fn each_error_has_its_code() {
    assert_eq!(Error::DBErr("boom".to_string()).into_status().code, StatusCode::Internal);
    assert_eq!(Error::DBErr("boom".to_string()).into_status().message, "boom");
    assert_eq!(Error::BadArgument("size").into_status().code, StatusCode::InvalidArgument);
    assert_eq!(Error::Unauthenticated.into_status().code, StatusCode::Unauthenticated);
    assert_eq!(Error::Unauthenticated.into_status().message, "");
    assert_eq!(Error::NotInDB("user").into_status().code, StatusCode::NotFound);
    assert_eq!(Error::PaginationError("x").into_status().code, StatusCode::FailedPrecondition);
    assert_eq!(
        Error::InvaildUUID.into_status().message,
        "Invaild request_id(should be a client generated UUIDv4)"
    );
    assert_eq!(Error::Unreachable("u").into_status().code, StatusCode::Internal);
    assert_eq!(Error::NumberTooLarge.into_status().message, "number too large");
    assert_eq!(Error::AlreadyExist("a").into_status().code, StatusCode::AlreadyExists);
    assert_eq!(Error::NotInDBList.into_status().code, StatusCode::NotFound);
}

#[test]
fn refused_tokens_say_why() {
    let cases = [
        (TokenCheck::Unknown, "Token does not exist"),
        (TokenCheck::Failed, "Token verification failed"),
    ];
    for (check, message) in cases {
        let s = auth_from_token(check).unwrap_err().into_status();
        assert_eq!(s.code, StatusCode::Unauthenticated);
        assert_eq!(s.message, message);
    }
}
