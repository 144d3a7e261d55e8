use backend::auth::{Auth, RoleLv};
use backend::endpoint::{
    auth_from_token, capability_gate, chat_create_check, contest_end_after,
    contest_password_after, create_user_check, creator_id, join_contest_check,
    link_problem_check, parse_request_id, password_check, rejudge_check, removal_result,
    require_super, submit_needs_contest, token_lifetime, token_text, update_user_check,
    ContestPassword, EndUpdate, PasswordUpdate, TokenCheck,
};
use backend::error::Error;
use backend::hash::hash;
use backend::time::{DateTime, Timestamp};

#[test]
fn creating_users() {
    assert_eq!(
        create_user_check(RoleLv::User, RoleLv::User, None),
        Err(Error::RequirePermission(RoleLv::Super))
    );
    assert_eq!(
        create_user_check(RoleLv::Super, RoleLv::User, None),
        Err(Error::RequirePermission(RoleLv::Admin))
    );
    assert_eq!(create_user_check(RoleLv::Super, RoleLv::Root, Some(RoleLv::Super)), Ok(()));
    assert_eq!(
        create_user_check(RoleLv::Admin, RoleLv::Root, None),
        Err(Error::RequirePermission(RoleLv::Root))
    );
    assert_eq!(create_user_check(RoleLv::Admin, RoleLv::Admin, None), Ok(()));
}

#[test]
fn updating_users() {
    assert_eq!(
        update_user_check(RoleLv::Super, None),
        Err(Error::RequirePermission(RoleLv::Admin))
    );
    assert_eq!(update_user_check(RoleLv::Admin, None), Ok(None));
    assert_eq!(update_user_check(RoleLv::Admin, Some(RoleLv::Super)), Ok(Some(2)));
    assert_eq!(
        update_user_check(RoleLv::Admin, Some(RoleLv::Root)),
        Err(Error::RequirePermission(RoleLv::Root))
    );
}

#[test]
fn joining_contests() {
    let now = DateTime { secs: 100, nanos: 0 };
    let stored = Some(hash("open sesame", "salt"));
    assert_eq!(join_contest_check(&stored, Some("open sesame"), "salt", None, now), Ok(()));
    assert_eq!(
        join_contest_check(&stored, Some("guess"), "salt", None, now),
        Err(Error::PremissionDeny("mismatched password"))
    );
    assert_eq!(
        join_contest_check(&stored, None, "salt", None, now),
        Err(Error::NotInPayload("password"))
    );
    let later = Some(DateTime { secs: 200, nanos: 0 });
    assert_eq!(
        join_contest_check(&None, None, "salt", later, now),
        Err(Error::PremissionDeny("contest not begin"))
    );
    assert_eq!(join_contest_check(&None, None, "salt", Some(now), now), Ok(()));
}

#[test]
fn small_decisions() {
    assert_eq!(link_problem_check(None), Ok(()));
    assert_eq!(link_problem_check(Some(1)), Err(Error::AlreadyExist("problem already linked")));
    assert!(submit_needs_contest(1, false, 2));
    assert!(!submit_needs_contest(2, false, 2));
    assert!(!submit_needs_contest(1, true, 2));
    assert_eq!(removal_result(0, "user"), Err(Error::NotInDB("user")));
    assert_eq!(removal_result(1, "user"), Ok(()));
}

#[test]
fn token_lifetimes() {
    assert_eq!(token_lifetime(None), Ok(43200));
    assert_eq!(token_lifetime(Some(60)), Ok(60));
    assert_eq!(token_lifetime(Some(9_223_372_036_854_775)), Ok(9_223_372_036_854_775));
    assert_eq!(token_lifetime(Some(9_223_372_036_854_776)), Err(Error::BadArgument("expiry")));
}

#[test]
fn gates_and_creators() {
    assert_eq!(
        capability_gate(&Auth::Guest, true, "no"),
        Err(Error::PremissionDeny("Guest is not allow in this endpoint"))
    );
    assert_eq!(
        capability_gate(&Auth::User((1, RoleLv::Admin)), false, "no"),
        Err(Error::PremissionDeny("no"))
    );
    assert_eq!(capability_gate(&Auth::User((1, RoleLv::Root)), false, "no"), Ok((1, RoleLv::Root)));
    assert_eq!(capability_gate(&Auth::User((1, RoleLv::User)), true, "no"), Ok((1, RoleLv::User)));
    assert_eq!(creator_id(&Auth::User((4, RoleLv::Root)), Err(Error::NumberTooLarge)), Ok(4));
    assert_eq!(creator_id(&Auth::User((4, RoleLv::Admin)), Ok(9)), Ok(9));
}

#[test]
fn request_authentication() {
    assert_eq!(auth_from_token(TokenCheck::Missing), Ok(Auth::Guest));
    assert_eq!(
        auth_from_token(TokenCheck::Valid((3, RoleLv::User))),
        Ok(Auth::User((3, RoleLv::User)))
    );
    assert_eq!(auth_from_token(TokenCheck::Unknown), Err(Error::TokenNotExist));
    assert_eq!(auth_from_token(TokenCheck::Failed), Err(Error::TokenVerificationFailed));
}

#[test]
fn request_ids_and_tokens() {
    assert_eq!(
        parse_request_id("67e55044-10b1-426f-9247-bb680e5fe0c8"),
        Ok(138101147531900207301164854559698313416)
    );
    assert_eq!(parse_request_id("not-a-uuid"), Err(Error::InvaildUUID));
    assert_eq!(token_text(&vec![1, 2, 3, 250]), "AQID+g");
}

#[test]
fn super_user_gate() {
    assert_eq!(require_super(&Auth::Guest), Err(Error::Unauthenticated));
    assert_eq!(
        require_super(&Auth::User((4, RoleLv::User))),
        Err(Error::RequirePermission(RoleLv::Super))
    );
    assert_eq!(require_super(&Auth::User((4, RoleLv::Admin))), Ok((4, RoleLv::Admin)));
}

#[test]
fn login_passwords() {
    let stored = hash("hunter2", "pepper");
    assert_eq!(password_check(&stored, "hunter2", "pepper", "wrong password"), Ok(()));
    assert_eq!(
        password_check(&stored, "hunter3", "pepper", "wrong password"),
        Err(Error::PremissionDeny("wrong password"))
    );
}

#[test]
fn contest_updates() {
    let old = Some(vec![1u8, 2, 3]);
    let kept = contest_password_after(old.clone(), PasswordUpdate::Keep, "pepper");
    assert_eq!(kept, ContestPassword { record: old.clone(), stored: old.clone() });
    let unset = contest_password_after(old.clone(), PasswordUpdate::Unset, "pepper");
    assert_eq!(unset, ContestPassword { record: None, stored: old.clone() });
    let replaced =
        contest_password_after(old.clone(), PasswordUpdate::Replace("hunter2".to_string()), "pepper");
    assert_eq!(
        replaced,
        ContestPassword { record: Some(hash("hunter2", "pepper")), stored: old }
    );
    let none = contest_password_after(None, PasswordUpdate::Replace("x".to_string()), "pepper");
    assert_eq!(none.stored, None);
    assert_eq!(
        contest_end_after(EndUpdate::Replace(Timestamp { seconds: 60, nanos: 5 })),
        Some(DateTime { secs: 60, nanos: 5 })
    );
    assert_eq!(contest_end_after(EndUpdate::Unset), None);
    assert_eq!(contest_end_after(EndUpdate::Keep), None);
}

#[test]
fn rejudge_and_chat_requests() {
    let id = "67e55044-10b1-426f-9247-bb680e5fe0c8";
    let value: u128 = 138101147531900207301164854559698313416;
    assert_eq!(rejudge_check(&Auth::Guest, id), Err(Error::Unauthenticated));
    assert_eq!(
        rejudge_check(&Auth::User((2, RoleLv::User)), id),
        Err(Error::RequirePermission(RoleLv::Super))
    );
    assert_eq!(rejudge_check(&Auth::User((2, RoleLv::Root)), id), Ok((2, value)));
    assert_eq!(
        rejudge_check(&Auth::User((2, RoleLv::Root)), "nope"),
        Err(Error::InvaildUUID)
    );
    assert_eq!(chat_create_check(&Auth::Guest, id), Err(Error::Unauthenticated));
    assert_eq!(chat_create_check(&Auth::User((9, RoleLv::User)), id), Ok((9, value)));
    assert_eq!(
        chat_create_check(&Auth::User((9, RoleLv::User)), "x"),
        Err(Error::InvaildUUID)
    );
}

#[test]
fn refresh_needs_a_token() {
    assert_eq!(
        backend::endpoint::require_token(Some("abc".to_string())),
        Ok("abc".to_string())
    );
    assert_eq!(backend::endpoint::require_token(None), Err(Error::Unauthenticated));
}

#[test]
fn update_fills_given_fields() {
    assert_eq!(backend::endpoint::fill_exist("old".to_string(), None), "old");
    assert_eq!(
        backend::endpoint::fill_exist("old".to_string(), Some("new".to_string())),
        "new"
    );
}

#[test]
fn judge_requests_take_the_problem_limits() {
    let id = "67e55044-10b1-426f-9247-bb680e5fe0c8";
    let r = backend::endpoint::judge_request(3, 8, 1000, 65536, vec![1, 2], id).unwrap();
    assert_eq!(
        r,
        backend::endpoint::JudgeRequest {
            user: 3,
            problem: 8,
            time_limit: 1000,
            memory_limit: 65536,
            code: vec![1, 2],
            lang: 138101147531900207301164854559698313416,
        }
    );
    assert_eq!(
        backend::endpoint::judge_request(3, 8, 1, 1, vec![], "rust").err(),
        Some(Error::InvaildUUID)
    );
}
