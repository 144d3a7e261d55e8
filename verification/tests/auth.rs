use backend::auth::{Auth, RoleLv, UserInfo};
use backend::error::Error;

#[test]
fn guest_has_no_identity() {
    let auth = Auth::Guest;
    assert!(auth.is_guest());
    assert_eq!(auth.user_id(), None);
    assert_eq!(auth.user_perm(), None);
    assert_eq!(auth.perm(), RoleLv::Guest);
    assert!(!auth.is_root());
}

#[test]
fn user_identity_is_read_back() {
    let auth = Auth::User((7, RoleLv::Super));
    assert!(!auth.is_guest());
    assert_eq!(auth.user_id(), Some(7));
    assert_eq!(auth.user_perm(), Some(RoleLv::Super));
    assert_eq!(auth.perm(), RoleLv::Super);
    assert!(!auth.is_root());
    assert!(Auth::User((1, RoleLv::Root)).is_root());
}

#[test]
fn ok_or_default_refuses_guests() {
    assert_eq!(
        Auth::Guest.ok_or_default(),
        Err(Error::PremissionDeny("Guest is not allow in this endpoint"))
    );
    assert_eq!(Auth::User((3, RoleLv::User)).ok_or_default(), Ok((3, RoleLv::User)));
    assert_eq!(Auth::Guest.ok_or(Error::NumberTooLarge), Err(Error::NumberTooLarge));
    assert_eq!(Auth::Guest.assume_login(), Err(Error::Unauthenticated));
}

#[test]
fn role_levels_are_ordered() {
    assert_eq!(RoleLv::Guest.level(), 0);
    assert_eq!(RoleLv::Root.level(), 4);
    assert!(RoleLv::Admin.at_least(RoleLv::Super));
    assert!(!RoleLv::User.at_least(RoleLv::Super));
    assert_eq!(RoleLv::from_level(3), Some(RoleLv::Admin));
    assert_eq!(RoleLv::from_level(5), None);
    assert_eq!(RoleLv::from_level(-1), None);
}

#[test]
fn permission_gates() {
    assert_eq!(RoleLv::Super.super_user(), Ok(()));
    assert_eq!(RoleLv::User.super_user(), Err(Error::RequirePermission(RoleLv::Super)));
    assert_eq!(RoleLv::Super.admin(), Err(Error::RequirePermission(RoleLv::Admin)));
    assert_eq!(RoleLv::Root.admin(), Ok(()));
}

#[test]
fn user_row_of_caller() {
    assert_eq!(Auth::Guest.new_with_auth(), None);
    assert_eq!(Auth::User((9, RoleLv::Admin)).new_with_auth(), Some((9, 3)));
    let info = UserInfo { perm: RoleLv::User, user_id: 2 };
    assert_eq!(info.user_id, 2);
}
