use backend::auth::{Auth, RoleLv};
use backend::error::Error;
use backend::filter::{read_filter, writable, write_filter, EntityKind, Row, RowFilter};

fn row(owner: i32, public: bool) -> Row {
    Row { id: 1, owner, public, permission: 1 }
}

#[test]
fn announcement_reads_by_role() {
    let k = EntityKind::Announcement;
    assert_eq!(read_filter(k, &Auth::Guest), Ok(RowFilter::Public));
    assert_eq!(read_filter(k, &Auth::User((4, RoleLv::User))), Ok(RowFilter::PublicOrOwner(4)));
    assert_eq!(read_filter(k, &Auth::User((4, RoleLv::Admin))), Ok(RowFilter::All));
}

#[test]
fn announcement_writes_by_role() {
    let k = EntityKind::Announcement;
    assert_eq!(write_filter(k, &Auth::Guest), Err(Error::Unauthenticated));
    assert_eq!(
        write_filter(k, &Auth::User((4, RoleLv::User))),
        Err(Error::RequirePermission(RoleLv::Super))
    );
    assert_eq!(write_filter(k, &Auth::User((4, RoleLv::Super))), Ok(RowFilter::Owner(4)));
    assert_eq!(write_filter(k, &Auth::User((4, RoleLv::Root))), Ok(RowFilter::All));
}

#[test]
fn contest_write_lets_owners_through() {
    let k = EntityKind::Contest;
    assert_eq!(write_filter(k, &Auth::User((5, RoleLv::User))), Ok(RowFilter::Owner(5)));
    assert!(!writable(k, &row(5, false), &Auth::User((5, RoleLv::User))));
    assert!(writable(k, &row(5, false), &Auth::User((5, RoleLv::Super))));
}

#[test]
fn other_tables() {
    let admin = Auth::User((1, RoleLv::Admin));
    let user = Auth::User((2, RoleLv::User));
    assert_eq!(read_filter(EntityKind::Chat, &Auth::Guest), Ok(RowFilter::All));
    assert_eq!(write_filter(EntityKind::Chat, &user), Err(Error::RequirePermission(RoleLv::Admin)));
    assert_eq!(read_filter(EntityKind::Education, &user), Ok(RowFilter::Owner(2)));
    assert_eq!(read_filter(EntityKind::Token, &admin), Ok(RowFilter::Owner(1)));
    assert_eq!(read_filter(EntityKind::Token, &Auth::User((1, RoleLv::Root))), Ok(RowFilter::All));
    assert_eq!(read_filter(EntityKind::Problem, &Auth::Guest), Ok(RowFilter::Public));
    assert_eq!(read_filter(EntityKind::Test, &Auth::Guest), Err(Error::NotInDB("testcase")));
    assert_eq!(write_filter(EntityKind::Problem, &user), Err(Error::NotInDB("problem")));
    assert_eq!(write_filter(EntityKind::Submit, &user), Err(Error::Unauthenticated));
    assert_eq!(
        write_filter(EntityKind::User, &admin),
        Ok(RowFilter::PermissionBelowOrSelf(3, 1))
    );
    assert_eq!(write_filter(EntityKind::User, &user), Ok(RowFilter::Owner(2)));
}

#[test]
fn filters_admit_rows() {
    assert!(RowFilter::Public.admits(&row(3, true)));
    assert!(!RowFilter::Public.admits(&row(3, false)));
    assert!(RowFilter::PublicOrOwner(3).admits(&row(3, false)));
    assert!(!RowFilter::Owner(4).admits(&row(3, true)));
    let u = Row { id: 8, owner: 8, public: false, permission: 2 };
    assert!(RowFilter::PermissionBelowOrSelf(3, 1).admits(&u));
    assert!(!RowFilter::PermissionBelowOrSelf(2, 1).admits(&u));
}

#[test]
fn writable_rows_are_writable_through_the_filter() {
    // What the editable flag claims, the write filter lets through.
    let auth = Auth::User((6, RoleLv::Super));
    let r = row(6, false);
    assert!(writable(EntityKind::Testcase, &r, &auth));
    let f = write_filter(EntityKind::Testcase, &auth).unwrap();
    assert!(f.admits(&r));
    // and what one may write, one may read
    let rf = read_filter(EntityKind::Testcase, &auth).unwrap();
    assert!(rf.admits(&r));
}

#[test]
fn token_writable_only_for_root() {
    assert!(writable(EntityKind::Token, &row(1, false), &Auth::User((1, RoleLv::Root))));
    assert!(!writable(EntityKind::Token, &row(1, false), &Auth::User((1, RoleLv::Admin))));
    assert!(!writable(EntityKind::User, &row(1, false), &Auth::User((1, RoleLv::Root))));
}
