use backend::auth::{Auth, RoleLv};
use backend::error::Error;
use backend::filter::{EntityKind, Row, RowFilter};
use backend::sort::{sort_col, SortColumn, SortKey};
use backend::source::{
    ChildOrder, IdModel, ParentPagerTrait, TextColumn, TextMatch, TextPagerTrait, WithAuthTrait,
};
use backend::time::DateTime;

fn contest(owner: i32, public: bool, begin: Option<i64>) -> IdModel {
    IdModel {
        id: 3,
        owner,
        public,
        contest_id: None,
        begin: begin.map(|s| DateTime { secs: s, nanos: 0 }),
    }
}

#[test]
fn text_search_uses_read_filter() {
    let t = TextPagerTrait::new(EntityKind::Problem).unwrap();
    let q = t.filter(&Auth::Guest, "dp".to_string()).unwrap();
    assert_eq!(q.rows, RowFilter::Public);
    assert_eq!(q.column, TextColumn::TitleOrTags);
    assert_eq!(q.how, TextMatch::Contains);
    let e = TextPagerTrait::new(EntityKind::Education).unwrap();
    assert_eq!(e.filter(&Auth::Guest, "x".to_string()), Err(Error::Unauthenticated));
    let q = e.filter(&Auth::User((2, RoleLv::User)), "x".to_string()).unwrap();
    assert_eq!(q.how, TextMatch::Like);
    assert!(TextPagerTrait::new(EntityKind::Chat).is_none());
}

#[test]
fn contest_children_visibility() {
    let p = ParentPagerTrait::new(EntityKind::Announcement).unwrap();
    assert_eq!(p.parent_kind(), EntityKind::Contest);
    assert_eq!(p.sort_col(), ChildOrder::UpdateAt);
    let now = DateTime { secs: 100, nanos: 0 };
    let user = Auth::User((9, RoleLv::User));
    assert_eq!(p.filter(&user, &contest(9, false, None), false, now), Ok(3));
    assert_eq!(p.filter(&user, &contest(1, false, None), true, now), Ok(3));
    assert_eq!(p.filter(&user, &contest(1, true, Some(50)), false, now), Ok(3));
    assert_eq!(
        p.filter(&user, &contest(1, true, Some(150)), false, now),
        Err(Error::NotInDB("contest"))
    );
    assert_eq!(
        p.filter(&user, &contest(1, true, None), false, now),
        Err(Error::NotInDB("contest"))
    );
    assert_eq!(p.filter(&Auth::Guest, &contest(1, true, Some(150)), false, now), Ok(3));
}

#[test]
fn problem_children_visibility() {
    let p = ParentPagerTrait::new(EntityKind::Chat).unwrap();
    assert_eq!(p.parent_kind(), EntityKind::Problem);
    let now = DateTime { secs: 0, nanos: 0 };
    let prob = IdModel { id: 8, owner: 2, public: false, contest_id: Some(1), begin: None };
    assert_eq!(p.filter(&Auth::User((2, RoleLv::User)), &prob, false, now), Ok(8));
    assert_eq!(
        p.filter(&Auth::User((3, RoleLv::Root)), &prob, true, now),
        Err(Error::NotInDB("problem"))
    );
    assert!(ParentPagerTrait::new(EntityKind::Token).is_none());
}

#[test]
fn row_shown_with_its_editable_flag() {
    let auth = Auth::User((1, RoleLv::Super));
    let row = Row { id: 5, owner: 1, public: true, permission: 0 };
    assert!(row.with_auth(&auth).writable(EntityKind::Announcement));
    let other = Row { id: 5, owner: 2, public: true, permission: 0 };
    assert!(!other.with_auth(&auth).writable(EntityKind::Announcement));
}

#[test]
fn sort_columns() {
    assert_eq!(sort_col(EntityKind::Contest, SortKey::Begin), Some(SortColumn::Begin));
    assert_eq!(sort_col(EntityKind::Announcement, SortKey::Begin), None);
    assert_eq!(sort_col(EntityKind::Problem, SortKey::Order), Some(SortColumn::Order));
    assert_eq!(sort_col(EntityKind::User, SortKey::Score), Some(SortColumn::Score));
    assert_eq!(sort_col(EntityKind::Chat, SortKey::Score), None);
}
