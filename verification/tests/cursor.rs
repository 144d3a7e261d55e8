use backend::cursor::{
    decode_pager, encode_pager, key_bound_page, KeyBound, KeyBoundPage, Pager, PagerSource,
    SearchDep,
};
use backend::error::Error;
use backend::query::{Comparison, Order, PaginatePk};

fn column_pager() -> Pager {
    Pager { sort: SearchDep::Column(3, true, "2024-01-01".to_string()), last_pk: Some(42), last_rev: false }
}

#[test]
fn pager_bytes_round_trip() {
    let p = column_pager();
    let bytes = encode_pager(1591223, &p);
    assert_eq!(decode_pager(&bytes), Some((1591223, p)));
}

#[test]
fn pager_bytes_layout() {
    let p = Pager { sort: SearchDep::Parent(7), last_pk: None, last_rev: true };
    assert_eq!(encode_pager(1, &p), vec![1, 0, 0, 0, 2, 7, 0, 0, 0, 1, 0]);
}

#[test]
fn trailing_bytes_are_refused() {
    let mut bytes = encode_pager(5, &column_pager());
    bytes.push(0);
    assert_eq!(decode_pager(&bytes), None);
    assert_eq!(decode_pager(&[]), None);
}

#[test]
fn cursor_text_round_trips() {
    let p = Pager::text_search("héllo wörld".to_string());
    let text = p.clone().into_raw(78879091);
    assert_eq!(Pager::from_raw(&text, 78879091, &vec![], false), Ok(p));
}

#[test]
fn cursor_refusals() {
    assert_eq!(
        Pager::from_raw("!!!", 1, &vec![], true),
        Err(Error::PaginationError("Not base64"))
    );
    assert_eq!(
        Pager::from_raw("AQID", 1, &vec![], true),
        Err(Error::PaginationError("Malformated pager"))
    );
    let text = column_pager().into_raw(9);
    assert_eq!(
        Pager::from_raw(&text, 10, &vec![3], true),
        Err(Error::PaginationError("Pager type number mismatch"))
    );
    assert_eq!(
        Pager::from_raw(&text, 9, &vec![1, 2], true),
        Err(Error::PaginationError("Pager reconstruction failed"))
    );
    assert_eq!(Pager::from_raw(&text, 9, &vec![1, 3], false), Ok(column_pager()));
    let parent = Pager::parent_search(4).into_raw(9);
    assert_eq!(
        Pager::from_raw(&parent, 9, &vec![], false),
        Err(Error::PaginationError("Pager reconstruction failed"))
    );
    assert_eq!(Pager::from_raw(&parent, 9, &vec![], true), Ok(Pager::parent_search(4)));
}

#[test]
fn text_pager_plans_and_records() {
    let mut p = Pager::text_search("x".to_string());
    let plan = p.plan(10, 0, true);
    assert_eq!(plan.source, PagerSource::Text("x".to_string()));
    assert_eq!(plan.keyset, None);
    assert_eq!(plan.order, Some(true));
    p.record(&vec![9, 5], String::new());
    assert_eq!(p.last_pk, Some(5));
    let plan = p.plan(10, 3, true);
    assert_eq!(plan.keyset, Some(PaginatePk { inclusive: true, rev: true, last_pk: 5 }));
    assert_eq!(plan.offset, 3);
}

#[test]
fn sort_pager_keeps_last_value() {
    let mut p = Pager::sort_search(2, true);
    let plan = p.plan(5, 0, false);
    assert_eq!(plan.source, PagerSource::Column(2));
    assert_eq!(plan.order, Some(true));
    p.record(&vec![1], "v".to_string());
    assert_eq!(p.sort, SearchDep::Column(2, true, "v".to_string()));
    assert_eq!(p.plan(5, 0, false).order, None);
    p.record(&vec![], "w".to_string());
    assert_eq!(p.sort, SearchDep::Column(2, true, "v".to_string()));
}

#[test]
fn search_reads_forward_past_its_last_row() {
    let mut p = Pager::parent_search(3);
    p.record(&vec![2, 4, 7], String::new());
    assert!(!p.last_rev);
    assert_eq!(
        p.plan(4, 0, false).keyset,
        Some(PaginatePk { inclusive: false, rev: false, last_pk: 7 })
    );
    assert_eq!(p.plan(4, 0, false).source, PagerSource::Parent(3));
}

#[test]
fn key_bound_pages_hold_at_most_sixty_four_rows() {
    assert_eq!(key_bound_page(65, 0, false, None), Err(Error::NumberTooLarge));
    assert_eq!(
        key_bound_page(64, 2, false, Some(9)),
        Ok(KeyBoundPage {
            order: Order::Desc,
            bound: Some(KeyBound { op: Comparison::Lt, last_pk: 9 }),
            limit: 64,
            offset: 2,
        })
    );
    assert_eq!(
        key_bound_page(5, 0, true, None),
        Ok(KeyBoundPage { order: Order::Asc, bound: None, limit: 5, offset: 0 })
    );
}
