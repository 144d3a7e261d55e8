use backend::error::Error;
use backend::pager::{
    choose_paginator, list_cost, normalize, reverse_rows, unsigned_abs, ColumnKeysetPaginator,
    FetchPlan, KeysetPaginator, ListChoice, OffsetPaginator, UninitPaginator,
};
use backend::query::{Order, PaginateCol, PaginatePk, SortStep, SortTarget};

#[test]
fn first_fetch_hands_out_data_and_waits() {
    let mut p = UninitPaginator::new("abc".to_string(), true);
    let plan = p.fetch(10, -3).unwrap();
    match &plan {
        FetchPlan::First { data, start_from_end, order, limit, offset } => {
            assert_eq!(data, "abc");
            assert!(*start_from_end);
            assert_eq!(*order, Order::Desc);
            assert_eq!(*limit, 10);
            assert_eq!(*offset, 0);
        }
        _ => panic!("expected a first page"),
    }
    assert!(matches!(p, UninitPaginator::Taken));
    assert_eq!(p.complete(plan, &vec![9, 8, 7], "abc".to_string()), Ok(()));
    match &p {
        UninitPaginator::Init(k) => {
            assert_eq!(k.last_id, 7);
            assert!(!k.last_direction);
            assert!(k.direction);
        }
        _ => panic!("expected a ready paginator"),
    }
}

#[test]
fn empty_first_page_is_an_error() {
    let mut p = UninitPaginator::new((), false);
    let plan = p.fetch(5, 0).unwrap();
    assert_eq!(p.complete(plan, &vec![], ()), Err(Error::NotInDBList));
    assert!(matches!(p, UninitPaginator::Taken));
}

#[test]
fn later_pages_continue_past_the_cursor() {
    let mut p = UninitPaginator::Init(KeysetPaginator {
        last_id: 20,
        last_direction: false,
        direction: false,
        data: (),
    });
    let plan = p.fetch(5, 0).unwrap();
    match &plan {
        FetchPlan::Next { page, reverse } => {
            assert!(!reverse);
            assert!(!page.inclusive);
            assert!(!page.rev);
            assert_eq!(page.last_pk, 20);
            assert_eq!(page.limit, 5);
            assert_eq!(page.offset, 0);
        }
        _ => panic!("expected a later page"),
    }
    assert_eq!(p.complete(plan, &vec![21, 22], ()), Ok(()));
    // turning back includes the boundary row
    let plan = p.fetch(3, -5).unwrap();
    match &plan {
        FetchPlan::Next { page, reverse } => {
            assert!(*reverse);
            assert!(page.inclusive);
            assert!(page.rev);
            assert_eq!(page.last_pk, 22);
            assert_eq!(page.limit, 3);
            assert_eq!(page.offset, 2);
        }
        _ => panic!("expected a later page"),
    }
    assert_eq!(
        p.remain_page(),
        PaginatePk { inclusive: false, rev: false, last_pk: 22 }
    );
}

#[test]
fn offsets_are_normalized() {
    assert_eq!(normalize(10, 4), Ok((10, 4)));
    assert_eq!(normalize(3, -5), Ok((-3, 2)));
    assert_eq!(normalize(u64::MAX, 0), Ok((i64::MAX - 1, 0)));
    assert_eq!(normalize(10, -1), Ok((-10, (-9i64) as u64)));
    assert_eq!(unsigned_abs(i64::MIN), 1u64 << 63);
}

#[test]
fn empty_later_page_changes_nothing() {
    let mut k = KeysetPaginator { last_id: 4, last_direction: true, direction: false, data: 1u8 };
    assert_eq!(k.record(&vec![], 2u8), Err(Error::NotInDBList));
    assert_eq!(k.last_id, 4);
    assert_eq!(k.data, 1);
    assert_eq!(k.record(&vec![5, 6], 2u8), Ok(()));
    assert_eq!(k.last_id, 6);
    assert_eq!(k.data, 2);
}

#[test]
fn rows_reverse() {
    assert_eq!(reverse_rows(vec![1, 2, 3]), vec![3, 2, 1]);
    assert_eq!(reverse_rows(Vec::<u8>::new()), Vec::<u8>::new());
}

#[test]
fn offset_paginator_counts_rows() {
    let first = OffsetPaginator::first_page((0, 12), 10, 0, true);
    assert_eq!(first.check_contest, 12);
    assert_eq!(first.contest_id, 0);
    let wide = OffsetPaginator::first_page((u64::MAX, 12), 10, 0, true);
    assert_eq!(wide.contest_id, u64::MAX as i128);
    let mut p = OffsetPaginator::started((0, 12), 0, true, 10);
    assert_eq!(p.offset, 10);
    let page = p.plan(-4, 2);
    assert!(!page.desc);
    assert_eq!(page.offset, 12);
    assert_eq!(page.limit, 4);
    assert_eq!(page.contest_id, 12);
    p.record(4);
    assert_eq!(p.offset, 14);
    assert_eq!(p.remain(20), 6);
    assert_eq!(p.remain(3), 0);
}

#[test]
fn list_cost_of_requests() {
    assert_eq!(list_cost(10, -20), 16);
    assert_eq!(list_cost(0, 0), 2);
    assert_eq!(list_cost(u32::MAX as u64, 0), u32::MAX);
    assert_eq!(list_cost(0, i64::MIN), u32::MAX);
}

#[test]
fn paginator_choice_prefers_text() {
    assert_eq!(
        choose_paginator(Some("x".to_string()), Some(1), Some(2)),
        ListChoice::Text("x".to_string())
    );
    assert_eq!(choose_paginator(None, Some(1), Some(2)), ListChoice::Sort(1));
    assert_eq!(choose_paginator(None, None, Some(2)), ListChoice::Parent(2));
    assert_eq!(choose_paginator(None, None, None), ListChoice::Default);
}

#[test]
fn column_paginator_pages_by_value_then_key() {
    let first = ColumnKeysetPaginator::<()>::first_page(true, 5, 2);
    assert_eq!(first.first, SortStep { target: SortTarget::Column, order: Order::Desc });
    assert_eq!(first.second, SortStep { target: SortTarget::Key, order: Order::Desc });
    assert_eq!((first.limit, first.offset), (5, 2));
    assert_eq!(
        ColumnKeysetPaginator::started(&vec![], 0, true, ()).err(),
        Some(Error::NotInDBList)
    );
    let mut p = ColumnKeysetPaginator::started(&vec![4, 9], 70, true, ()).unwrap();
    let page = p.plan(3, 0);
    assert_eq!(
        page.paginate,
        PaginateCol { inclusive: false, rev: true, last_pk: 9, last_value: 70 }
    );
    assert_eq!(page.limit, 3);
    assert_eq!(p.record(&vec![2], 60, ()), Ok(()));
    assert_eq!((p.last_id, p.last_value), (2, 60));
    let back = p.plan(-4, 1);
    assert_eq!(
        back.paginate,
        PaginateCol { inclusive: true, rev: false, last_pk: 2, last_value: 60 }
    );
    assert_eq!((back.limit, back.offset), (4, 1));
    assert_eq!(p.record(&vec![], 0, ()), Err(Error::NotInDBList));
    assert_eq!((p.last_id, p.last_value), (2, 60));
    assert_eq!(
        p.remain_page(),
        PaginateCol { inclusive: false, rev: true, last_pk: 2, last_value: 60 }
    );
}
