use backend::query::{
    com_eq, compare_include, order_by_bool, page_window, Comparison, Order, PaginateCol,
    PaginatePk, SortStep, SortTarget,
};

#[test]
fn comparisons_follow_inclusion_and_direction() {
    assert_eq!(compare_include(true, false), Comparison::Gte);
    assert_eq!(compare_include(false, false), Comparison::Gt);
    assert_eq!(compare_include(true, true), Comparison::Lte);
    assert_eq!(compare_include(false, true), Comparison::Lt);
    assert_eq!(com_eq(false, true), Comparison::Lt);
    assert_eq!(order_by_bool(true), Order::Desc);
    assert_eq!(order_by_bool(false), Order::Asc);
}

#[test]
fn key_pagination() {
    let c = PaginatePk { inclusive: false, rev: false, last_pk: 10 }.apply();
    assert_eq!(c.op, Comparison::Gt);
    assert_eq!(c.last_pk, 10);
    assert_eq!(c.order, Order::Asc);
}

#[test]
fn column_pagination() {
    let c = PaginateCol { inclusive: false, rev: true, last_pk: 3, last_value: 50 }.apply();
    assert_eq!(c.bound, Comparison::Lte);
    assert_eq!(c.pk_op, Comparison::Lt);
    assert_eq!(c.strict, Comparison::Lt);
    assert_eq!(c.first, SortStep { target: SortTarget::Column, order: Order::Desc });
    assert_eq!(c.second, SortStep { target: SortTarget::Key, order: Order::Desc });
}

#[test]
fn generic_page_window() {
    assert_eq!(page_window(true, 5, 10), (Order::Asc, 5, 10));
    assert_eq!(page_window(false, -1, 10), (Order::Desc, u64::MAX, 10));
}
