use vstd::prelude::*;

verus! {

/// A comparison of a column with a value: `column op value`.
#[derive(Clone, Copy, Debug, PartialEq, Eq, Structural)]
pub enum Comparison {
    Lt,
    Lte,
    Gt,
    Gte,
}

/// A sort direction.
#[derive(Clone, Copy, Debug, PartialEq, Eq, Structural)]
pub enum Order {
    Asc,
    Desc,
}

/// Whether `a op b` holds.
pub open spec fn comparison_holds(op: Comparison, a: int, b: int) -> bool {
    match op {
        Comparison::Lt => a < b,
        Comparison::Lte => a <= b,
        Comparison::Gt => a > b,
        Comparison::Gte => a >= b,
    }
}

/// The comparison that keeps rows at or past a bound: past it upward in
/// ascending order and downward in descending order (`desc`), the bound
/// itself kept only when `inclusive` holds.
pub open spec fn spec_compare_include(inclusive: bool, desc: bool) -> Comparison {
    if inclusive {
        if desc {
            Comparison::Lte
        } else {
            Comparison::Gte
        }
    } else {
        if desc {
            Comparison::Lt
        } else {
            Comparison::Gt
        }
    }
}

/// included and ascending: `>=`; excluded and ascending: `>`; included and
/// descending: `<=`; excluded and descending: `<`.
pub fn compare_include(inclusive: bool, desc: bool) -> (res: Comparison)
    ensures
        res == spec_compare_include(inclusive, desc),
{
    match inclusive {
        true => match desc {
            true => Comparison::Lte,
            false => Comparison::Gte,
        },
        false => match desc {
            true => Comparison::Lt,
            false => Comparison::Gt,
        },
    }
}

/// The comparison past a bound, from an equality flag and an order flag:
/// the same as `compare_include`.
pub fn com_eq(eq: bool, ord: bool) -> (res: Comparison)
    ensures
        res == spec_compare_include(eq, ord),
{
    compare_include(eq, ord)
}

pub open spec fn spec_order_by_bool(rev: bool) -> Order {
    if rev {
        Order::Desc
    } else {
        Order::Asc
    }
}

/// Descending order for `true`, ascending for `false`.
pub fn order_by_bool(rev: bool) -> (res: Order)
    ensures
        res == spec_order_by_bool(rev),
{
    match rev {
        true => Order::Desc,
        false => Order::Asc,
    }
}

/// Pagination by primary key: rows past the last key seen.
#[derive(Clone, Copy, Debug, PartialEq, Eq, Structural)]
pub struct PaginatePk {
    pub inclusive: bool,
    pub rev: bool,
    pub last_pk: i32,
}

/// A condition on the primary key, with the order of the rows.
#[derive(Clone, Copy, Debug, PartialEq, Eq, Structural)]
pub struct PkCondition {
    pub op: Comparison,
    pub last_pk: i32,
    pub order: Order,
}

pub open spec fn pk_condition_holds(c: PkCondition, pk: int) -> bool {
    comparison_holds(c.op, pk, c.last_pk as int)
}

impl PaginatePk {
    /// The filter and order that this pagination puts on a query.
    pub fn apply(self) -> (res: PkCondition)
        ensures
            res.op == spec_compare_include(self.inclusive, self.rev),
            res.last_pk == self.last_pk,
            res.order == spec_order_by_bool(self.rev),
    {
        PkCondition {
            op: compare_include(self.inclusive, self.rev),
            last_pk: self.last_pk,
            order: order_by_bool(self.rev),
        }
    }
}

/// Pagination by a sort column with the primary key to break ties: rows
/// past the last (column value, key) pair seen.
#[derive(Clone, Copy, Debug, PartialEq, Eq, Structural)]
pub struct PaginateCol {
    pub inclusive: bool,
    pub rev: bool,
    pub last_pk: i32,
    pub last_value: i64,
}

/// What the rows of a page are sorted by.
#[derive(Clone, Copy, Debug, PartialEq, Eq, Structural)]
pub enum SortTarget {
    /// The sort column.
    Column,
    /// The primary key.
    Key,
}

/// One key of a sort, with its direction.
#[derive(Clone, Copy, Debug, PartialEq, Eq, Structural)]
pub struct SortStep {
    pub target: SortTarget,
    pub order: Order,
}

/// `col bound last_value AND (pk pk_op last_pk OR col strict last_value)`,
/// sorted by `first` and, among rows that tie on it, by `second`: the column
/// first and then the key, so that rows come in (column, key) order.
#[derive(Clone, Copy, Debug, PartialEq, Eq, Structural)]
pub struct ColCondition {
    pub bound: Comparison,
    pub pk_op: Comparison,
    pub strict: Comparison,
    pub last_pk: i32,
    pub last_value: i64,
    pub first: SortStep,
    pub second: SortStep,
}

pub open spec fn col_condition_holds(c: ColCondition, pk: int, value: int) -> bool {
    comparison_holds(c.bound, value, c.last_value as int) && (comparison_holds(c.pk_op, pk, c.last_pk as int)
        || comparison_holds(c.strict, value, c.last_value as int))
}

impl PaginateCol {
    /// The filter and order that this pagination puts on a query.
    pub fn apply(self) -> (res: ColCondition)
        ensures
            res.bound == spec_compare_include(true, self.rev),
            res.pk_op == spec_compare_include(self.inclusive, self.rev),
            res.strict == spec_compare_include(false, self.rev),
            res.last_pk == self.last_pk,
            res.last_value == self.last_value,
            res.first == (SortStep { target: SortTarget::Column, order: spec_order_by_bool(self.rev) }),
            res.second == (SortStep { target: SortTarget::Key, order: spec_order_by_bool(self.rev) }),
    {
        let bound = compare_include(true, self.rev);
        let pk_op = compare_include(self.inclusive, self.rev);
        let strict = compare_include(false, self.rev);
        let dir = order_by_bool(self.rev);
        ColCondition {
            bound,
            pk_op,
            strict,
            last_pk: self.last_pk,
            last_value: self.last_value,
            first: SortStep { target: SortTarget::Column, order: dir },
            second: SortStep { target: SortTarget::Key, order: dir },
        }
    }
}

/// Whether the pair `(value, pk)` comes after `(last_value, last_pk)` in the
/// order by value and then key (descending when `rev`), the pair itself
/// counting as after when `inclusive` holds.
pub open spec fn lex_after(rev: bool, inclusive: bool, value: int, pk: int, last_value: int, last_pk: int) -> bool {
    if !rev {
        value > last_value || (value == last_value && (pk > last_pk || (inclusive && pk == last_pk)))
    } else {
        value < last_value || (value == last_value && (pk < last_pk || (inclusive && pk == last_pk)))
    }
}

/// Paging by a column keeps exactly the rows that come after the last row
/// seen in (column, key) order, the order its rows are sorted in: none is
/// skipped and none seen is repeated.
pub proof fn lemma_col_pagination_is_keyset(p: PaginateCol, pk: int, value: int)
    ensures
        ({
            let c = ColCondition {
                bound: spec_compare_include(true, p.rev),
                pk_op: spec_compare_include(p.inclusive, p.rev),
                strict: spec_compare_include(false, p.rev),
                last_pk: p.last_pk,
                last_value: p.last_value,
                first: SortStep { target: SortTarget::Column, order: spec_order_by_bool(p.rev) },
                second: SortStep { target: SortTarget::Key, order: spec_order_by_bool(p.rev) },
            };
            col_condition_holds(c, pk, value) == lex_after(
                p.rev,
                p.inclusive,
                value,
                pk,
                p.last_value as int,
                p.last_pk as int,
            )
        }),
{
}

/// Paging by key keeps exactly the keys past the last one seen.
pub proof fn lemma_pk_pagination_is_keyset(p: PaginatePk, pk: int)
    ensures
        ({
            let c = PkCondition {
                op: spec_compare_include(p.inclusive, p.rev),
                last_pk: p.last_pk,
                order: spec_order_by_bool(p.rev),
            };
            pk_condition_holds(c, pk) == (if !p.rev {
                pk > p.last_pk || (p.inclusive && pk == p.last_pk)
            } else {
                pk < p.last_pk || (p.inclusive && pk == p.last_pk)
            })
        }),
{
}

/// The order and window of a page in the generic list: ascending when
/// `reverse`, descending otherwise, starting at the page's offset and
/// holding its amount of rows (both read as unsigned, so a negative number
/// wraps).
pub fn page_window(reverse: bool, page_offset: i32, page_amount: i32) -> (res: (Order, u64, u64))
    ensures
        res.0 == (if reverse {
            Order::Asc
        } else {
            Order::Desc
        }),
        res.1 == page_offset as u64,
        res.2 == page_amount as u64,
{
    let order = if reverse {
        Order::Asc
    } else {
        Order::Desc
    };
    #[verifier::truncate]
    let offset: u64 = page_offset as u64;
    #[verifier::truncate]
    let amount: u64 = page_amount as u64;
    (order, offset, amount)
}

} // verus!
