use vstd::prelude::*;

use crate::error::Error;
use crate::query::{order_by_bool, Order, PaginateCol, PaginatePk, SortStep, SortTarget, spec_order_by_bool};

verus! {

/// How many rows a count of what remains looks at, at most.
pub const PAGINATE_GUARANTEE: u64 = 96;

/// A paginator that has served its first page: the key of the last row it
/// served, the relative direction of its last fetch (`true` for backward),
/// the direction it was created with (`true` for descending), and the data
/// its source filters by.
pub struct KeysetPaginator<D> {
    pub last_id: i32,
    pub last_direction: bool,
    pub direction: bool,
    pub data: D,
}

/// The page that a fetch asks the database for: keys past `last_pk`
/// (`inclusive` keeps `last_pk` itself), sorted descending when `rev`,
/// `limit` rows after skipping `offset`.
#[derive(Clone, Copy, Debug, PartialEq, Eq, Structural)]
pub struct KeysetPage {
    pub inclusive: bool,
    pub rev: bool,
    pub last_pk: i32,
    pub limit: u64,
    pub offset: u64,
}

/// The absolute value of `x` as an unsigned number.
pub fn unsigned_abs(x: i64) -> (res: u64)
    ensures
        res == (if x < 0 {
            -x
        } else {
            x as int
        }),
{
    if x < 0 {
        let y: i64 = -(x + 1);
        (y as u64) + 1
    } else {
        x as u64
    }
}

/// The page that a paginator asks for next, for a signed size: a negative
/// size reads backward, against the paginator's direction. The boundary row
/// of the last page is kept exactly when this fetch turns back.
pub open spec fn spec_plan_page<D>(p: KeysetPaginator<D>, size: i64, offset: u64) -> KeysetPage {
    KeysetPage {
        inclusive: p.last_direction != (size < 0),
        rev: p.direction != (size < 0),
        last_pk: p.last_id,
        limit: (if size < 0 {
            -size
        } else {
            size as int
        }) as u64,
        offset,
    }
}

/// A paginator after it planned a fetch of the given size and took in its
/// rows, the last of which has key `last_id`.
pub open spec fn spec_after_page<D>(p: KeysetPaginator<D>, size: i64, last_id: i32, data: D) -> KeysetPaginator<D> {
    KeysetPaginator { last_id, last_direction: size < 0, direction: p.direction, data }
}

/// Reading on in the same direction never serves the boundary row twice;
/// turning back serves it again, and every page keeps to the paginator's
/// own direction for forward reads.
pub proof fn lemma_consecutive_pages<D>(p: KeysetPaginator<D>, s1: i64, last_id: i32, data: D, s2: i64, offset: u64)
    ensures
        ({
            let next = spec_plan_page(spec_after_page(p, s1, last_id, data), s2, offset);
            &&& next.inclusive == ((s1 < 0) != (s2 < 0))
            &&& next.last_pk == last_id
            &&& next.rev == (p.direction != (s2 < 0))
        }),
{
}

impl<D> KeysetPaginator<D> {
    /// The next page for a signed size: a negative size reads backward.
    /// Records the direction of this fetch.
    pub fn plan(&mut self, size: i64, offset: u64) -> (res: KeysetPage)
        ensures
            res == spec_plan_page(*old(self), size, offset),
            res.limit == (if size < 0 {
                -size
            } else {
                size as int
            }),
            final(self).last_direction == (size < 0),
            final(self).last_id == old(self).last_id,
            final(self).direction == old(self).direction,
            final(self).data == old(self).data,
    {
        let dir = size < 0;
        let page = KeysetPage {
            inclusive: self.last_direction ^ dir,
            rev: self.direction ^ dir,
            last_pk: self.last_id,
            limit: unsigned_abs(size),
            offset,
        };
        self.last_direction = dir;
        page
    }

    /// Takes in the keys of the rows that a page returned, in order, and the
    /// data as the source leaves it after the last row. An empty page is an
    /// error and changes nothing.
    pub fn record(&mut self, ids: &Vec<i32>, data_after: D) -> (res: Result<(), Error>)
        ensures
            ids@.len() == 0 ==> res == Err::<(), Error>(Error::NotInDBList) && *final(self)
                == *old(self),
            ids@.len() > 0 ==> {
                &&& res is Ok
                &&& final(self).last_id == ids@.last()
                &&& final(self).last_direction == old(self).last_direction
                &&& final(self).direction == old(self).direction
                &&& final(self).data == data_after
            },
    {
        if ids.len() == 0 {
            return Err(Error::NotInDBList);
        }
        self.last_id = ids[ids.len() - 1];
        self.data = data_after;
        Ok(())
    }

    /// The pagination that counts the rows left after the last one served,
    /// in the paginator's own direction.
    pub fn remain_page(&self) -> (res: PaginatePk)
        ensures
            res == (PaginatePk { inclusive: false, rev: self.direction, last_pk: self.last_id }),
    {
        PaginatePk { inclusive: false, rev: self.direction, last_pk: self.last_id }
    }
}

/// A paginator by a sort column that has served its first page: the key
/// and the column value of the last row it served, the relative direction
/// of its last fetch (`true` for backward), the direction it was created
/// with (`true` for descending), and the data its source filters by.
pub struct ColumnKeysetPaginator<D> {
    pub last_id: i32,
    pub last_value: i64,
    pub last_direction: bool,
    pub direction: bool,
    pub data: D,
}

/// The page that a column paginator asks the database for: the rows that
/// `paginate` keeps, in its (column, key) order, `limit` rows after
/// skipping `offset`.
#[derive(Clone, Copy, Debug, PartialEq, Eq, Structural)]
pub struct ColumnPage {
    pub paginate: PaginateCol,
    pub limit: u64,
    pub offset: u64,
}

/// The first page of a list by column: every row of the source, sorted by
/// `first` and then by `second`, `limit` rows after skipping `offset`.
#[derive(Clone, Copy, Debug, PartialEq, Eq, Structural)]
pub struct FirstColumnPage {
    pub first: SortStep,
    pub second: SortStep,
    pub limit: u64,
    pub offset: u64,
}

/// The page that a column paginator asks for next, for a signed size: a
/// negative size reads backward, against the paginator's direction; the
/// boundary row of the last page is kept exactly when this fetch turns back.
pub open spec fn spec_plan_column_page<D>(p: ColumnKeysetPaginator<D>, size: i64, offset: u64) -> ColumnPage {
    ColumnPage {
        paginate: PaginateCol {
            inclusive: p.last_direction != (size < 0),
            rev: p.direction != (size < 0),
            last_pk: p.last_id,
            last_value: p.last_value,
        },
        limit: (if size < 0 {
            -size
        } else {
            size as int
        }) as u64,
        offset,
    }
}

/// A column paginator after it planned a fetch of the given size and took
/// in its rows, the last of which has key `last_id` and value `last_value`.
pub open spec fn spec_after_column_page<D>(
    p: ColumnKeysetPaginator<D>,
    size: i64,
    last_id: i32,
    last_value: i64,
    data: D,
) -> ColumnKeysetPaginator<D> {
    ColumnKeysetPaginator { last_id, last_value, last_direction: size < 0, direction: p.direction, data }
}

/// Reading on by column in the same direction never serves the boundary
/// row twice; turning back serves it again; the next page starts from the
/// last row served, key and value.
pub proof fn lemma_consecutive_column_pages<D>(
    p: ColumnKeysetPaginator<D>,
    s1: i64,
    last_id: i32,
    last_value: i64,
    data: D,
    s2: i64,
    offset: u64,
)
    ensures
        ({
            let next = spec_plan_column_page(spec_after_column_page(p, s1, last_id, last_value, data), s2, offset);
            &&& next.paginate.inclusive == ((s1 < 0) != (s2 < 0))
            &&& next.paginate.last_pk == last_id
            &&& next.paginate.last_value == last_value
            &&& next.paginate.rev == (p.direction != (s2 < 0))
        }),
{
}

impl<D> ColumnKeysetPaginator<D> {
    /// The first page of a list by column, descending when `abs_dir`: by
    /// the column, then by the key.
    pub fn first_page(abs_dir: bool, size: u64, offset: u64) -> (res: FirstColumnPage)
        ensures
            res == (FirstColumnPage {
                first: SortStep { target: SortTarget::Column, order: spec_order_by_bool(abs_dir) },
                second: SortStep { target: SortTarget::Key, order: spec_order_by_bool(abs_dir) },
                limit: size,
                offset,
            }),
    {
        let dir = order_by_bool(abs_dir);
        FirstColumnPage {
            first: SortStep { target: SortTarget::Column, order: dir },
            second: SortStep { target: SortTarget::Key, order: dir },
            limit: size,
            offset,
        }
    }

    /// The paginator after a first page whose rows have the keys `ids`, in
    /// order, the last row's column value being `last_value`; an empty first
    /// page is an error.
    pub fn started(ids: &Vec<i32>, last_value: i64, abs_dir: bool, data: D) -> (res: Result<Self, Error>)
        ensures
            ids@.len() == 0 ==> res == Err::<Self, Error>(Error::NotInDBList),
            ids@.len() > 0 ==> res == Ok::<Self, Error>(
                ColumnKeysetPaginator {
                    last_id: ids@.last(),
                    last_value,
                    last_direction: false,
                    direction: abs_dir,
                    data,
                },
            ),
    {
        if ids.len() == 0 {
            return Err(Error::NotInDBList);
        }
        Ok(
            ColumnKeysetPaginator {
                last_id: ids[ids.len() - 1],
                last_value,
                last_direction: false,
                direction: abs_dir,
                data,
            },
        )
    }

    /// The next page for a signed size: a negative size reads backward.
    /// Records the direction of this fetch.
    pub fn plan(&mut self, size: i64, offset: u64) -> (res: ColumnPage)
        ensures
            res == spec_plan_column_page(*old(self), size, offset),
            final(self).last_direction == (size < 0),
            final(self).last_id == old(self).last_id,
            final(self).last_value == old(self).last_value,
            final(self).direction == old(self).direction,
            final(self).data == old(self).data,
    {
        let dir = size < 0;
        let page = ColumnPage {
            paginate: PaginateCol {
                inclusive: self.last_direction ^ dir,
                rev: self.direction ^ dir,
                last_pk: self.last_id,
                last_value: self.last_value,
            },
            limit: unsigned_abs(size),
            offset,
        };
        self.last_direction = dir;
        page
    }

    /// Takes in the keys of the rows that a page returned, in order, the
    /// column value of the last row, and the data as the source leaves it.
    /// An empty page is an error and changes nothing.
    pub fn record(&mut self, ids: &Vec<i32>, last_value: i64, data_after: D) -> (res: Result<(), Error>)
        ensures
            ids@.len() == 0 ==> res == Err::<(), Error>(Error::NotInDBList) && *final(self)
                == *old(self),
            ids@.len() > 0 ==> {
                &&& res is Ok
                &&& final(self).last_id == ids@.last()
                &&& final(self).last_value == last_value
                &&& final(self).last_direction == old(self).last_direction
                &&& final(self).direction == old(self).direction
                &&& final(self).data == data_after
            },
    {
        if ids.len() == 0 {
            return Err(Error::NotInDBList);
        }
        self.last_id = ids[ids.len() - 1];
        self.last_value = last_value;
        self.data = data_after;
        Ok(())
    }

    /// The pagination that counts the rows left after the last one served,
    /// in the paginator's own direction.
    pub fn remain_page(&self) -> (res: PaginateCol)
        ensures
            res == (PaginateCol {
                inclusive: false,
                rev: self.direction,
                last_pk: self.last_id,
                last_value: self.last_value,
            }),
    {
        PaginateCol {
            inclusive: false,
            rev: self.direction,
            last_pk: self.last_id,
            last_value: self.last_value,
        }
    }
}

/// A paginator before and after its first page. `Taken` is the state while
/// the first page is being fetched, and stays if that fetch fails.
pub enum UninitPaginator<D> {
    Uninit(D, bool),
    Init(KeysetPaginator<D>),
    Taken,
}

/// What a fetch asks of the database.
pub enum FetchPlan<D> {
    /// The first page: rows of the source for `data`, by key in the order
    /// `order`, `limit` rows after skipping `offset`.
    First { data: D, start_from_end: bool, order: Order, limit: u64, offset: u64 },
    /// A later page, to be reversed before it is returned when `reverse`.
    Next { page: KeysetPage, reverse: bool },
}

/// A later page's signed size and offset: a negative offset reads backward,
/// ending that many rows before the cursor. `None` is never the answer; it
/// stands where the offset arithmetic would fail.
pub open spec fn spec_normalize(size: u64, offset: i64) -> Option<(i64, u64)> {
    let s: i64 = if size < (i64::MAX - 1) as u64 {
        size as i64
    } else {
        (i64::MAX - 1) as i64
    };
    let o: i64 = if offset > i64::MIN + 1 {
        offset
    } else {
        (i64::MIN + 1) as i64
    };
    if o < 0 {
        Some(((-s) as i64, ((-o) - s) as u64))
    } else {
        Some((s, o as u64))
    }
}

/// The signed size and the offset of a later page.
pub fn normalize(size: u64, offset: i64) -> (res: Result<(i64, u64), Error>)
    ensures
        res matches Ok(r) && spec_normalize(size, offset) == Some(r),
{
    let capped: u64 = if size < (i64::MAX - 1) as u64 {
        size
    } else {
        (i64::MAX - 1) as u64
    };
    let s: i64 = capped as i64;
    let o: i64 = if offset > i64::MIN + 1 {
        offset
    } else {
        i64::MIN + 1
    };
    if o < 0 {
        let back: i64 = -o;
        match back.checked_sub(s) {
            Some(rest) => {
                #[verifier::truncate]
                let off: u64 = rest as u64;
                Ok((-s, off))
            },
            None => Err(Error::BadArgument("size")),
        }
    } else {
        Ok((s, o as u64))
    }
}

impl<D> UninitPaginator<D> {
    /// A paginator that has not served a page yet.
    pub fn new(data: D, start_from_end: bool) -> (res: Self)
        ensures
            res == UninitPaginator::Uninit(data, start_from_end),
    {
        UninitPaginator::Uninit(data, start_from_end)
    }

    /// Plans a fetch of `size` rows at `offset`. Before the first page the
    /// paginator hands out its data and waits in `Taken` for the result; a
    /// negative offset counts as zero there. After it, the page goes past the
    /// cursor, backward for a negative offset.
    pub fn fetch(&mut self, size: u64, offset: i64) -> (res: Result<FetchPlan<D>, Error>)
        requires
            !(*old(self) is Taken),
        ensures
            match *old(self) {
                UninitPaginator::Uninit(data, start_from_end) => {
                    &&& *final(self) is Taken
                    &&& res == Ok::<FetchPlan<D>, Error>(
                        FetchPlan::First {
                            data,
                            start_from_end,
                            order: spec_order_by_bool(start_from_end),
                            limit: size,
                            offset: if offset < 0 {
                                0
                            } else {
                                offset as u64
                            },
                        },
                    )
                },
                UninitPaginator::Init(p) => {
                    let (s, o) = spec_normalize(size, offset).unwrap();
                    &&& res matches Ok(FetchPlan::Next { page, reverse })
                    &&& reverse == (s < 0)
                    &&& page == spec_plan_page(p, s, o)
                    &&& *final(self) matches UninitPaginator::Init(q)
                    &&& q.last_direction == (s < 0)
                    &&& q.last_id == p.last_id
                    &&& q.direction == p.direction
                    &&& q.data == p.data
                },
                UninitPaginator::Taken => false,
            },
    {
        let mut taken = UninitPaginator::Taken;
        std::mem::swap(self, &mut taken);
        match taken {
            UninitPaginator::Init(mut p) => {
                let (s, o) = match normalize(size, offset) {
                    Ok(r) => r,
                    Err(e) => {
                        *self = UninitPaginator::Init(p);
                        return Err(e);
                    },
                };
                let page = p.plan(s, o);
                *self = UninitPaginator::Init(p);
                Ok(FetchPlan::Next { page, reverse: s < 0 })
            },
            UninitPaginator::Uninit(data, start_from_end) => {
                let off: u64 = if offset < 0 {
                    0
                } else {
                    offset as u64
                };
                Ok(
                    FetchPlan::First {
                        data,
                        start_from_end,
                        order: order_by_bool(start_from_end),
                        limit: size,
                        offset: off,
                    },
                )
            },
            UninitPaginator::Taken => {
                *self = UninitPaginator::Taken;
                Err(Error::Unreachable("Cannot in middle state"))
            },
        }
    }

    /// The count of the rows left, once the first page has been served.
    pub fn remain_page(&self) -> (res: PaginatePk)
        requires
            *self is Init,
        ensures
            *self matches UninitPaginator::Init(p) && res == (PaginatePk {
                inclusive: false,
                rev: p.direction,
                last_pk: p.last_id,
            }),
    {
        match self {
            UninitPaginator::Init(p) => p.remain_page(),
            _ => PaginatePk { inclusive: false, rev: false, last_pk: 0 },
        }
    }

    /// A paginator read back from a cursor: only one that had served a page
    /// is ever written out, so anything else is refused.
    pub fn from_decoded(p: Option<KeysetPaginator<D>>) -> (res: Result<Self, Error>)
        ensures
            match p {
                Some(k) => res == Ok::<Self, Error>(UninitPaginator::Init(k)),
                None => res == Err::<Self, Error>(
                    Error::PaginationError("Unexpected data format for UninitPaginator"),
                ),
            },
    {
        match p {
            Some(k) => Ok(UninitPaginator::Init(k)),
            None => Err(Error::PaginationError("Unexpected data format for UninitPaginator")),
        }
    }

    /// Takes in the keys of the rows that a planned fetch returned, in
    /// order, and the data as the source leaves it after the last row. A
    /// first page with rows makes the paginator ready; an empty page is an
    /// error.
    pub fn complete(&mut self, plan: FetchPlan<D>, ids: &Vec<i32>, data_after: D) -> (res: Result<(), Error>)
        requires
            match plan {
                FetchPlan::First { .. } => *old(self) is Taken,
                FetchPlan::Next { .. } => *old(self) is Init,
            },
        ensures
            ids@.len() == 0 ==> res == Err::<(), Error>(Error::NotInDBList),
            ids@.len() > 0 ==> res is Ok,
            match plan {
                FetchPlan::First { start_from_end, .. } => if ids@.len() > 0 {
                    *final(self) == UninitPaginator::Init(
                        KeysetPaginator {
                            last_id: ids@.last(),
                            last_direction: false,
                            direction: start_from_end,
                            data: data_after,
                        },
                    )
                } else {
                    *final(self) is Taken
                },
                FetchPlan::Next { .. } => {
                    &&& *old(self) matches UninitPaginator::Init(p)
                    &&& *final(self) matches UninitPaginator::Init(q)
                    &&& ids@.len() > 0 ==> q.last_id == ids@.last() && q.data == data_after
                    &&& ids@.len() == 0 ==> q == p
                    &&& q.last_direction == p.last_direction
                    &&& q.direction == p.direction
                },
            },
    {
        match plan {
            FetchPlan::First { start_from_end, .. } => {
                if ids.len() == 0 {
                    return Err(Error::NotInDBList);
                }
                *self = UninitPaginator::Init(
                    KeysetPaginator {
                        last_id: ids[ids.len() - 1],
                        last_direction: false,
                        direction: start_from_end,
                        data: data_after,
                    },
                );
                Ok(())
            },
            FetchPlan::Next { .. } => {
                let mut taken = UninitPaginator::Taken;
                std::mem::swap(self, &mut taken);
                match taken {
                    UninitPaginator::Init(mut p) => {
                        let r = p.record(ids, data_after);
                        *self = UninitPaginator::Init(p);
                        r
                    },
                    other => {
                        *self = other;
                        Err(Error::Unreachable("Cannot in middle state"))
                    },
                }
            },
        }
    }
}

/// The rows of a page in the opposite order.
pub fn reverse_rows<T>(rows: Vec<T>) -> (res: Vec<T>)
    ensures
        res@ == rows@.reverse(),
{
    let mut rest = rows;
    let mut res: Vec<T> = Vec::new();
    let ghost orig = rest@;
    while rest.len() > 0
        invariant
            res@ + rest@.reverse() == orig.reverse(),
        decreases rest@.len(),
    {
        let ghost before = rest@;
        let x = rest.pop().unwrap();
        proof {
            assert(before == rest@.push(x));
            assert(before.reverse() == seq![x] + rest@.reverse()) by {
                assert forall|i: int| 0 <= i < before.len() implies before.reverse()[i] == (seq![x] + rest@.reverse())[i] by {
                }
                assert(before.reverse().len() == (seq![x] + rest@.reverse()).len());
            }
        }
        res.push(x);
        proof {
            assert(res@ + rest@.reverse() == orig.reverse()) by {
                assert(res@ == res@.drop_last().push(x));
            }
        }
    }
    assert(rest@.reverse() =~= Seq::<T>::empty());
    assert(res@ + rest@.reverse() =~= res@);
    res
}

/// A paginator by offset over the members of a contest, ranked by score.
#[derive(Clone, Copy, Debug, PartialEq, Eq, Structural)]
pub struct OffsetPaginator {
    pub offset: u64,
    pub ppk: i32,
    pub start_from_end: bool,
}

/// The rows that an offset page asks for: members of contest `contest_id`
/// (after checking that the caller may read contest `check_contest`), by
/// score descending when `desc`, `limit` rows after skipping `offset`. The
/// contest is compared as a wide integer, since a first page compares it
/// with an unsigned 64-bit value and a later page with a signed key.
#[derive(Clone, Copy, Debug, PartialEq, Eq, Structural)]
pub struct OffsetPage {
    pub check_contest: i32,
    pub contest_id: i128,
    pub desc: bool,
    pub offset: u64,
    pub limit: u64,
}

impl OffsetPaginator {
    /// The first page of the members of a contest. The data is the starting
    /// offset and the contest; the members are looked up by the first
    /// component and the caller's access is checked on the second.
    pub fn first_page(data: (u64, i32), size: u64, offset: u64, abs_dir: bool) -> (res: OffsetPage)
        ensures
            res == (OffsetPage {
                check_contest: data.1,
                contest_id: data.0 as i128,
                desc: abs_dir,
                offset,
                limit: size,
            }),
    {
        OffsetPage {
            check_contest: data.1,
            contest_id: data.0 as i128,
            desc: abs_dir,
            offset,
            limit: size,
        }
    }

    /// The paginator after a first page that returned `count` rows.
    pub fn started(data: (u64, i32), offset: u64, abs_dir: bool, count: u64) -> (res: Self)
        requires
            offset + count <= u64::MAX,
        ensures
            res == (OffsetPaginator { ppk: data.1, offset: (offset + count) as u64, start_from_end: abs_dir }),
    {
        OffsetPaginator { ppk: data.1, offset: offset + count, start_from_end: abs_dir }
    }

    /// A later page: `size` rows (backward when negative) past the rows
    /// already served and `offset` more.
    pub fn plan(&self, size: i64, offset: u64) -> (res: OffsetPage)
        requires
            size != i64::MIN,
            self.offset + offset <= u64::MAX,
        ensures
            res == (OffsetPage {
                check_contest: self.ppk,
                contest_id: self.ppk as i128,
                desc: self.start_from_end != (size < 0),
                offset: (self.offset + offset) as u64,
                limit: (if size < 0 {
                    -size
                } else {
                    size as int
                }) as u64,
            }),
    {
        let dir = size < 0;
        let limit: u64 = if size < 0 {
            (-size) as u64
        } else {
            size as u64
        };
        OffsetPage {
            check_contest: self.ppk,
            contest_id: self.ppk as i128,
            desc: self.start_from_end ^ dir,
            offset: self.offset + offset,
            limit,
        }
    }

    /// Counts `count` more rows as served.
    pub fn record(&mut self, count: u64)
        requires
            old(self).offset + count <= u64::MAX,
        ensures
            final(self).offset == old(self).offset + count,
            final(self).ppk == old(self).ppk,
            final(self).start_from_end == old(self).start_from_end,
    {
        self.offset = self.offset + count;
    }

    /// The members left after those served, given how many the contest has.
    pub fn remain(&self, total: u64) -> (res: u64)
        ensures
            res == (if total >= self.offset {
                total - self.offset
            } else {
                0
            }),
    {
        total.saturating_sub(self.offset)
    }
}

/// The distance of an offset from zero, saturating at `i64::MAX`.
pub open spec fn saturating_distance(offset: i64) -> int {
    if offset == i64::MIN {
        i64::MAX as int
    } else if offset < 0 {
        -offset
    } else {
        offset as int
    }
}

/// The rate-limit cost of a list request: the page size, a fifth of the
/// distance of the offset, and two, capped at `u32::MAX`.
pub open spec fn spec_list_cost(size: u64, offset: i64) -> int {
    let raw = size + saturating_distance(offset) / 5 + 2;
    if raw <= u32::MAX {
        raw
    } else {
        u32::MAX as int
    }
}

/// The rate-limit cost of a list request.
pub fn list_cost(size: u64, offset: i64) -> (res: u32)
    requires
        size + saturating_distance(offset) / 5 + 2 <= u64::MAX,
    ensures
        res == spec_list_cost(size, offset),
{
    let dist: i64 = if offset == i64::MIN {
        i64::MAX
    } else if offset < 0 {
        -offset
    } else {
        offset
    };
    let raw: u64 = size + (dist as u64) / 5 + 2;
    if raw <= u32::MAX as u64 {
        raw as u32
    } else {
        u32::MAX
    }
}

/// Which paginator a new list request starts.
#[derive(Clone, Debug, PartialEq, Eq)]
pub enum ListChoice {
    /// A search for the text.
    Text(String),
    /// An order by the given sort key.
    Sort(i32),
    /// The children of the given parent.
    Parent(i32),
    /// The default order.
    Default,
}

/// A new list request searches by text when it has one, else sorts when it
/// names a key, else lists the children of a parent when it names one, else
/// uses the default order.
pub fn choose_paginator(text: Option<String>, sort_by: Option<i32>, parent: Option<i32>) -> (res: ListChoice)
    ensures
        res == (match text {
            Some(t) => ListChoice::Text(t),
            None => match sort_by {
                Some(s) => ListChoice::Sort(s),
                None => match parent {
                    Some(p) => ListChoice::Parent(p),
                    None => ListChoice::Default,
                },
            },
        }),
{
    if let Some(t) = text {
        ListChoice::Text(t)
    } else if let Some(s) = sort_by {
        ListChoice::Sort(s)
    } else if let Some(p) = parent {
        ListChoice::Parent(p)
    } else {
        ListChoice::Default
    }
}

} // verus!
