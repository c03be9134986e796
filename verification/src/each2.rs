//! `py_each2(object)`: like `py_each`, but the rows are pulled from the
//! Python iterator one at a time, while the query runs.
use vstd::prelude::*;

use crate::each::{each_after, each_eof, each_item};
use crate::index::{binds_input, input_plan_defined, plan_single_input};
use crate::index::{IndexConstraint, IndexPlan, IndexRefusal, ESTIMATED_ROWS, PLAN_IDX_NUM};

pub use crate::each::{column, create_sql, Columns, OBJECT_COLUMN};

verus! {

/// `py_each2`'s planner.
pub struct PyEachTable2;

impl PyEachTable2 {
    /// Plans a query on `py_each2`, as `py_each` does (see
    /// `plan_single_input`): its input is the `object` column.
    pub fn best_index(cs: &Vec<IndexConstraint>) -> (r: Result<IndexPlan, IndexRefusal>)
        requires
            input_plan_defined(cs@, OBJECT_COLUMN),
        ensures
            r is Ok <==> cs@.len() > 0 && forall|k: int|
                0 <= k < cs@.len() ==> binds_input(#[trigger] cs@[k], OBJECT_COLUMN),
            r == Err::<IndexPlan, IndexRefusal>(IndexRefusal::Error) <==> cs@.len() == 0,
            r == Err::<IndexPlan, IndexRefusal>(IndexRefusal::Constraint) <==> exists|k: int|
                0 <= k < cs@.len() && !binds_input(#[trigger] cs@[k], OBJECT_COLUMN),
            r matches Ok(p) ==> {
                &&& p.argv_index@.len() == cs@.len()
                &&& forall|k: int| 0 <= k < cs@.len() ==> #[trigger] p.argv_index@[k] == Some(1i32)
                &&& p.estimated_rows == ESTIMATED_ROWS
                &&& p.idx_num == PLAN_IDX_NUM
            },
    {
        plan_single_input(cs, OBJECT_COLUMN)
    }
}

/// What a `py_each2` cursor is: its row number, the iterator of the current
/// query and the current item.
pub struct Each2CursorView<T> {
    pub rowid: int,
    pub iterator: Option<T>,
    pub value: Option<T>,
}

/// A cursor at the start of a query over `iterator`, before its first item.
pub open spec fn each2_filtered<T>(iterator: T) -> Each2CursorView<T> {
    Each2CursorView { rowid: 0, iterator: Some(iterator), value: None }
}

/// A cursor moved to the next row, holding what the iterator yielded.
pub open spec fn each2_advance<T>(v: Each2CursorView<T>, item: Option<T>) -> Each2CursorView<T> {
    Each2CursorView { rowid: v.rowid + 1, iterator: v.iterator, value: item }
}

/// The iterator is exhausted.
pub open spec fn each2_eof<T>(v: Each2CursorView<T>) -> bool {
    v.value is None
}

/// The item of the current row.
pub open spec fn each2_item<T>(v: Each2CursorView<T>) -> T {
    v.value->0
}

/// What an iterator over `items` yields at its `j`-th call: the `j`-th item,
/// or nothing once the items are exhausted.
pub open spec fn yielded<T>(items: Seq<T>, j: int) -> Option<T> {
    if 0 <= j < items.len() {
        Some(items[j])
    } else {
        None
    }
}

/// A cursor after the start of a query over an iterator of `items`, its
/// first fetch, and `k` moves to the next row.
pub open spec fn each2_after<T>(iterator: T, items: Seq<T>, k: nat) -> Each2CursorView<T>
    decreases k,
{
    if k == 0 {
        each2_advance(each2_filtered(iterator), yielded(items, 0))
    } else {
        each2_advance(each2_after(iterator, items, (k - 1) as nat), yielded(items, k as int))
    }
}

/// The cursor of `py_each2`. `T` is the type of the Python objects it holds.
pub struct PyEachCursor2<T> {
    rowid: i64,
    iterator: Option<T>,
    value: Option<T>,
}

impl<T> View for PyEachCursor2<T> {
    type V = Each2CursorView<T>;

    closed spec fn view(&self) -> Each2CursorView<T> {
        Each2CursorView { rowid: self.rowid as int, iterator: self.iterator, value: self.value }
    }
}

impl<T> PyEachCursor2<T> {
    /// A cursor before its first query.
    pub fn new() -> (c: Self)
        ensures
            c@.rowid == 0,
            c@.iterator is None,
            c@.value is None,
    {
        PyEachCursor2 { rowid: 0, iterator: None, value: None }
    }

    /// Starts a query over `iterator`, at row 0, with no current item. A
    /// query's first item is fetched by the `advance` that follows, which
    /// brings the cursor to row 1.
    pub fn filter(&mut self, iterator: T)
        ensures
            final(self)@ == each2_filtered(iterator),
            final(self)@.iterator == Some(iterator),
            final(self)@.rowid == 0,
            final(self)@.value is None,
    {
        self.iterator = Some(iterator);
        self.rowid = 0;
        self.value = None;
    }

    /// Whether a query has started (there is an iterator).
    pub fn has_iterator(&self) -> (r: bool)
        ensures
            r == (self@.iterator is Some),
    {
        self.iterator.is_some()
    }

    /// The iterator that the next item is taken from.
    pub fn iterator(&self) -> (r: &T)
        requires
            self@.iterator is Some,
        ensures
            *r == self@.iterator->0,
    {
        self.iterator.as_ref().unwrap()
    }

    /// Moves to the next row, holding what the iterator yielded (`None`
    /// once it is exhausted).
    pub fn advance(&mut self, item: Option<T>)
        requires
            old(self)@.rowid < i64::MAX,
        ensures
            final(self)@ == each2_advance(old(self)@, item),
            final(self)@.iterator == old(self)@.iterator,
            final(self)@.rowid == old(self)@.rowid + 1,
            final(self)@.value == item,
    {
        self.rowid = self.rowid + 1;
        self.value = item;
    }

    /// Whether the iterator is exhausted.
    pub fn eof(&self) -> (r: bool)
        ensures
            r == each2_eof(self@),
    {
        self.value.is_none()
    }

    /// The item of the current row for column `i`: the item itself for
    /// `value`, nothing for a column that does not exist.
    pub fn column(&self, i: i32) -> (r: Option<&T>)
        requires
            i != 1,
            i == 0 ==> self@.value is Some,
        ensures
            i == 0 ==> r == Some(&each2_item(self@)),
            i != 0 ==> r is None,
    {
        match column(i) {
            Some(Columns::Value) => Some(self.value.as_ref().unwrap()),
            _ => None,
        }
    }

    /// The current row number.
    pub fn rowid(&self) -> (r: i64)
        ensures
            r == self@.rowid,
    {
        self.rowid
    }
}

} // verus!

verus! {

/// `py_each` and `py_each2` give the same rows: over the same items, after
/// the start of a query and `k` moves to the next row, both cursors are at
/// their end exactly when `k` reaches the number of items, and otherwise
/// both show item `k`. `py_each` numbers that row `k`, `py_each2` numbers it
/// `k + 1`.
pub proof fn law_each_and_each2_agree<T>(iterator: T, items: Seq<T>, k: nat)
    ensures
        each_after(items, k).rowid == k,
        each2_after(iterator, items, k).rowid == k + 1,
        each_eof(each_after(items, k)) == (k >= items.len()),
        each2_eof(each2_after(iterator, items, k)) == (k >= items.len()),
        k < items.len() ==> each_item(each_after(items, k)) == items[k as int] && each2_item(
            each2_after(iterator, items, k),
        ) == items[k as int],
    decreases k,
{
    if k > 0 {
        law_each_and_each2_agree(iterator, items, (k - 1) as nat);
    }
    assert(each_after(items, k).values == Some(items)) by {
        lemma_each_after_values(items, k);
    }
}

proof fn lemma_each_after_values<T>(items: Seq<T>, k: nat)
    ensures
        each_after(items, k).values == Some(items),
    decreases k,
{
    if k > 0 {
        lemma_each_after_values(items, (k - 1) as nat);
    }
}

} // verus!

verus! {

/// A query of `py_each2` pulls every row from the one iterator it started
/// with: after the start and any number of moves to the next row, the
/// cursor still holds that iterator, and it is at row `k + 1` holding the
/// `k`-th item the iterator yielded.
pub proof fn law_each2_keeps_its_iterator<T>(iterator: T, items: Seq<T>, k: nat)
    ensures
        each2_after(iterator, items, k).iterator == Some(iterator),
        each2_after(iterator, items, k).rowid == k + 1,
        each2_after(iterator, items, k).value == yielded(items, k as int),
    decreases k,
{
    if k > 0 {
        law_each2_keeps_its_iterator(iterator, items, (k - 1) as nat);
    }
}

} // verus!
