//! `py_each(object)`: the rows are the items of a Python iterable, collected
//! when the query starts.
use vstd::prelude::*;

use crate::index::{
    binds_input, input_plan_defined, plan_single_input, IndexConstraint, IndexPlan, IndexRefusal,
    ESTIMATED_ROWS, PLAN_IDX_NUM,
};

verus! {

/// The declaration of `py_each`'s table.
pub fn create_sql() -> (s: &'static str)
    ensures
        s@ == "CREATE TABLE x(value, object hidden)"@,
{
    "CREATE TABLE x(value, object hidden)"
}

/// The columns of `py_each`: `value` (visible) and `object` (hidden input).
#[derive(PartialEq, Eq, Structural, Clone, Copy, Debug)]
pub enum Columns {
    Value,
    Object,
}

/// Maps a column position of `py_each` to its column.
pub fn column(index: i32) -> (r: Option<Columns>)
    ensures
        index == 0 ==> r == Some(Columns::Value),
        index == 1 ==> r == Some(Columns::Object),
        index != 0 && index != 1 ==> r is None,
{
    match index {
        0 => Some(Columns::Value),
        1 => Some(Columns::Object),
        _ => None,
    }
}

/// The position of the hidden `object` column, the table's input.
pub const OBJECT_COLUMN: i32 = 1;

/// `py_each`'s planner.
pub struct PyEachTable;

impl PyEachTable {
    /// Plans a query on `py_each` (see `plan_single_input`): its input is
    /// the `object` column.
    pub fn best_index(cs: &Vec<IndexConstraint>) -> (r: Result<IndexPlan, IndexRefusal>)
        requires
            input_plan_defined(cs@, OBJECT_COLUMN),
        ensures
            r is Ok <==> cs@.len() > 0 && forall|k: int|
                0 <= k < cs@.len() ==> binds_input(#[trigger] cs@[k], OBJECT_COLUMN),
            r == Err::<IndexPlan, IndexRefusal>(IndexRefusal::Error) <==> cs@.len() == 0,
            r == Err::<IndexPlan, IndexRefusal>(IndexRefusal::Constraint) <==> exists|k: int|
                0 <= k < cs@.len() && !binds_input(#[trigger] cs@[k], OBJECT_COLUMN),
            r matches Ok(p) ==> {
                &&& p.argv_index@.len() == cs@.len()
                &&& forall|k: int| 0 <= k < cs@.len() ==> #[trigger] p.argv_index@[k] == Some(1i32)
                &&& p.estimated_rows == ESTIMATED_ROWS
                &&& p.idx_num == PLAN_IDX_NUM
            },
    {
        plan_single_input(cs, OBJECT_COLUMN)
    }
}

/// What a `py_each` cursor is: the current row number and, once the query
/// has started, the collected items.
pub struct EachCursorView<T> {
    pub rowid: int,
    pub values: Option<Seq<T>>,
}

/// A cursor at the start of a query over `items`.
pub open spec fn each_filtered<T>(items: Seq<T>) -> EachCursorView<T> {
    EachCursorView { rowid: 0, values: Some(items) }
}

/// A cursor moved to the next row.
pub open spec fn each_next<T>(v: EachCursorView<T>) -> EachCursorView<T> {
    EachCursorView { rowid: v.rowid + 1, values: v.values }
}

/// The cursor has passed the last item.
pub open spec fn each_eof<T>(v: EachCursorView<T>) -> bool {
    v.rowid >= v.values->0.len()
}

/// The item of the current row.
pub open spec fn each_item<T>(v: EachCursorView<T>) -> T {
    v.values->0[v.rowid]
}

/// A cursor after the start of a query over `items` and `k` moves to the
/// next row.
pub open spec fn each_after<T>(items: Seq<T>, k: nat) -> EachCursorView<T>
    decreases k,
{
    if k == 0 {
        each_filtered(items)
    } else {
        each_next(each_after(items, (k - 1) as nat))
    }
}

/// The cursor of `py_each`.
pub struct PyEachCursor<T> {
    rowid: i64,
    values: Option<Vec<T>>,
}

impl<T> View for PyEachCursor<T> {
    type V = EachCursorView<T>;

    closed spec fn view(&self) -> EachCursorView<T> {
        EachCursorView {
            rowid: self.rowid as int,
            values: match self.values {
                Some(v) => Some(v@),
                None => None,
            },
        }
    }
}

impl<T> PyEachCursor<T> {
    #[verifier::type_invariant]
    spec fn rowid_nonnegative(self) -> bool {
        self.rowid >= 0
    }

    /// A cursor before its first query.
    pub fn new() -> (c: Self)
        ensures
            c@.rowid == 0,
            c@.values is None,
    {
        PyEachCursor { rowid: 0, values: None }
    }

    /// Starts a query over the collected items: back to row 0.
    pub fn filter(&mut self, values: Vec<T>)
        ensures
            final(self)@ == each_filtered(values@),
            final(self)@.rowid == 0,
            final(self)@.values == Some(values@),
    {
        proof {
            use_type_invariant(&*self);
        }
        self.values = Some(values);
        self.rowid = 0;
    }

    /// Whether a query has started (the items are collected).
    pub fn started(&self) -> (r: bool)
        ensures
            r == (self@.values is Some),
    {
        self.values.is_some()
    }

    /// Moves to the next row.
    pub fn next(&mut self)
        requires
            old(self)@.rowid < i64::MAX,
        ensures
            final(self)@ == each_next(old(self)@),
            final(self)@.rowid == old(self)@.rowid + 1,
            final(self)@.values == old(self)@.values,
    {
        proof {
            use_type_invariant(&*self);
        }
        self.rowid = self.rowid + 1;
    }

    /// Whether the cursor has passed the last item.
    pub fn eof(&self) -> (r: bool)
        requires
            self@.values is Some,
        ensures
            r == each_eof(self@),
    {
        proof {
            use_type_invariant(self);
        }
        let len = self.values.as_ref().unwrap().len();
        (self.rowid as u64) >= (len as u64)
    }

    /// The item of the current row for column `i`: the item itself for
    /// `value`, nothing for a column that does not exist.
    pub fn column(&self, i: i32) -> (r: Option<&T>)
        requires
            i != 1,
            i == 0 ==> self@.values is Some && 0 <= self@.rowid < self@.values->0.len(),
        ensures
            i == 0 ==> r == Some(&each_item(self@)),
            i != 0 ==> r is None,
    {
        proof {
            use_type_invariant(self);
        }
        match column(i) {
            Some(Columns::Value) => {
                let values = self.values.as_ref().unwrap();
                // The row is below the number of items, a `usize`.
                let len = values.len();
                assert(self.rowid < len);
                let k = self.rowid as usize;
                Some(&values[k])
            },
            _ => None,
        }
    }

    /// The current row number.
    pub fn rowid(&self) -> (r: i64)
        ensures
            r == self@.rowid,
    {
        self.rowid
    }
}

} // verus!
