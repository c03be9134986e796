//! Table-valued functions defined in Python: a generator called with the
//! values of the required columns, whose yielded objects are the rows.
use vstd::prelude::*;

use crate::index::{IndexConstraint, IndexPlan, IndexRefusal, ESTIMATED_ROWS, PLAN_IDX_NUM};

verus! {

broadcast use vstd::std_specs::hash::group_hash_axioms;

/// A column of a table function defined in Python: its name (also the
/// attribute read from each yielded row), whether it is hidden, and whether
/// a query must constrain it with a usable `=` constraint.
pub struct AuxColumn {
    pub name: String,
    pub hidden: bool,
    pub required: bool,
}

/// What a table function is registered with: its table declaration, its
/// columns and its generator.
pub struct Aux<G> {
    pub sql: String,
    pub columns: Vec<AuxColumn>,
    pub generator: G,
}

/// A copy of a list of columns, field by field.
pub fn copy_columns(columns: &Vec<AuxColumn>) -> (r: Vec<AuxColumn>)
    ensures
        r@ == columns@,
{
    let mut r: Vec<AuxColumn> = Vec::new();
    let n = columns.len();
    let mut k: usize = 0;
    while k < n
        invariant
            n == columns@.len(),
            k <= n,
            r@ == columns@.subrange(0, k as int),
        decreases n - k,
    {
        let c = &columns[k];
        r.push(AuxColumn { name: c.name.clone(), hidden: c.hidden, required: c.required });
        k = k + 1;
    }
    assert(columns@.subrange(0, n as int) == columns@);
    r
}

/// A constraint that feeds a required column: a usable `=` on a required
/// column.
pub open spec fn feeds_required(cols: Seq<AuxColumn>, c: IndexConstraint) -> bool {
    c.usable && c.is_eq && cols[c.column_idx as int].required
}

/// How many of the first `k` constraints feed a required column.
pub open spec fn fed_before(cols: Seq<AuxColumn>, cs: Seq<IndexConstraint>, k: int) -> nat
    decreases k,
{
    if k <= 0 {
        0
    } else {
        fed_before(cols, cs, k - 1) + if feeds_required(cols, cs[k - 1]) {
            1nat
        } else {
            0nat
        }
    }
}

/// Column `i` has a usable `=` constraint among `cs`.
pub open spec fn constrained(cs: Seq<IndexConstraint>, i: int) -> bool {
    exists|j: int|
        0 <= j < cs.len() && #[trigger] cs[j].column_idx == i && cs[j].usable && cs[j].is_eq
}

/// Every required column has a usable `=` constraint.
pub open spec fn required_columns_constrained(
    cols: Seq<AuxColumn>,
    cs: Seq<IndexConstraint>,
) -> bool {
    forall|i: int| 0 <= i < cols.len() && #[trigger] cols[i].required ==> constrained(cs, i)
}

/// Every constraint is on a column of the table.
pub open spec fn constraints_on_columns(cols: Seq<AuxColumn>, cs: Seq<IndexConstraint>) -> bool {
    forall|k: int| 0 <= k < cs.len() ==> 0 <= #[trigger] cs[k].column_idx < cols.len()
}

/// The filter argument that constraint `k` becomes: the next free one,
/// counted from 1, when it feeds a required column.
pub open spec fn api_argv(cols: Seq<AuxColumn>, cs: Seq<IndexConstraint>, k: int) -> Option<i32> {
    if feeds_required(cols, cs[k]) {
        Some((1 + fed_before(cols, cs, k)) as i32)
    } else {
        None
    }
}

/// The table of a table function defined in Python, as its planner sees it.
pub struct PyApiTableBuilder {
    pub columns: Vec<AuxColumn>,
}

impl PyApiTableBuilder {
    /// Connects to a registered table function: its declaration and a table
    /// over a copy of its columns.
    pub fn connect<G>(aux: Option<&Aux<G>>) -> (r: (String, PyApiTableBuilder))
        requires
            aux is Some,
        ensures
            r.0@ == aux->0.sql@,
            r.1.columns@ == aux->0.columns@,
    {
        match aux {
            Some(aux) => (aux.sql.clone(), PyApiTableBuilder { columns: copy_columns(&aux.columns) }),
            None => (String::new(), PyApiTableBuilder { columns: Vec::new() }),
        }
    }

    /// Tells whether `best_index` is defined on `cs`: every constraint is on
    /// a column of the table, and fewer than `i32::MAX` of them feed a
    /// required column (so that their argument numbers fit in an `i32`).
    pub fn plan_is_defined(&self, cs: &Vec<IndexConstraint>) -> (r: bool)
        ensures
            r == (constraints_on_columns(self.columns@, cs@) && fed_before(
                self.columns@,
                cs@,
                cs@.len() as int,
            ) < i32::MAX),
    {
        let ghost cols = self.columns@;
        let n = cs.len();
        let m = self.columns.len();
        let mut fed: u64 = 0;
        let mut k: usize = 0;
        while k < n
            invariant
                n == cs@.len(),
                m == cols.len(),
                cols == self.columns@,
                k <= n,
                forall|j: int| 0 <= j < k ==> 0 <= #[trigger] cs@[j].column_idx < m,
                fed == fed_before(cols, cs@, k as int),
                fed <= k,
            decreases n - k,
        {
            let c = cs[k];
            if c.column_idx < 0 || (c.column_idx as usize) >= m {
                return false;
            }
            if c.usable && c.is_eq && self.columns[c.column_idx as usize].required {
                fed = fed + 1;
            }
            k = k + 1;
        }
        fed < i32::MAX as u64
    }

    /// Plans a query: each usable `=` constraint on a required column is passed
    /// to the generator, in the order of the constraints, as filter
    /// arguments 1, 2, ...; the plan is refused with `Constraint` when a
    /// required column has no usable `=` constraint.
    pub fn best_index(&self, cs: &Vec<IndexConstraint>) -> (r: Result<IndexPlan, IndexRefusal>)
        requires
            constraints_on_columns(self.columns@, cs@),
            fed_before(self.columns@, cs@, cs@.len() as int) < i32::MAX,
        ensures
            r is Ok <==> required_columns_constrained(self.columns@, cs@),
            r is Err ==> r == Err::<IndexPlan, IndexRefusal>(IndexRefusal::Constraint),
            r matches Ok(p) ==> {
                &&& p.argv_index@.len() == cs@.len()
                &&& forall|k: int|
                    0 <= k < cs@.len() ==> #[trigger] p.argv_index@[k] == api_argv(
                        self.columns@,
                        cs@,
                        k,
                    )
                &&& p.estimated_rows == ESTIMATED_ROWS
                &&& p.idx_num == PLAN_IDX_NUM
            },
    {
        let ghost cols = self.columns@;
        let mut fed: std::collections::HashSet<usize> = std::collections::HashSet::new();
        let mut argv: i32 = 1;
        let mut argv_index: Vec<Option<i32>> = Vec::new();
        let n = cs.len();
        let mut k: usize = 0;
        while k < n
            invariant
                n == cs@.len(),
                fed_before(cols, cs@, n as int) < i32::MAX,
                k <= n,
                cols == self.columns@,
                constraints_on_columns(cols, cs@),
                argv == 1 + fed_before(cols, cs@, k as int),
                argv_index@.len() == k,
                forall|j: int| 0 <= j < k ==> #[trigger] argv_index@[j] == api_argv(cols, cs@, j),
                forall|i: usize|
                    fed@.contains(i) <==> exists|j: int|
                        0 <= j < k && #[trigger] cs@[j].column_idx == i && feeds_required(
                            cols,
                            cs@[j],
                        ),
            decreases n - k,
        {
            proof {
                lemma_fed_before_monotonic(cols, cs@, k as int + 1, n as int);
            }
            let c = cs[k];
            let idx = c.column_idx as usize;
            let column = &self.columns[idx];
            if c.usable && c.is_eq && column.required {
                fed.insert(idx);
                argv_index.push(Some(argv));
                argv = argv + 1;
            } else {
                argv_index.push(None);
            }
            proof {
                assert forall|i: usize|
                    fed@.contains(i) <==> exists|j: int|
                        0 <= j < k + 1 && #[trigger] cs@[j].column_idx == i && feeds_required(
                            cols,
                            cs@[j],
                        ) by {
                    if fed@.contains(i) && i != idx {
                        let j = choose|j: int|
                            0 <= j < k && #[trigger] cs@[j].column_idx == i && feeds_required(
                                cols,
                                cs@[j],
                            );
                    }
                    if exists|j: int|
                        0 <= j < k + 1 && #[trigger] cs@[j].column_idx == i && feeds_required(
                            cols,
                            cs@[j],
                        ) {
                        let j = choose|j: int|
                            0 <= j < k + 1 && #[trigger] cs@[j].column_idx == i && feeds_required(
                                cols,
                                cs@[j],
                            );
                        if j < k {
                        } else {
                            assert(j == k);
                        }
                    }
                }
            }
            k = k + 1;
        }
        let m = self.columns.len();
        let mut i: usize = 0;
        while i < m
            invariant
                m == cols.len(),
                cols == self.columns@,
                i <= m,
                n == cs@.len(),
                forall|i: usize|
                    fed@.contains(i) <==> exists|j: int|
                        0 <= j < n && #[trigger] cs@[j].column_idx == i && feeds_required(
                            cols,
                            cs@[j],
                        ),
                forall|i2: int| 0 <= i2 < i && #[trigger] cols[i2].required ==> constrained(cs@, i2),
            decreases m - i,
        {
            if self.columns[i].required && !fed.contains(&i) {
                proof {
                    if constrained(cs@, i as int) {
                        let j = choose|j: int|
                            0 <= j < cs@.len() && #[trigger] cs@[j].column_idx == i as int
                                && cs@[j].usable && cs@[j].is_eq;
                        assert(feeds_required(cols, cs@[j]));
                        assert(fed@.contains(i));
                    }
                }
                return Err(IndexRefusal::Constraint);
            }
            proof {
                if cols[i as int].required {
                    assert(fed@.contains(i));
                    let j = choose|j: int|
                        0 <= j < n && #[trigger] cs@[j].column_idx == i && feeds_required(
                            cols,
                            cs@[j],
                        );
                    assert(constrained(cs@, i as int));
                }
            }
            i = i + 1;
        }
        Ok(IndexPlan { argv_index, estimated_rows: ESTIMATED_ROWS, idx_num: PLAN_IDX_NUM })
    }
}

} // verus!

verus! {

/// What a cursor of a Python table function is: its row number, its
/// columns, the iterator of the current query and the current row.
pub struct ApiCursorView<T> {
    pub rowid: int,
    pub columns: Seq<AuxColumn>,
    pub iterator: Option<T>,
    pub value: Option<T>,
}

/// The cursor of a table function defined in Python. `T` is the type of the
/// Python objects it holds (the iterator and the current row).
pub struct PyApiTableCursor<T> {
    rowid: i64,
    columns: Vec<AuxColumn>,
    iterator: Option<T>,
    value: Option<T>,
}

impl<T> View for PyApiTableCursor<T> {
    type V = ApiCursorView<T>;

    closed spec fn view(&self) -> ApiCursorView<T> {
        ApiCursorView {
            rowid: self.rowid as int,
            columns: self.columns@,
            iterator: self.iterator,
            value: self.value,
        }
    }
}

impl<T> PyApiTableCursor<T> {
    /// A cursor over the columns of `table`, before its first query.
    pub fn new(table: &PyApiTableBuilder) -> (c: Self)
        ensures
            c@.rowid == 0,
            c@.columns == table.columns@,
            c@.iterator is None,
            c@.value is None,
    {
        PyApiTableCursor {
            rowid: 0,
            columns: copy_columns(&table.columns),
            iterator: None,
            value: None,
        }
    }

    /// Starts a query over the iterator of the generator's result, with no
    /// current row. The query's first row is fetched by the `advance` that
    /// follows.
    pub fn filter(&mut self, iterator: T)
        ensures
            final(self)@.iterator == Some(iterator),
            final(self)@.rowid == 0,
            final(self)@.columns == old(self)@.columns,
            final(self)@.value is None,
    {
        self.iterator = Some(iterator);
        self.rowid = 0;
        self.value = None;
    }

    /// Whether a query has started (there is an iterator).
    pub fn has_iterator(&self) -> (r: bool)
        ensures
            r == (self@.iterator is Some),
    {
        self.iterator.is_some()
    }

    /// The number of columns.
    pub fn n_columns(&self) -> (r: usize)
        ensures
            r == self@.columns.len(),
    {
        self.columns.len()
    }

    /// The iterator that the next row is taken from.
    pub fn iterator(&self) -> (r: &T)
        requires
            self@.iterator is Some,
        ensures
            *r == self@.iterator->0,
    {
        self.iterator.as_ref().unwrap()
    }

    /// Records what the iterator yielded: the next row, or `None` once it
    /// is exhausted. The row number is left as it is.
    pub fn advance(&mut self, item: Option<T>)
        ensures
            final(self)@.value == item,
            final(self)@.rowid == old(self)@.rowid,
            final(self)@.columns == old(self)@.columns,
            final(self)@.iterator == old(self)@.iterator,
    {
        self.value = item;
    }

    /// Whether the iterator is exhausted.
    pub fn eof(&self) -> (r: bool)
        ensures
            r == (self@.value is None),
    {
        self.value.is_none()
    }

    /// What column `i` of the current row is read from: the attribute of the
    /// current row named after the column.
    pub fn column(&self, i: i32) -> (r: (&String, &T))
        requires
            0 <= i < self@.columns.len(),
            self@.value is Some,
        ensures
            r.0@ == self@.columns[i as int].name@,
            *r.1 == self@.value->0,
    {
        let c = &self.columns[i as usize];
        (&c.name, self.value.as_ref().unwrap())
    }

    /// The row number, which stays 0.
    pub fn rowid(&self) -> (r: i64)
        ensures
            r == self@.rowid,
    {
        self.rowid
    }
}

} // verus!

verus! {

proof fn lemma_fed_before_monotonic(
    cols: Seq<AuxColumn>,
    cs: Seq<IndexConstraint>,
    a: int,
    b: int,
)
    requires
        0 <= a <= b,
    ensures
        fed_before(cols, cs, a) <= fed_before(cols, cs, b),
    decreases b - a,
{
    if a < b {
        lemma_fed_before_monotonic(cols, cs, a, b - 1);
    }
}

/// The generator's arguments are numbered 1, 2, ... in the order of the
/// constraints that feed them: an earlier constraint gets a smaller number,
/// and every number is between 1 and the count of feeding constraints.
pub proof fn law_api_argv_in_order(cols: Seq<AuxColumn>, cs: Seq<IndexConstraint>)
    requires
        fed_before(cols, cs, cs.len() as int) < i32::MAX,
    ensures
        forall|k1: int, k2: int|
            0 <= k1 < k2 < cs.len() && api_argv(cols, cs, k1) is Some && api_argv(cols, cs, k2)
                is Some ==> (#[trigger] api_argv(cols, cs, k1))->0 < (#[trigger] api_argv(
                cols,
                cs,
                k2,
            ))->0,
        forall|k: int|
            0 <= k < cs.len() && #[trigger] api_argv(cols, cs, k) is Some ==> 1 <= api_argv(
                cols,
                cs,
                k,
            )->0 <= fed_before(cols, cs, cs.len() as int),
{
    assert forall|k1: int, k2: int|
        0 <= k1 < k2 < cs.len() && api_argv(cols, cs, k1) is Some && api_argv(cols, cs, k2)
            is Some implies (#[trigger] api_argv(cols, cs, k1))->0 < (#[trigger] api_argv(
        cols,
        cs,
        k2,
    ))->0 by {
        lemma_fed_before_monotonic(cols, cs, k1 + 1, k2);
        lemma_fed_before_monotonic(cols, cs, k2 + 1, cs.len() as int);
    }
    assert forall|k: int|
        0 <= k < cs.len() && #[trigger] api_argv(cols, cs, k) is Some implies 1 <= api_argv(
        cols,
        cs,
        k,
    )->0 <= fed_before(cols, cs, cs.len() as int) by {
        lemma_fed_before_monotonic(cols, cs, k + 1, cs.len() as int);
    }
}

} // verus!
