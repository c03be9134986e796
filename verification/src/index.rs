//! The shapes shared by the query planners of the table-valued functions:
//! what SQLite tells about each constraint of a query, and what the planner
//! answers.
use vstd::prelude::*;

verus! {

/// The row count that every table of this extension reports to SQLite's
/// planner; the estimated cost is the same number.
pub const ESTIMATED_ROWS: i64 = 100000;

/// The index number that every accepted plan carries.
pub const PLAN_IDX_NUM: i32 = 1;

/// One constraint of a query, as SQLite hands it to `xBestIndex`.
#[derive(Clone, Copy, Debug, PartialEq, Eq, Structural)]
pub struct IndexConstraint {
    /// The column the constraint is on (`-1` stands for the rowid).
    pub column_idx: i32,
    /// Whether SQLite can use the constraint in this plan.
    pub usable: bool,
    /// Whether the constraint's operator is `=`.
    pub is_eq: bool,
}

/// An accepted plan.
///
/// `argv_index[k]` is `Some(a)` where the value of constraint `k` is to be
/// passed to the cursor's filter as argument `a` (counted from 1) and the
/// constraint omitted from SQLite's own check; `None` leaves constraint `k`
/// to SQLite.
pub struct IndexPlan {
    pub argv_index: Vec<Option<i32>>,
    pub estimated_rows: i64,
    pub idx_num: i32,
}

/// Why a plan is refused: a needed constraint is not usable (`Constraint`,
/// so that SQLite tries another plan) or the query cannot be answered at all
/// (`Error`).
#[derive(Clone, Copy, Debug, PartialEq, Eq, Structural)]
pub enum IndexRefusal {
    Constraint,
    Error,
}

/// The plan of a table that answers every query by a full scan: no
/// constraint is consumed.
pub fn full_scan_plan(n_constraints: usize) -> (p: IndexPlan)
    ensures
        p.argv_index@.len() == n_constraints,
        forall|k: int| 0 <= k < n_constraints ==> #[trigger] p.argv_index@[k] is None,
        p.estimated_rows == ESTIMATED_ROWS,
        p.idx_num == PLAN_IDX_NUM,
{
    let mut argv_index: Vec<Option<i32>> = Vec::new();
    let mut k: usize = 0;
    while k < n_constraints
        invariant
            k <= n_constraints,
            argv_index@.len() == k,
            forall|j: int| 0 <= j < k ==> #[trigger] argv_index@[j] is None,
        decreases n_constraints - k,
    {
        argv_index.push(None);
        k = k + 1;
    }
    IndexPlan { argv_index, estimated_rows: ESTIMATED_ROWS, idx_num: PLAN_IDX_NUM }
}

/// A constraint that hands a table its input: a usable `=` on the hidden
/// input column `input`.
pub open spec fn binds_input(c: IndexConstraint, input: i32) -> bool {
    c.column_idx == input && c.usable && c.is_eq
}

/// A single-input planner is defined on a list of constraints unless the
/// first one that does not bind the input is on another column than the
/// input (a case it has no answer for).
pub open spec fn input_plan_defined(cs: Seq<IndexConstraint>, input: i32) -> bool {
    forall|k: int|
        0 <= k < cs.len() && !binds_input(#[trigger] cs[k], input) && (forall|j: int|
            0 <= j < k ==> binds_input(cs[j], input)) ==> cs[k].column_idx == input
}

/// Tells whether `plan_single_input` is defined on `cs`.
pub fn input_plan_is_defined(cs: &Vec<IndexConstraint>, input: i32) -> (r: bool)
    ensures
        r == input_plan_defined(cs@, input),
{
    let n = cs.len();
    let mut k: usize = 0;
    while k < n
        invariant
            n == cs@.len(),
            k <= n,
            forall|j: int| 0 <= j < k ==> binds_input(#[trigger] cs@[j], input),
        decreases n - k,
    {
        let c = cs[k];
        if !(c.column_idx == input && c.usable && c.is_eq) {
            let r = c.column_idx == input;
            proof {
                if !r {
                    assert(!binds_input(cs@[k as int], input));
                } else {
                    assert forall|k2: int|
                        0 <= k2 < cs@.len() && !binds_input(#[trigger] cs@[k2], input) && (forall|
                            j: int,
                        | 0 <= j < k2 ==> binds_input(cs@[j], input)) implies cs@[k2].column_idx
                        == input by {
                        if k2 > k {
                            assert(binds_input(cs@[k as int], input));
                        }
                    }
                }
            }
            return r;
        }
        k = k + 1;
    }
    true
}

/// Plans a query on a table whose single input is the hidden column
/// `input`: accepted when there is at least one constraint and every
/// constraint is a usable `=` on the input, each then passed as filter
/// argument 1; refused with `Constraint` when one is not, and with `Error`
/// when there is no constraint at all.
pub fn plan_single_input(cs: &Vec<IndexConstraint>, input: i32) -> (r: Result<
    IndexPlan,
    IndexRefusal,
>)
    requires
        input_plan_defined(cs@, input),
    ensures
        r is Ok <==> cs@.len() > 0 && forall|k: int|
            0 <= k < cs@.len() ==> binds_input(#[trigger] cs@[k], input),
        r == Err::<IndexPlan, IndexRefusal>(IndexRefusal::Error) <==> cs@.len() == 0,
        r == Err::<IndexPlan, IndexRefusal>(IndexRefusal::Constraint) <==> exists|k: int|
            0 <= k < cs@.len() && !binds_input(#[trigger] cs@[k], input),
        r matches Ok(p) ==> {
            &&& p.argv_index@.len() == cs@.len()
            &&& forall|k: int| 0 <= k < cs@.len() ==> #[trigger] p.argv_index@[k] == Some(1i32)
            &&& p.estimated_rows == ESTIMATED_ROWS
            &&& p.idx_num == PLAN_IDX_NUM
        },
{
    let mut argv_index: Vec<Option<i32>> = Vec::new();
    let n = cs.len();
    let mut k: usize = 0;
    while k < n
        invariant
            n == cs@.len(),
            k <= n,
            argv_index@.len() == k,
            forall|j: int| 0 <= j < k ==> binds_input(#[trigger] cs@[j], input),
            forall|j: int| 0 <= j < k ==> #[trigger] argv_index@[j] == Some(1i32),
        decreases n - k,
    {
        let c = cs[k];
        if c.column_idx == input && c.usable && c.is_eq {
            argv_index.push(Some(1));
        } else {
            return Err(IndexRefusal::Constraint);
        }
        k = k + 1;
    }
    if n == 0 {
        return Err(IndexRefusal::Error);
    }
    Ok(IndexPlan { argv_index, estimated_rows: ESTIMATED_ROWS, idx_num: PLAN_IDX_NUM })
}

} // verus!
