//! `py_module_functions(module)`: the functions of a Python module, given as
//! source code or as a module object, as rows `(name, value)`.
use vstd::prelude::*;

use crate::each::{each_eof, each_item, EachCursorView, PyEachCursor};
use crate::index::{
    binds_input, input_plan_defined, plan_single_input, IndexConstraint, IndexPlan, IndexRefusal,
    ESTIMATED_ROWS, PLAN_IDX_NUM,
};
use crate::utils::SqlValueType;

verus! {

/// The declaration of `py_module_functions`'s table.
pub fn create_sql() -> (s: &'static str)
    ensures
        s@ == "CREATE TABLE x(name, value, module hidden)"@,
{
    "CREATE TABLE x(name, value, module hidden)"
}

/// The columns of `py_module_functions`: `name`, `value` and the hidden
/// input `module`.
#[derive(PartialEq, Eq, Structural, Clone, Copy, Debug)]
pub enum Columns {
    Name,
    Value,
    Module,
}

/// Maps a column position of `py_module_functions` to its column.
pub fn column(index: i32) -> (r: Option<Columns>)
    ensures
        index == 0 ==> r == Some(Columns::Name),
        index == 1 ==> r == Some(Columns::Value),
        index == 2 ==> r == Some(Columns::Module),
        index < 0 || index > 2 ==> r is None,
{
    match index {
        0 => Some(Columns::Name),
        1 => Some(Columns::Value),
        2 => Some(Columns::Module),
        _ => None,
    }
}

/// The position of the hidden `module` column, the table's input.
pub const MODULE_COLUMN: i32 = 2;

/// `py_module_functions`'s planner.
pub struct PyModuleFunctionsTable;

impl PyModuleFunctionsTable {
    /// Plans a query on `py_module_functions` (see `plan_single_input`): its
    /// input is the `module` column.
    pub fn best_index(cs: &Vec<IndexConstraint>) -> (r: Result<IndexPlan, IndexRefusal>)
        requires
            input_plan_defined(cs@, MODULE_COLUMN),
        ensures
            r is Ok <==> cs@.len() > 0 && forall|k: int|
                0 <= k < cs@.len() ==> binds_input(#[trigger] cs@[k], MODULE_COLUMN),
            r == Err::<IndexPlan, IndexRefusal>(IndexRefusal::Error) <==> cs@.len() == 0,
            r == Err::<IndexPlan, IndexRefusal>(IndexRefusal::Constraint) <==> exists|k: int|
                0 <= k < cs@.len() && !binds_input(#[trigger] cs@[k], MODULE_COLUMN),
            r matches Ok(p) ==> {
                &&& p.argv_index@.len() == cs@.len()
                &&& forall|k: int| 0 <= k < cs@.len() ==> #[trigger] p.argv_index@[k] == Some(1i32)
                &&& p.estimated_rows == ESTIMATED_ROWS
                &&& p.idx_num == PLAN_IDX_NUM
            },
    {
        plan_single_input(cs, MODULE_COLUMN)
    }
}

/// How the `module` argument is read.
#[derive(PartialEq, Eq, Structural, Clone, Copy, Debug)]
pub enum ModuleInput {
    /// Python source code, loaded as a module.
    Code,
    /// A Python object (a module) carried by the value as a pointer.
    Object,
    /// Neither: the query fails.
    Invalid,
}

/// Reads the `module` argument: text (valid UTF-8) is source code, a null
/// carrying a Python object is that object, anything else is refused.
/// `text_is_utf8` is read for a text value only, and `carries_object` for a
/// null only.
pub fn module_input(value_type: SqlValueType, text_is_utf8: bool, carries_object: bool) -> (r:
    ModuleInput)
    ensures
        r == ModuleInput::Code <==> value_type == SqlValueType::Text && text_is_utf8,
        r == ModuleInput::Object <==> value_type == SqlValueType::Null && carries_object,
{
    match value_type {
        SqlValueType::Text => if text_is_utf8 {
            ModuleInput::Code
        } else {
            ModuleInput::Invalid
        },
        SqlValueType::Null => if carries_object {
            ModuleInput::Object
        } else {
            ModuleInput::Invalid
        },
        _ => ModuleInput::Invalid,
    }
}

/// The entries of a module that are listed: those whose value is callable,
/// as `(name, value)`, in the module's order.
pub open spec fn listed<T>(entries: Seq<(String, T, bool)>) -> Seq<(String, T)>
    decreases entries.len(),
{
    if entries.len() == 0 {
        Seq::empty()
    } else {
        let rest = listed(entries.drop_last());
        let e = entries.last();
        if e.2 {
            rest.push((e.0, e.1))
        } else {
            rest
        }
    }
}

/// The rows of a module: each entry `(name, value, callable)` of its
/// namespace whose value is callable becomes a row `(name, value)`.
pub fn listed_functions<T>(entries: Vec<(String, T, bool)>) -> (r: Vec<(String, T)>)
    ensures
        r@ == listed(entries@),
        r@ == callable_rows(entries@),
{
    let ghost all = entries@;
    let mut r: Vec<(String, T)> = Vec::new();
    for e in it: entries.into_iter()
        invariant
            it.seq() == all,
            r@ == listed(all.take(it.index() as int)),
    {
        proof {
            assert(all.take(it.index() + 1).drop_last() =~= all.take(it.index() as int));
        }
        let (name, value, callable) = e;
        if callable {
            r.push((name, value));
        }
    }
    proof {
        assert(all.take(all.len() as int) =~= all);
        law_listed_are_the_callables(all);
    }
    r
}

/// A cell of `py_module_functions`: the name, the value, or nothing (for the
/// hidden `module` column and columns that do not exist).
pub enum ModuleCell<'a, T> {
    Name(&'a String),
    Value(&'a T),
    Empty,
}

/// The cursor of `py_module_functions`: it walks the listed rows as `py_each`
/// walks its items.
pub struct PyModuleFunctionsCursor<T> {
    rows: PyEachCursor<(String, T)>,
}

impl<T> View for PyModuleFunctionsCursor<T> {
    type V = EachCursorView<(String, T)>;

    closed spec fn view(&self) -> EachCursorView<(String, T)> {
        self.rows@
    }
}

impl<T> PyModuleFunctionsCursor<T> {
    /// A cursor before its first query.
    pub fn new() -> (c: Self)
        ensures
            c@.rowid == 0,
            c@.values is None,
    {
        PyModuleFunctionsCursor { rows: PyEachCursor::new() }
    }

    /// Starts a query over the listed rows of a module: back to row 0.
    pub fn filter(&mut self, rows: Vec<(String, T)>)
        ensures
            final(self)@.rowid == 0,
            final(self)@.values == Some(rows@),
    {
        self.rows.filter(rows);
    }

    /// Whether a query has started.
    pub fn started(&self) -> (r: bool)
        ensures
            r == (self@.values is Some),
    {
        self.rows.started()
    }

    /// Moves to the next row.
    pub fn next(&mut self)
        requires
            old(self)@.rowid < i64::MAX,
        ensures
            final(self)@.rowid == old(self)@.rowid + 1,
            final(self)@.values == old(self)@.values,
    {
        self.rows.next();
    }

    /// Whether the cursor has passed the last row.
    pub fn eof(&self) -> (r: bool)
        requires
            self@.values is Some,
        ensures
            r == each_eof(self@),
    {
        self.rows.eof()
    }

    /// Column `i` of the current row.
    pub fn column(&self, i: i32) -> (r: ModuleCell<'_, T>)
        requires
            i == 0 || i == 1 ==> self@.values is Some && 0 <= self@.rowid
                < self@.values->0.len(),
        ensures
            i == 0 ==> (r matches ModuleCell::Name(n) && *n == each_item(self@).0),
            i == 1 ==> (r matches ModuleCell::Value(v) && *v == each_item(self@).1),
            i != 0 && i != 1 ==> r is Empty,
    {
        match column(i) {
            Some(Columns::Name) => {
                let row = self.rows.column(0).unwrap();
                ModuleCell::Name(&row.0)
            },
            Some(Columns::Value) => {
                let row = self.rows.column(0).unwrap();
                ModuleCell::Value(&row.1)
            },
            _ => ModuleCell::Empty,
        }
    }

    /// The current row number.
    pub fn rowid(&self) -> (r: i64)
        ensures
            r == self@.rowid,
    {
        self.rows.rowid()
    }
}

} // verus!

verus! {

/// The callable entries of a module's namespace, as `(name, value)` rows:
/// `entries` filtered by their callable flag, each stripped of the flag.
pub open spec fn callable_rows<T>(entries: Seq<(String, T, bool)>) -> Seq<(String, T)> {
    entries.filter(|e: (String, T, bool)| e.2).map_values(|e: (String, T, bool)| (e.0, e.1))
}

/// `py_module_functions` lists every callable entry of the module, in the
/// module's order, and nothing else: the listing is the namespace filtered
/// by callability. So the number of rows is the number of callable entries,
/// and row `i` is the `i`-th callable entry.
pub proof fn law_listed_are_the_callables<T>(entries: Seq<(String, T, bool)>)
    ensures
        listed(entries) == callable_rows(entries),
        listed(entries).len() == entries.filter(|e: (String, T, bool)| e.2).len(),
        forall|i: int|
            0 <= i < listed(entries).len() ==> #[trigger] listed(entries)[i] == (
                entries.filter(|e: (String, T, bool)| e.2)[i].0,
                entries.filter(|e: (String, T, bool)| e.2)[i].1,
            ),
    decreases entries.len(),
{
    let pred = |e: (String, T, bool)| e.2;
    let strip = |e: (String, T, bool)| (e.0, e.1);
    reveal(Seq::filter);
    if entries.len() > 0 {
        law_listed_are_the_callables(entries.drop_last());
        let sub = entries.drop_last().filter(pred);
        assert(entries.filter(pred) == (if pred(entries.last()) {
            sub.push(entries.last())
        } else {
            sub
        }));
        if pred(entries.last()) {
            assert(sub.push(entries.last()).map_values(strip) =~= sub.map_values(strip).push(
                strip(entries.last()),
            ));
        }
    } else {
        assert(entries.filter(pred) =~= Seq::<(String, T, bool)>::empty());
        assert(callable_rows(entries) =~= Seq::<(String, T)>::empty());
    }
}

} // verus!
