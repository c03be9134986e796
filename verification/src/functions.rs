//! `py_functions`: a writable table of SQL functions implemented by Python
//! callables. Inserting a row `(name, function)` defines the SQL function,
//! deleting the row removes it.
use vstd::prelude::*;

use std::collections::HashMap;

use crate::index::{full_scan_plan, IndexPlan, ESTIMATED_ROWS, PLAN_IDX_NUM};

verus! {

broadcast use vstd::std_specs::hash::group_hash_axioms;

/// The declaration of `py_functions`'s table.
pub fn create_sql() -> (s: &'static str)
    ensures
        s@ == "CREATE TABLE x(name text, function hidden)"@,
{
    "CREATE TABLE x(name text, function hidden)"
}

/// The columns of `py_functions`: `name` and the hidden `function`.
#[derive(PartialEq, Eq, Structural, Clone, Copy, Debug)]
pub enum Columns {
    Name,
    Function,
}

/// Maps a column position of `py_functions` to its column.
pub fn column(index: i32) -> (r: Option<Columns>)
    ensures
        index == 0 ==> r == Some(Columns::Name),
        index == 1 ==> r == Some(Columns::Function),
        index != 0 && index != 1 ==> r is None,
{
    match index {
        0 => Some(Columns::Name),
        1 => Some(Columns::Function),
        _ => None,
    }
}

/// Where the name and the function are among the values of an inserted
/// row: at the positions of their columns, when the row has them. Rows of
/// more values than columns are not handled.
pub struct InsertLayout {
    pub name: Option<usize>,
    pub function: Option<usize>,
}

/// The layout of an inserted row of `n_values` values.
pub fn insert_layout(n_values: usize) -> (r: InsertLayout)
    requires
        n_values <= 2,
    ensures
        r.name == (if n_values >= 1 {
            Some(0usize)
        } else {
            None::<usize>
        }),
        r.function == (if n_values >= 2 {
            Some(1usize)
        } else {
            None::<usize>
        }),
{
    let mut layout = InsertLayout { name: None, function: None };
    let mut idx: usize = 0;
    while idx < n_values
        invariant
            idx <= n_values <= 2,
            layout.name == (if idx >= 1 {
                Some(0usize)
            } else {
                None::<usize>
            }),
            layout.function == (if idx >= 2 {
                Some(1usize)
            } else {
                None::<usize>
            }),
        decreases n_values - idx,
    {
        match column(idx as i32) {
            Some(Columns::Name) => {
                layout.name = Some(idx);
            },
            Some(Columns::Function) => {
                layout.function = Some(idx);
            },
            None => {},
        }
        idx = idx + 1;
    }
    layout
}

/// The argument count that a function is deleted with when its row is
/// deleted, whatever count it was defined with.
pub const DELETE_N_ARGS: i32 = 1;

/// What the table holds: the key the next inserted function gets, and the
/// defined functions by key.
pub struct FunctionsView<F> {
    pub rowid: int,
    pub defined: Map<i64, (String, F)>,
}

/// The registry is well formed: its next key is not negative, its keys are
/// below the next key, and it holds finitely many functions.
pub open spec fn registry_wf<F>(v: FunctionsView<F>) -> bool {
    &&& 0 <= v.rowid <= i64::MAX
    &&& v.defined.dom().finite()
    &&& forall|k: i64| #[trigger] v.defined.contains_key(k) ==> 0 <= k < v.rowid
}

/// The registry after defining `name` by `func`: the function gets the next
/// key.
pub open spec fn registry_insert<F>(v: FunctionsView<F>, name: String, func: F) -> FunctionsView<F> {
    FunctionsView { rowid: v.rowid + 1, defined: v.defined.insert(v.rowid as i64, (name, func)) }
}

/// The registry after removing the function of key `k`.
pub open spec fn registry_remove<F>(v: FunctionsView<F>, k: i64) -> FunctionsView<F> {
    FunctionsView { rowid: v.rowid, defined: v.defined.remove(k) }
}

/// The functions of `py_functions`, by the key they were inserted under.
/// `F` is the type of the Python callables.
pub struct PyFunctionsTable<F> {
    rowid: i64,
    defined: HashMap<i64, (String, F)>,
}

impl<F> View for PyFunctionsTable<F> {
    type V = FunctionsView<F>;

    closed spec fn view(&self) -> FunctionsView<F> {
        FunctionsView { rowid: self.rowid as int, defined: self.defined@ }
    }
}

impl<F> PyFunctionsTable<F> {
    #[verifier::type_invariant]
    spec fn keys_below_rowid(self) -> bool {
        &&& self.rowid >= 0
        &&& forall|k: i64| #[trigger] self.defined@.contains_key(k) ==> 0 <= k < self.rowid
    }

    /// An empty table.
    pub fn new() -> (t: Self)
        ensures
            t@.rowid == 0,
            t@.defined == Map::<i64, (String, F)>::empty(),
            registry_wf(t@),
    {
        PyFunctionsTable { rowid: 0, defined: HashMap::new() }
    }

    /// Defines `name` by `func` under the next key, and returns that key.
    pub fn insert(&mut self, name: String, func: F) -> (key: i64)
        requires
            old(self)@.rowid < i64::MAX,
        ensures
            key == old(self)@.rowid,
            !old(self)@.defined.contains_key(key),
            final(self)@ == registry_insert(old(self)@, name, func),
            registry_wf(final(self)@),
    {
        proof {
            use_type_invariant(&*self);
        }
        let key = self.rowid;
        let ghost old_defined = self.defined@;
        let mut defined = HashMap::new();
        std::mem::swap(&mut defined, &mut self.defined);
        defined.insert(key, (name, func));
        self.rowid = self.rowid + 1;
        self.defined = defined;
        proof {
            assert(self@.defined == old_defined.insert(key, (name, func)));
            use_type_invariant(&*self);
        }
        key
    }

    /// The key that the next inserted function gets.
    pub fn next_key(&self) -> (r: i64)
        ensures
            r == self@.rowid,
    {
        self.rowid
    }

    /// Whether a function is defined under `key`.
    pub fn contains(&self, key: i64) -> (r: bool)
        ensures
            r == self@.defined.contains_key(key),
    {
        self.defined.contains_key(&key)
    }

    /// The name of the function defined under `key`.
    pub fn function_name(&self, key: i64) -> (r: &String)
        requires
            self@.defined.contains_key(key),
        ensures
            *r == self@.defined[key].0,
    {
        &self.defined.get(&key).unwrap().0
    }

    /// Forgets the function defined under `key`, if any.
    pub fn remove(&mut self, key: i64)
        ensures
            final(self)@ == registry_remove(old(self)@, key),
            registry_wf(final(self)@),
    {
        proof {
            use_type_invariant(&*self);
        }
        let mut defined = HashMap::new();
        std::mem::swap(&mut defined, &mut self.defined);
        defined.remove(&key);
        self.defined = defined;
        proof {
            use_type_invariant(&*self);
        }
    }

    /// Ends the deletion of the row `key`: the function is forgotten when
    /// SQLite deleted it (`deleted`), and the registry is left unchanged when
    /// that failed.
    pub fn finish_delete(&mut self, key: i64, deleted: bool)
        ensures
            deleted ==> final(self)@ == registry_remove(old(self)@, key),
            !deleted ==> final(self)@ == old(self)@,
            registry_wf(final(self)@),
    {
        proof {
            use_type_invariant(&*self);
        }
        if deleted {
            self.remove(key);
        }
    }

    /// How many functions are defined.
    pub fn len(&self) -> (r: usize)
        ensures
            r == self@.defined.len(),
    {
        self.defined.len()
    }

    /// The plan of every query: a full scan.
    pub fn best_index(n_constraints: usize) -> (p: IndexPlan)
        ensures
            p.argv_index@.len() == n_constraints,
            forall|k: int| 0 <= k < n_constraints ==> #[trigger] p.argv_index@[k] is None,
            p.estimated_rows == ESTIMATED_ROWS,
            p.idx_num == PLAN_IDX_NUM,
    {
        full_scan_plan(n_constraints)
    }

    /// A cursor over the table, at row 0.
    pub fn open<'a>(&'a self) -> (c: PyFunctionsCursor<'a, F>)
        ensures
            c@.rowid == 0,
            c@.defined == self@.defined,
    {
        PyFunctionsCursor { rowid: 0, defined: &self.defined }
    }
}

/// What a `py_functions` cursor is: its row number and the functions it
/// reads.
pub struct FunctionsCursorView<F> {
    pub rowid: int,
    pub defined: Map<i64, (String, F)>,
}

/// The cursor of `py_functions`: row `r` is the function inserted under key
/// `r`.
pub struct PyFunctionsCursor<'a, F> {
    rowid: i64,
    defined: &'a HashMap<i64, (String, F)>,
}

/// A cell of `py_functions`: the name, the callable, or nothing for a
/// column that does not exist.
pub enum FunctionsCell<'a, F> {
    Name(&'a String),
    Function(&'a F),
    Empty,
}

impl<'a, F> View for PyFunctionsCursor<'a, F> {
    type V = FunctionsCursorView<F>;

    closed spec fn view(&self) -> FunctionsCursorView<F> {
        FunctionsCursorView { rowid: self.rowid as int, defined: self.defined@ }
    }
}

impl<'a, F> PyFunctionsCursor<'a, F> {
    #[verifier::type_invariant]
    spec fn rowid_nonnegative(self) -> bool {
        self.rowid >= 0
    }

    /// Starts a query: back to row 0.
    pub fn filter(&mut self)
        ensures
            final(self)@.rowid == 0,
            final(self)@.defined == old(self)@.defined,
    {
        self.rowid = 0;
    }

    /// Moves to the next row.
    pub fn next(&mut self)
        requires
            old(self)@.rowid < i64::MAX,
        ensures
            final(self)@.rowid == old(self)@.rowid + 1,
            final(self)@.defined == old(self)@.defined,
    {
        proof {
            use_type_invariant(&*self);
        }
        self.rowid = self.rowid + 1;
    }

    /// Whether the row number has reached the number of functions.
    pub fn eof(&self) -> (r: bool)
        ensures
            r == (self@.rowid >= self@.defined.len()),
    {
        proof {
            use_type_invariant(self);
        }
        let len = self.defined.len();
        (self.rowid as u64) >= (len as u64)
    }

    /// Whether a function is defined under the current row number.
    pub fn row_defined(&self) -> (r: bool)
        ensures
            r == self@.defined.contains_key(self@.rowid as i64),
    {
        self.defined.contains_key(&self.rowid)
    }

    /// Column `i` of the current row, which is the function under the key
    /// equal to the row number.
    pub fn column(&self, i: i32) -> (r: FunctionsCell<'a, F>)
        requires
            self@.defined.contains_key(self@.rowid as i64),
        ensures
            i == 0 ==> (r matches FunctionsCell::Name(n) && *n == self@.defined[self@.rowid as i64].0),
            i == 1 ==> (r matches FunctionsCell::Function(f) && *f
                == self@.defined[self@.rowid as i64].1),
            i != 0 && i != 1 ==> r is Empty,
    {
        let entry: &'a (String, F) = self.defined.get(&self.rowid).unwrap();
        match column(i) {
            Some(Columns::Name) => FunctionsCell::Name(&entry.0),
            Some(Columns::Function) => FunctionsCell::Function(&entry.1),
            None => FunctionsCell::Empty,
        }
    }

    /// The current row number.
    pub fn rowid(&self) -> (r: i64)
        ensures
            r == self@.rowid,
    {
        self.rowid
    }
}

} // verus!

verus! {

/// Defining a function and reading it back: the function is found under the
/// key it was given, with the name and callable it was defined by; every
/// other function is left as it was; the registry stays well formed; and the
/// key is above every key given before.
pub proof fn law_insert_then_read<F>(v: FunctionsView<F>, name: String, func: F)
    requires
        registry_wf(v),
        v.rowid < i64::MAX,
    ensures
        ({
            let w = registry_insert(v, name, func);
            &&& registry_wf(w)
            &&& w.defined.contains_key(v.rowid as i64)
            &&& w.defined[v.rowid as i64] == (name, func)
            &&& forall|k: i64| k != v.rowid ==> #[trigger] w.defined.contains_key(k)
                == v.defined.contains_key(k) && (v.defined.contains_key(k) ==> w.defined[k]
                == v.defined[k])
            &&& forall|k: i64| #[trigger] v.defined.contains_key(k) ==> k < v.rowid
        }),
{
}

/// Removing the function just defined gives back the registry's functions
/// as they were before.
pub proof fn law_remove_undoes_insert<F>(v: FunctionsView<F>, name: String, func: F)
    requires
        registry_wf(v),
        v.rowid < i64::MAX,
    ensures
        registry_remove(registry_insert(v, name, func), v.rowid as i64).defined == v.defined,
{
    assert(!v.defined.contains_key(v.rowid as i64));
    assert(registry_remove(registry_insert(v, name, func), v.rowid as i64).defined =~= v.defined);
}

/// A registry in which nothing has been removed: it holds exactly the keys
/// below its next key.
pub open spec fn insert_only<F>(v: FunctionsView<F>) -> bool {
    &&& registry_wf(v)
    &&& forall|k: i64| 0 <= k < v.rowid ==> #[trigger] v.defined.contains_key(k)
    &&& v.defined.len() == v.rowid
}

/// While nothing has been removed, the cursor finds a function under every
/// row number before its end: the empty registry has no removals, and
/// defining a function keeps it so.
pub proof fn law_rows_readable_without_removal<F>(v: FunctionsView<F>, name: String, func: F)
    requires
        insert_only(v),
    ensures
        forall|r: int| 0 <= r < v.defined.len() ==> #[trigger] v.defined.contains_key(r as i64),
        v.rowid < i64::MAX ==> insert_only(registry_insert(v, name, func)),
        insert_only(FunctionsView { rowid: 0, defined: Map::<i64, (String, F)>::empty() }),
{
    assert forall|r: int| 0 <= r < v.defined.len() implies #[trigger] v.defined.contains_key(
        r as i64,
    ) by {
        assert(v.defined.contains_key(r as i64));
    }
    if v.rowid < i64::MAX {
        let w = registry_insert(v, name, func);
        assert(!v.defined.contains_key(v.rowid as i64));
        assert(w.defined.dom() == v.defined.dom().insert(v.rowid as i64));
    }
    assert(Map::<i64, (String, F)>::empty().dom() =~= Set::<i64>::empty());
}

} // verus!
