//! `py_define`: a writable table whose inserted rows are Python source code.
//! Each inserted block becomes a module of its own; its scalar functions and
//! table functions are then defined in SQLite.
use vstd::prelude::*;

use crate::index::{full_scan_plan, IndexPlan, ESTIMATED_ROWS, PLAN_IDX_NUM};

verus! {

/// The declaration of `py_define`'s table.
pub fn create_sql() -> (s: &'static str)
    ensures
        s@ == "CREATE TABLE x(code hidden)"@,
{
    "CREATE TABLE x(code hidden)"
}

/// The only column of `py_define`: the hidden `code`.
#[derive(PartialEq, Eq, Structural, Clone, Copy, Debug)]
pub enum Columns {
    Code,
}

/// Maps a column position of `py_define` to its column.
pub fn column(index: i32) -> (r: Option<Columns>)
    ensures
        index == 0 ==> r == Some(Columns::Code),
        index != 0 ==> r is None,
{
    match index {
        0 => Some(Columns::Code),
        _ => None,
    }
}

/// Where the code is among the values of an inserted row: at the position of
/// the `code` column, if the row has one. Rows of more values than columns
/// are not handled.
pub fn code_index(n_values: usize) -> (r: Option<usize>)
    requires
        n_values <= 1,
    ensures
        r == (if n_values == 1 {
            Some(0usize)
        } else {
            None::<usize>
        }),
{
    let mut code: Option<usize> = None;
    let mut idx: usize = 0;
    while idx < n_values
        invariant
            idx <= n_values <= 1,
            code == (if idx == 1 {
                Some(0usize)
            } else {
                None::<usize>
            }),
        decreases n_values - idx,
    {
        match column(idx as i32) {
            Some(Columns::Code) => {
                code = Some(idx);
            },
            None => {},
        }
        idx = idx + 1;
    }
    code
}

/// The decimal digit `d` as a character.
pub open spec fn digit_char(d: nat) -> char {
    if d == 0 {
        '0'
    } else if d == 1 {
        '1'
    } else if d == 2 {
        '2'
    } else if d == 3 {
        '3'
    } else if d == 4 {
        '4'
    } else if d == 5 {
        '5'
    } else if d == 6 {
        '6'
    } else if d == 7 {
        '7'
    } else if d == 8 {
        '8'
    } else {
        '9'
    }
}

/// The decimal notation of `n`, without leading zeros.
pub open spec fn decimal(n: nat) -> Seq<char>
    decreases n,
{
    if n < 10 {
        seq![digit_char(n)]
    } else {
        decimal(n / 10).push(digit_char(n % 10))
    }
}

/// The one-character text of the digit `d`.
fn digit_text(d: u64) -> (s: &'static str)
    requires
        d < 10,
    ensures
        s@ == seq![digit_char(d as nat)],
{
    match d {
        0 => {
            proof {
                reveal_strlit("0");
            }
            "0"
        },
        1 => {
            proof {
                reveal_strlit("1");
            }
            "1"
        },
        2 => {
            proof {
                reveal_strlit("2");
            }
            "2"
        },
        3 => {
            proof {
                reveal_strlit("3");
            }
            "3"
        },
        4 => {
            proof {
                reveal_strlit("4");
            }
            "4"
        },
        5 => {
            proof {
                reveal_strlit("5");
            }
            "5"
        },
        6 => {
            proof {
                reveal_strlit("6");
            }
            "6"
        },
        7 => {
            proof {
                reveal_strlit("7");
            }
            "7"
        },
        8 => {
            proof {
                reveal_strlit("8");
            }
            "8"
        },
        _ => {
            proof {
                reveal_strlit("9");
            }
            "9"
        },
    }
}

/// Appends the decimal notation of `n` to `s`.
pub fn append_decimal(s: &mut String, n: u64)
    ensures
        final(s)@ == old(s)@ + decimal(n as nat),
    decreases n,
{
    if n >= 10 {
        append_decimal(s, n / 10);
    }
    s.append(digit_text(n % 10));
    proof {
        if n >= 10 {
            assert(decimal(n as nat) == decimal((n / 10) as nat).push(digit_char((n % 10) as nat)));
        }
    }
}

/// The name of the module that the code inserted as row `rowid` is loaded
/// as: `m` followed by the row number.
pub open spec fn module_name(rowid: nat) -> Seq<char> {
    seq!['m'] + decimal(rowid)
}

/// The notation of a number has at least one digit.
proof fn lemma_decimal_nonempty(n: nat)
    ensures
        decimal(n).len() >= 1,
    decreases n,
{
    if n >= 10 {
        lemma_decimal_nonempty(n / 10);
    }
}

/// Different numbers have different notations.
pub proof fn lemma_decimal_injective(a: nat, b: nat)
    requires
        decimal(a) == decimal(b),
    ensures
        a == b,
    decreases a,
{
    if a < 10 && b < 10 {
        assert(decimal(a)[0] == digit_char(a));
        assert(decimal(b)[0] == digit_char(b));
    } else if a < 10 {
        lemma_decimal_nonempty(b / 10);
        assert(decimal(b).len() >= 2);
    } else if b < 10 {
        lemma_decimal_nonempty(a / 10);
        assert(decimal(a).len() >= 2);
    } else {
        let da = decimal(a / 10);
        let db = decimal(b / 10);
        assert(decimal(a).last() == digit_char(a % 10));
        assert(decimal(b).last() == digit_char(b % 10));
        assert(a % 10 == b % 10);
        assert(decimal(a).drop_last() =~= da);
        assert(decimal(b).drop_last() =~= db);
        lemma_decimal_injective(a / 10, b / 10);
    }
}

/// Every block of code is loaded as a module of its own: different rows give
/// different module names.
pub proof fn law_module_names_distinct(r1: nat, r2: nat)
    requires
        r1 != r2,
    ensures
        module_name(r1) != module_name(r2),
{
    if module_name(r1) == module_name(r2) {
        assert(decimal(r1) =~= module_name(r1).drop_first());
        assert(decimal(r2) =~= module_name(r2).drop_first());
        lemma_decimal_injective(r1, r2);
    }
}

/// What a Python object found in a loaded module stands for.
#[derive(PartialEq, Eq, Structural, Clone, Copy, Debug)]
pub enum ItemKind {
    /// A scalar function to define (it has a `scalar_function` attribute).
    Scalar,
    /// A table function to define (it has a `table_function` attribute).
    Table,
    /// Anything else, which is left alone.
    Other,
}

/// Tells what a module item stands for; an item marked both ways is a
/// scalar function.
pub fn classify_item(has_scalar_function: bool, has_table_function: bool) -> (r: ItemKind)
    ensures
        has_scalar_function ==> r == ItemKind::Scalar,
        !has_scalar_function && has_table_function ==> r == ItemKind::Table,
        !has_scalar_function && !has_table_function ==> r == ItemKind::Other,
{
    if has_scalar_function {
        ItemKind::Scalar
    } else if has_table_function {
        ItemKind::Table
    } else {
        ItemKind::Other
    }
}

/// The argument counts a scalar function is defined with: from its number
/// of required arguments up to that number plus its number of optional
/// ones, each once, in increasing order (none when the optional count is
/// negative).
pub fn scalar_arities(argc_required: i32, argc_optional: i32) -> (r: Vec<i32>)
    requires
        argc_optional < i32::MAX,
        argc_optional >= 0 ==> argc_required + argc_optional <= i32::MAX,
    ensures
        r@.len() == (if argc_optional >= 0 {
            argc_optional + 1
        } else {
            0
        }),
        forall|i: int| 0 <= i < r@.len() ==> #[trigger] r@[i] == argc_required + i,
{
    let mut r: Vec<i32> = Vec::new();
    let end = argc_optional + 1;
    let mut i: i32 = 0;
    while i < end
        invariant
            end == argc_optional + 1,
            argc_optional >= 0 ==> argc_required + argc_optional <= i32::MAX,
            0 <= i,
            end >= 0 ==> i <= end,
            end < 0 ==> i == 0,
            r@.len() == i,
            forall|j: int| 0 <= j < r@.len() ==> #[trigger] r@[j] == argc_required + j,
        decreases end - i,
    {
        r.push(argc_required + i);
        i = i + 1;
    }
    r
}

/// Every argument count from the required count to the required plus the
/// optional count is defined exactly once, and no other.
pub proof fn law_scalar_arities_exact(arities: Seq<i32>, argc_required: i32, argc_optional: i32)
    requires
        argc_optional >= 0,
        arities.len() == argc_optional + 1,
        forall|i: int| 0 <= i < arities.len() ==> #[trigger] arities[i] == argc_required + i,
    ensures
        forall|a: i32|
            argc_required <= a <= argc_required + argc_optional <==> #[trigger] arities.contains(a),
        forall|i: int, j: int|
            0 <= i < arities.len() && 0 <= j < arities.len() && i != j ==> arities[i]
                != arities[j],
{
    assert forall|a: i32|
        argc_required <= a <= argc_required + argc_optional implies #[trigger] arities.contains(
            a,
        ) by {
        assert(arities[a - argc_required] == a);
    }
}

/// What `py_define` remembers: the number of code blocks inserted so far.
pub struct PyDefineTable {
    rowid: i64,
}

impl View for PyDefineTable {
    type V = int;

    closed spec fn view(&self) -> int {
        self.rowid as int
    }
}

impl PyDefineTable {
    #[verifier::type_invariant]
    spec fn rowid_nonnegative(self) -> bool {
        self.rowid >= 0
    }

    /// A table into which nothing has been inserted.
    pub fn new() -> (t: Self)
        ensures
            t@ == 0,
    {
        PyDefineTable { rowid: 0 }
    }

    /// The number of blocks inserted so far.
    pub fn inserted(&self) -> (r: i64)
        ensures
            r == self@,
    {
        self.rowid
    }

    /// Counts one more inserted block of code, and returns the name of the
    /// module it is loaded as.
    pub fn next_module_name(&mut self) -> (name: String)
        requires
            old(self)@ < i64::MAX,
        ensures
            final(self)@ == old(self)@ + 1,
            name@ == module_name(final(self)@ as nat),
    {
        proof {
            use_type_invariant(&*self);
        }
        self.rowid = self.rowid + 1;
        let mut name = String::new();
        proof {
            reveal_strlit("m");
        }
        name.append("m");
        append_decimal(&mut name, self.rowid as u64);
        name
    }

    /// The plan of every query: a full scan.
    pub fn best_index(n_constraints: usize) -> (p: IndexPlan)
        ensures
            p.argv_index@.len() == n_constraints,
            forall|k: int| 0 <= k < n_constraints ==> #[trigger] p.argv_index@[k] is None,
            p.estimated_rows == ESTIMATED_ROWS,
            p.idx_num == PLAN_IDX_NUM,
    {
        full_scan_plan(n_constraints)
    }
}

/// The cursor of `py_define`, which has no rows.
pub struct PyDefineCursor {
    rowid: i64,
}

impl View for PyDefineCursor {
    type V = int;

    closed spec fn view(&self) -> int {
        self.rowid as int
    }
}

impl PyDefineCursor {
    /// A cursor at row 0.
    pub fn new() -> (c: Self)
        ensures
            c@ == 0,
    {
        PyDefineCursor { rowid: 0 }
    }

    /// Starts a query: back to row 0.
    pub fn filter(&mut self)
        ensures
            final(self)@ == 0,
    {
        self.rowid = 0;
    }

    /// Moves to the next row.
    pub fn next(&mut self)
        requires
            old(self)@ < i64::MAX,
        ensures
            final(self)@ == old(self)@ + 1,
    {
        self.rowid = self.rowid + 1;
    }

    /// Always at the end: the table shows no rows.
    pub fn eof(&self) -> (r: bool)
        ensures
            r,
    {
        true
    }

    /// The current row number.
    pub fn rowid(&self) -> (r: i64)
        ensures
            r == self@,
    {
        self.rowid
    }
}

} // verus!
