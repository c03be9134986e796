//! The SQL functions that the extension registers when it is loaded, and the
//! rule by which `py_value` turns a Python object into an SQL value.
use vstd::prelude::*;

verus! {

/// The scalar SQL functions of the extension.
#[derive(PartialEq, Eq, Structural, Clone, Copy, Debug)]
pub enum ScalarFunction {
    PyVersion,
    PyDebug,
    PyStr,
    PyCallable,
    PyFormat,
    PyTuple,
    PyList,
    PySet,
    PyDict,
    PyFunctionFromModule,
    PyModule,
    PyAttr,
    PyCall,
    PyCallMethod,
    PyEval,
    PyValue,
}

/// How a scalar SQL function is registered: its SQL name, its number of
/// arguments (`-1` for any), whether SQLite may treat it as deterministic,
/// and which function implements it.
#[derive(Clone, Copy, Debug)]
pub struct ScalarRegistration {
    pub name: &'static str,
    pub n_args: i32,
    pub deterministic: bool,
    pub function: ScalarFunction,
}

/// The table-valued functions and writable tables of the extension.
#[derive(PartialEq, Eq, Structural, Clone, Copy, Debug)]
pub enum TableModule {
    /// `py_each`, a table function.
    PyEach,
    /// `py_each2`, a table function.
    PyEach2,
    /// `py_module_functions`, a table function.
    PyModuleFunctions,
    /// `py_functions`, a writable virtual table.
    PyFunctions,
    /// `py_define`, a writable virtual table.
    PyDefine,
}

/// How a table module is registered: its SQL name and its module.
#[derive(Clone, Copy, Debug)]
pub struct TableRegistration {
    pub name: &'static str,
    pub module: TableModule,
}

/// The registration of one scalar function, as a tuple of its SQL name,
/// argument count, determinism and implementation.
pub open spec fn scalar_entry(r: ScalarRegistration) -> (Seq<char>, i32, bool, ScalarFunction) {
    (r.name@, r.n_args, r.deterministic, r.function)
}

/// The scalar functions, in the order they are registered in. `py_fmt` is
/// another name of `py_format`.
pub open spec fn expected_scalars() -> Seq<(Seq<char>, i32, bool, ScalarFunction)> {
    seq![
        ("py_version"@, 0i32, true, ScalarFunction::PyVersion),
        ("py_debug"@, 0i32, true, ScalarFunction::PyDebug),
        ("py_str"@, 1i32, false, ScalarFunction::PyStr),
        ("py_callable"@, 1i32, false, ScalarFunction::PyCallable),
        ("py_format"@, -1i32, false, ScalarFunction::PyFormat),
        ("py_fmt"@, -1i32, false, ScalarFunction::PyFormat),
        ("py_tuple"@, -1i32, false, ScalarFunction::PyTuple),
        ("py_list"@, -1i32, false, ScalarFunction::PyList),
        ("py_set"@, -1i32, false, ScalarFunction::PySet),
        ("py_dict"@, -1i32, false, ScalarFunction::PyDict),
        ("py_function_from_module"@, 2i32, false, ScalarFunction::PyFunctionFromModule),
        ("py_module"@, 1i32, false, ScalarFunction::PyModule),
        ("py_attr"@, 2i32, false, ScalarFunction::PyAttr),
        ("py_call"@, -1i32, false, ScalarFunction::PyCall),
        ("py_call_method"@, -1i32, false, ScalarFunction::PyCallMethod),
        ("py_eval"@, 1i32, false, ScalarFunction::PyEval),
        ("py_value"@, 1i32, false, ScalarFunction::PyValue),
    ]
}

/// The table modules, in the order they are registered in.
pub open spec fn expected_tables() -> Seq<(Seq<char>, TableModule)> {
    seq![
        ("py_each"@, TableModule::PyEach),
        ("py_each2"@, TableModule::PyEach2),
        ("py_module_functions"@, TableModule::PyModuleFunctions),
        ("py_functions"@, TableModule::PyFunctions),
        ("py_define"@, TableModule::PyDefine),
    ]
}

/// Whether `name` is an SQL name of the implementation `f`: its own name,
/// and for `py_format` also the short name `py_fmt`.
pub open spec fn names_implementation(name: Seq<char>, f: ScalarFunction) -> bool {
    match f {
        ScalarFunction::PyVersion => name == "py_version"@,
        ScalarFunction::PyDebug => name == "py_debug"@,
        ScalarFunction::PyStr => name == "py_str"@,
        ScalarFunction::PyCallable => name == "py_callable"@,
        ScalarFunction::PyFormat => name == "py_format"@ || name == "py_fmt"@,
        ScalarFunction::PyTuple => name == "py_tuple"@,
        ScalarFunction::PyList => name == "py_list"@,
        ScalarFunction::PySet => name == "py_set"@,
        ScalarFunction::PyDict => name == "py_dict"@,
        ScalarFunction::PyFunctionFromModule => name == "py_function_from_module"@,
        ScalarFunction::PyModule => name == "py_module"@,
        ScalarFunction::PyAttr => name == "py_attr"@,
        ScalarFunction::PyCall => name == "py_call"@,
        ScalarFunction::PyCallMethod => name == "py_call_method"@,
        ScalarFunction::PyEval => name == "py_eval"@,
        ScalarFunction::PyValue => name == "py_value"@,
    }
}

/// The number of arguments each implementation takes: none for the version
/// texts; one for the functions of one value or of one piece of code; two
/// for an attribute of an object and a function of a module; any number
/// (`-1`) for the functions that take a variable list of arguments (a
/// format's values, the items of a container, a call's arguments).
pub open spec fn arity_of(f: ScalarFunction) -> i32 {
    match f {
        ScalarFunction::PyVersion | ScalarFunction::PyDebug => 0i32,
        ScalarFunction::PyStr | ScalarFunction::PyCallable | ScalarFunction::PyModule
        | ScalarFunction::PyEval | ScalarFunction::PyValue => 1,
        ScalarFunction::PyAttr | ScalarFunction::PyFunctionFromModule => 2,
        ScalarFunction::PyFormat | ScalarFunction::PyTuple | ScalarFunction::PyList
        | ScalarFunction::PySet | ScalarFunction::PyDict | ScalarFunction::PyCall
        | ScalarFunction::PyCallMethod => -1i32,
    }
}

/// Only the version texts are deterministic; every function that runs
/// Python is not.
pub open spec fn deterministic_of(f: ScalarFunction) -> bool {
    f == ScalarFunction::PyVersion || f == ScalarFunction::PyDebug
}

/// A registration is consistent: its name is a name of its implementation,
/// and it has the implementation's argument count and determinism.
pub open spec fn consistent_scalar(e: (Seq<char>, i32, bool, ScalarFunction)) -> bool {
    &&& names_implementation(e.0, e.3)
    &&& e.1 == arity_of(e.3)
    &&& e.2 == deterministic_of(e.3)
}

/// Whether `name` is the SQL name of the table module `m`.
pub open spec fn names_module(name: Seq<char>, m: TableModule) -> bool {
    match m {
        TableModule::PyEach => name == "py_each"@,
        TableModule::PyEach2 => name == "py_each2"@,
        TableModule::PyModuleFunctions => name == "py_module_functions"@,
        TableModule::PyFunctions => name == "py_functions"@,
        TableModule::PyDefine => name == "py_define"@,
    }
}

/// Some scalar registration uses the implementation `f`.
pub open spec fn scalar_registered(f: ScalarFunction) -> bool {
    exists|i: int| 0 <= i < expected_scalars().len() && #[trigger] expected_scalars()[i].3 == f
}

/// Some table registration uses the module `m`.
pub open spec fn table_registered(m: TableModule) -> bool {
    exists|i: int| 0 <= i < expected_tables().len() && #[trigger] expected_tables()[i].1 == m
}

/// Each scalar SQL function is bound to the implementation of the same
/// name (`py_fmt` to `py_format`'s), with that implementation's argument
/// count and determinism; and every implementation is registered.
pub proof fn law_scalars_bound_by_name()
    ensures
        forall|i: int|
            0 <= i < expected_scalars().len() ==> consistent_scalar(#[trigger] expected_scalars()[i]),
        forall|f: ScalarFunction| #[trigger] scalar_registered(f),
{
    assert forall|f: ScalarFunction| #[trigger] scalar_registered(f) by {
        match f {
            ScalarFunction::PyVersion => assert(expected_scalars()[0].3 == f),
            ScalarFunction::PyDebug => assert(expected_scalars()[1].3 == f),
            ScalarFunction::PyStr => assert(expected_scalars()[2].3 == f),
            ScalarFunction::PyCallable => assert(expected_scalars()[3].3 == f),
            ScalarFunction::PyFormat => assert(expected_scalars()[4].3 == f),
            ScalarFunction::PyTuple => assert(expected_scalars()[6].3 == f),
            ScalarFunction::PyList => assert(expected_scalars()[7].3 == f),
            ScalarFunction::PySet => assert(expected_scalars()[8].3 == f),
            ScalarFunction::PyDict => assert(expected_scalars()[9].3 == f),
            ScalarFunction::PyFunctionFromModule => assert(expected_scalars()[10].3 == f),
            ScalarFunction::PyModule => assert(expected_scalars()[11].3 == f),
            ScalarFunction::PyAttr => assert(expected_scalars()[12].3 == f),
            ScalarFunction::PyCall => assert(expected_scalars()[13].3 == f),
            ScalarFunction::PyCallMethod => assert(expected_scalars()[14].3 == f),
            ScalarFunction::PyEval => assert(expected_scalars()[15].3 == f),
            ScalarFunction::PyValue => assert(expected_scalars()[16].3 == f),
        }
    }
}

/// Each table is registered under the name of its module, and every module
/// is registered.
pub proof fn law_tables_bound_by_name()
    ensures
        forall|i: int|
            0 <= i < expected_tables().len() ==> names_module(
                #[trigger] expected_tables()[i].0,
                expected_tables()[i].1,
            ),
        forall|m: TableModule| #[trigger] table_registered(m),
{
    assert forall|m: TableModule| #[trigger] table_registered(m) by {
        match m {
            TableModule::PyEach => assert(expected_tables()[0].1 == m),
            TableModule::PyEach2 => assert(expected_tables()[1].1 == m),
            TableModule::PyModuleFunctions => assert(expected_tables()[2].1 == m),
            TableModule::PyFunctions => assert(expected_tables()[3].1 == m),
            TableModule::PyDefine => assert(expected_tables()[4].1 == m),
        }
    }
}

fn scalar(name: &'static str, n_args: i32, deterministic: bool, function: ScalarFunction) -> (r:
    ScalarRegistration)
    ensures
        scalar_entry(r) == (name@, n_args, deterministic, function),
{
    ScalarRegistration { name, n_args, deterministic, function }
}

/// The scalar functions that loading the extension registers, in order.
pub fn scalar_registrations() -> (r: Vec<ScalarRegistration>)
    ensures
        r@.len() == expected_scalars().len(),
        forall|i: int| 0 <= i < r@.len() ==> scalar_entry(#[trigger] r@[i]) == expected_scalars()[i],
        forall|i: int| 0 <= i < r@.len() ==> consistent_scalar(scalar_entry(#[trigger] r@[i])),
{
    let r = vec![
        scalar("py_version", 0, true, ScalarFunction::PyVersion),
        scalar("py_debug", 0, true, ScalarFunction::PyDebug),
        scalar("py_str", 1, false, ScalarFunction::PyStr),
        scalar("py_callable", 1, false, ScalarFunction::PyCallable),
        scalar("py_format", -1, false, ScalarFunction::PyFormat),
        scalar("py_fmt", -1, false, ScalarFunction::PyFormat),
        scalar("py_tuple", -1, false, ScalarFunction::PyTuple),
        scalar("py_list", -1, false, ScalarFunction::PyList),
        scalar("py_set", -1, false, ScalarFunction::PySet),
        scalar("py_dict", -1, false, ScalarFunction::PyDict),
        scalar("py_function_from_module", 2, false, ScalarFunction::PyFunctionFromModule),
        scalar("py_module", 1, false, ScalarFunction::PyModule),
        scalar("py_attr", 2, false, ScalarFunction::PyAttr),
        scalar("py_call", -1, false, ScalarFunction::PyCall),
        scalar("py_call_method", -1, false, ScalarFunction::PyCallMethod),
        scalar("py_eval", 1, false, ScalarFunction::PyEval),
        scalar("py_value", 1, false, ScalarFunction::PyValue),
    ];
    assert(r@.len() == expected_scalars().len());
    proof {
        law_scalars_bound_by_name();
    }
    r
}

/// The table modules that loading the extension registers, in order.
pub fn table_registrations() -> (r: Vec<TableRegistration>)
    ensures
        r@.len() == expected_tables().len(),
        forall|i: int|
            0 <= i < r@.len() ==> (#[trigger] r@[i].name@, r@[i].module) == expected_tables()[i],
        forall|i: int| 0 <= i < r@.len() ==> names_module(#[trigger] r@[i].name@, r@[i].module),
{
    proof {
        law_tables_bound_by_name();
    }
    vec![
        TableRegistration { name: "py_each", module: TableModule::PyEach },
        TableRegistration { name: "py_each2", module: TableModule::PyEach2 },
        TableRegistration { name: "py_module_functions", module: TableModule::PyModuleFunctions },
        TableRegistration { name: "py_functions", module: TableModule::PyFunctions },
        TableRegistration { name: "py_define", module: TableModule::PyDefine },
    ]
}

/// What a Python object can be read as, in the order `py_value` tries.
#[derive(PartialEq, Eq, Structural, Clone, Copy, Debug)]
pub struct ValueProbe {
    pub as_i32: bool,
    pub as_i64: bool,
    pub as_f64: bool,
    pub as_bool: bool,
    pub as_str: bool,
    pub as_bytes: bool,
    pub is_none: bool,
}

/// The SQL value that `py_value` returns a Python object as.
#[derive(PartialEq, Eq, Structural, Clone, Copy, Debug)]
pub enum ValueResult {
    Int,
    Int64,
    Double,
    Bool,
    Text,
    Blob,
    Null,
    /// The object's JSON text, as a JSON result.
    Json,
}

/// `py_value`'s rule: the first of a 32-bit integer, a 64-bit integer, a
/// float, a boolean, a string, bytes and `None` that the object can be read
/// as; JSON otherwise.
pub fn value_result(p: ValueProbe) -> (r: ValueResult)
    ensures
        p.as_i32 ==> r == ValueResult::Int,
        !p.as_i32 && p.as_i64 ==> r == ValueResult::Int64,
        !p.as_i32 && !p.as_i64 && p.as_f64 ==> r == ValueResult::Double,
        !p.as_i32 && !p.as_i64 && !p.as_f64 && p.as_bool ==> r == ValueResult::Bool,
        !p.as_i32 && !p.as_i64 && !p.as_f64 && !p.as_bool && p.as_str ==> r == ValueResult::Text,
        !p.as_i32 && !p.as_i64 && !p.as_f64 && !p.as_bool && !p.as_str && p.as_bytes ==> r
            == ValueResult::Blob,
        !p.as_i32 && !p.as_i64 && !p.as_f64 && !p.as_bool && !p.as_str && !p.as_bytes
            && p.is_none ==> r == ValueResult::Null,
        !p.as_i32 && !p.as_i64 && !p.as_f64 && !p.as_bool && !p.as_str && !p.as_bytes
            && !p.is_none ==> r == ValueResult::Json,
{
    if p.as_i32 {
        ValueResult::Int
    } else if p.as_i64 {
        ValueResult::Int64
    } else if p.as_f64 {
        ValueResult::Double
    } else if p.as_bool {
        ValueResult::Bool
    } else if p.as_str {
        ValueResult::Text
    } else if p.as_bytes {
        ValueResult::Blob
    } else if p.is_none {
        ValueResult::Null
    } else {
        ValueResult::Json
    }
}

} // verus!
