use sqlite_python::define;
use sqlite_python::constructors::pair_entries;
use sqlite_python::define::{classify_item, code_index, scalar_arities, Columns, ItemKind, PyDefineTable};
use sqlite_python::json::json_value;
use sqlite_python::meta::{debug_text, version_text};
use sqlite_python::scalar::{
    scalar_registrations, table_registrations, value_result, ScalarFunction, TableModule,
    ValueProbe, ValueResult,
};
use sqlite_python::utils::{
    item_or_end, item_until_stop, IterStep, collect_arguments, conversion, present_arguments, result_kind, PyConversion, PyTypeProbe,
    SqlResult, SqlValueType,
};

#[test]
fn module_names_count_inserted_blocks() {
    let mut table = PyDefineTable::new();
    let mut names = Vec::new();
    for _ in 0..12 {
        names.push(table.next_module_name());
    }
    assert_eq!(names[0], "m1");
    assert_eq!(names[1], "m2");
    assert_eq!(names[8], "m9");
    assert_eq!(names[9], "m10");
    assert_eq!(names[11], "m12");
}

#[test]
fn decimal_of_large_numbers() {
    let mut s = String::from("x");
    sqlite_python::define::append_decimal(&mut s, 9_007_199_254_740_993);
    assert_eq!(s, "x9007199254740993");
    let mut s = String::new();
    sqlite_python::define::append_decimal(&mut s, u64::MAX);
    assert_eq!(s, u64::MAX.to_string());
    let mut s = String::new();
    sqlite_python::define::append_decimal(&mut s, 0);
    assert_eq!(s, "0");
}

#[test]
fn define_code_column() {
    assert_eq!(define::column(0), Some(Columns::Code));
    assert_eq!(define::column(1), None);
    assert_eq!(code_index(1), Some(0));
    assert_eq!(code_index(0), None);
}

#[test]
fn scalar_arities_cover_optional_arguments() {
    assert_eq!(scalar_arities(2, 0), vec![2]);
    assert_eq!(scalar_arities(1, 2), vec![1, 2, 3]);
    assert_eq!(scalar_arities(0, -1), Vec::<i32>::new());
    assert_eq!(scalar_arities(3, -5), Vec::<i32>::new());
}

#[test]
fn items_are_classified_scalar_first() {
    assert_eq!(classify_item(true, false), ItemKind::Scalar);
    assert_eq!(classify_item(true, true), ItemKind::Scalar);
    assert_eq!(classify_item(false, true), ItemKind::Table);
    assert_eq!(classify_item(false, false), ItemKind::Other);
}

#[test]
fn dict_arguments_pair_up() {
    let pairs = pair_entries(vec!["a", "1", "b", "2"]);
    assert_eq!(pairs, vec![("a", "1"), ("b", "2")]);
    assert!(pair_entries(Vec::<u8>::new()).is_empty());
}

#[test]
fn arguments_are_collected_or_refused() {
    assert_eq!(collect_arguments(vec![Some(1), Some(2)]), Ok(vec![1, 2]));
    assert!(collect_arguments(vec![Some(1), None, Some(3)]).is_err());
    assert_eq!(collect_arguments(Vec::<Option<u8>>::new()), Ok(vec![]));
    assert_eq!(present_arguments(vec![Some(1), None, Some(3)]), vec![1, 3]);
    assert_eq!(present_arguments(vec![None::<u8>]), Vec::<u8>::new());
}

#[test]
fn sqlite_values_convert_by_type() {
    assert_eq!(conversion(SqlValueType::Text, true, false), PyConversion::Str);
    assert_eq!(conversion(SqlValueType::Text, false, false), PyConversion::Missing);
    assert_eq!(conversion(SqlValueType::Integer, false, false), PyConversion::Int);
    assert_eq!(conversion(SqlValueType::Float, false, false), PyConversion::Float);
    assert_eq!(conversion(SqlValueType::Blob, false, false), PyConversion::Bytes);
    assert_eq!(conversion(SqlValueType::Null, false, true), PyConversion::Object);
    assert_eq!(conversion(SqlValueType::Null, false, false), PyConversion::PyNone);
}

#[test]
fn python_results_by_first_matching_type() {
    let none = PyTypeProbe { is_str: false, is_float: false, is_int: false, is_bytes: false, is_none: false };
    assert_eq!(result_kind(none), SqlResult::Pointer);
    assert_eq!(result_kind(PyTypeProbe { is_str: true, ..none }), SqlResult::Text);
    assert_eq!(result_kind(PyTypeProbe { is_float: true, ..none }), SqlResult::Double);
    // bool is an int in Python
    assert_eq!(result_kind(PyTypeProbe { is_int: true, ..none }), SqlResult::Int);
    assert_eq!(result_kind(PyTypeProbe { is_bytes: true, ..none }), SqlResult::Blob);
    assert_eq!(result_kind(PyTypeProbe { is_none: true, ..none }), SqlResult::Null);
}

#[test]
fn py_value_dispatch() {
    let p = ValueProbe {
        as_i32: false,
        as_i64: false,
        as_f64: false,
        as_bool: false,
        as_str: false,
        as_bytes: false,
        is_none: false,
    };
    assert_eq!(value_result(p), ValueResult::Json);
    // A small int also reads as i64 and f64: it is an int.
    assert_eq!(value_result(ValueProbe { as_i32: true, as_i64: true, as_f64: true, ..p }), ValueResult::Int);
    assert_eq!(value_result(ValueProbe { as_i64: true, as_f64: true, ..p }), ValueResult::Int64);
    assert_eq!(value_result(ValueProbe { as_f64: true, ..p }), ValueResult::Double);
    assert_eq!(value_result(ValueProbe { as_bool: true, ..p }), ValueResult::Bool);
    assert_eq!(value_result(ValueProbe { as_str: true, as_bytes: true, ..p }), ValueResult::Text);
    assert_eq!(value_result(ValueProbe { as_bytes: true, ..p }), ValueResult::Blob);
    assert_eq!(value_result(ValueProbe { is_none: true, ..p }), ValueResult::Null);
}

#[test]
fn json_text_is_parsed_by_serde_json() {
    let v = json_value("{\"a\": [1, 2]}").unwrap();
    assert_eq!(v["a"][1], 2);
    assert_eq!(v.to_string(), "{\"a\":[1,2]}");
    assert!(json_value("[NaN]").is_err());
    assert!(json_value("").is_err());
    assert!(json_value("[1, 2").is_err());
}

#[test]
fn registrations_match_the_extension() {
    let scalars = scalar_registrations();
    assert_eq!(scalars.len(), 17);
    assert_eq!(scalars[0].name, "py_version");
    assert!(scalars[0].deterministic && scalars[1].deterministic);
    assert_eq!(scalars[5].name, "py_fmt");
    assert_eq!(scalars[5].function, ScalarFunction::PyFormat);
    assert_eq!(scalars[10].name, "py_function_from_module");
    assert_eq!(scalars[10].n_args, 2);
    assert_eq!(scalars[16].name, "py_value");
    assert!(scalars.iter().skip(2).all(|r| !r.deterministic));
    let mut names: Vec<&str> = scalars.iter().map(|r| r.name).collect();
    names.sort();
    names.dedup();
    assert_eq!(names.len(), 17);
    let tables = table_registrations();
    assert_eq!(tables.len(), 5);
    assert_eq!(tables[1].name, "py_each2");
    assert_eq!(tables[2].name, "py_module_functions");
    assert_eq!(tables[2].module, TableModule::PyModuleFunctions);
    assert_eq!(tables[4].module, TableModule::PyDefine);
}

#[test]
fn meta_texts() {
    assert_eq!(version_text("0.1.0"), "v0.1.0");
    assert_eq!(
        debug_text("0.1.0", "abc123", "3.11.4"),
        "Version: v0.1.0\nSource: abc123\nPython version: 3.11.4"
    );
}

#[test]
fn iterator_steps() {
    assert_eq!(item_or_end(IterStep::Yielded(3)), Some(3));
    assert_eq!(item_or_end(IterStep::<u8>::Stopped), None);
    assert_eq!(item_or_end(IterStep::<u8>::Failed), None);
    assert_eq!(item_until_stop(IterStep::Yielded(4)), Some(4));
    assert_eq!(item_until_stop(IterStep::<u8>::Stopped), None);
}

#[test]
fn values_come_back_as_their_own_type() {
    let probe = |c: PyConversion| PyTypeProbe {
        is_str: c == PyConversion::Str,
        is_float: c == PyConversion::Float,
        is_int: c == PyConversion::Int,
        is_bytes: c == PyConversion::Bytes,
        is_none: c == PyConversion::PyNone,
    };
    let round = |t: SqlValueType, carries: bool| result_kind(probe(conversion(t, true, carries)));
    assert_eq!(round(SqlValueType::Text, false), SqlResult::Text);
    assert_eq!(round(SqlValueType::Integer, false), SqlResult::Int);
    assert_eq!(round(SqlValueType::Float, false), SqlResult::Double);
    assert_eq!(round(SqlValueType::Blob, false), SqlResult::Blob);
    assert_eq!(round(SqlValueType::Null, false), SqlResult::Null);
    assert_eq!(round(SqlValueType::Null, true), SqlResult::Pointer);
}
