use sqlite_python::index::IndexRefusal;
use sqlite_python::index::IndexConstraint;
use sqlite_python::module_functions;
use sqlite_python::module_functions::{
    create_sql, listed_functions, module_input, Columns, ModuleCell, ModuleInput,
    PyModuleFunctionsCursor, PyModuleFunctionsTable, MODULE_COLUMN,
};
use sqlite_python::utils::SqlValueType;

#[test]
fn module_functions_declaration_and_columns() {
    assert_eq!(create_sql(), "CREATE TABLE x(name, value, module hidden)");
    assert_eq!(module_functions::column(0), Some(Columns::Name));
    assert_eq!(module_functions::column(1), Some(Columns::Value));
    assert_eq!(module_functions::column(2), Some(Columns::Module));
    assert_eq!(module_functions::column(3), None);
    assert_eq!(MODULE_COLUMN, 2);
}

#[test]
fn module_functions_plan_needs_the_module() {
    let eq = IndexConstraint { column_idx: 2, usable: true, is_eq: true };
    let plan = PyModuleFunctionsTable::best_index(&vec![eq]).unwrap();
    assert_eq!(plan.argv_index, vec![Some(1)]);
    assert!(matches!(PyModuleFunctionsTable::best_index(&vec![]), Err(IndexRefusal::Error)));
    let unusable = IndexConstraint { column_idx: 2, usable: false, is_eq: true };
    assert!(matches!(
        PyModuleFunctionsTable::best_index(&vec![unusable]),
        Err(IndexRefusal::Constraint)
    ));
}

#[test]
fn module_argument_is_code_or_object() {
    assert_eq!(module_input(SqlValueType::Text, true, false), ModuleInput::Code);
    assert_eq!(module_input(SqlValueType::Text, false, false), ModuleInput::Invalid);
    assert_eq!(module_input(SqlValueType::Null, false, true), ModuleInput::Object);
    assert_eq!(module_input(SqlValueType::Null, false, false), ModuleInput::Invalid);
    assert_eq!(module_input(SqlValueType::Integer, false, false), ModuleInput::Invalid);
}

#[test]
fn only_callables_are_listed_in_order() {
    let entries = vec![
        ("__name__".to_string(), 1u8, false),
        ("add".to_string(), 2, true),
        ("PI".to_string(), 3, false),
        ("sub".to_string(), 4, true),
    ];
    let rows = listed_functions(entries);
    assert_eq!(rows, vec![("add".to_string(), 2), ("sub".to_string(), 4)]);
}

#[test]
fn module_functions_cursor_walks_rows() {
    let mut cursor: PyModuleFunctionsCursor<u8> = PyModuleFunctionsCursor::new();
    assert!(matches!(cursor.column(2), ModuleCell::Empty));
    cursor.filter(vec![("add".to_string(), 2), ("sub".to_string(), 4)]);
    let mut seen = Vec::new();
    while !cursor.eof() {
        let name = match cursor.column(0) {
            ModuleCell::Name(n) => n.clone(),
            _ => panic!("name expected"),
        };
        let value = match cursor.column(1) {
            ModuleCell::Value(v) => *v,
            _ => panic!("value expected"),
        };
        assert!(matches!(cursor.column(2), ModuleCell::Empty));
        seen.push((name, value));
        cursor.next();
    }
    assert_eq!(seen, vec![("add".to_string(), 2), ("sub".to_string(), 4)]);
    assert_eq!(cursor.rowid(), 2);
}
