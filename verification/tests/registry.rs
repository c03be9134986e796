use sqlite_python::functions;
use sqlite_python::functions::{create_sql, insert_layout, Columns, FunctionsCell, PyFunctionsTable, DELETE_N_ARGS,
};

#[test]
fn functions_columns_and_layout() {
    assert_eq!(functions::column(0), Some(Columns::Name));
    assert_eq!(functions::column(1), Some(Columns::Function));
    assert_eq!(functions::column(2), None);
    assert_eq!(create_sql(), "CREATE TABLE x(name text, function hidden)");
    let l = insert_layout(2);
    assert_eq!((l.name, l.function), (Some(0), Some(1)));
    let l = insert_layout(1);
    assert_eq!((l.name, l.function), (Some(0), None));
    let l = insert_layout(0);
    assert_eq!((l.name, l.function), (None, None));
    assert_eq!(DELETE_N_ARGS, 1);
}

#[test]
fn inserted_function_is_read_back() {
    let mut table: PyFunctionsTable<&str> = PyFunctionsTable::new();
    let k0 = table.insert("up".to_string(), "upper");
    let k1 = table.insert("down".to_string(), "lower");
    assert_eq!((k0, k1), (0, 1));
    assert_eq!(table.function_name(0), "up");
    assert_eq!(table.function_name(1), "down");
    assert_eq!(table.len(), 2);
    assert!(table.contains(1));
    assert!(!table.contains(2));
}

#[test]
fn removing_forgets_only_that_function() {
    let mut table: PyFunctionsTable<u8> = PyFunctionsTable::new();
    table.insert("a".to_string(), 1);
    table.insert("b".to_string(), 2);
    table.remove(0);
    assert!(!table.contains(0));
    assert_eq!(table.function_name(1), "b");
    assert_eq!(table.len(), 1);
    // Keys are not reused after a removal.
    assert_eq!(table.insert("c".to_string(), 3), 2);
    table.remove(7);
    assert_eq!(table.len(), 2);
}

#[test]
fn cursor_walks_functions_by_key() {
    let mut table: PyFunctionsTable<u8> = PyFunctionsTable::new();
    table.insert("a".to_string(), 1);
    table.insert("b".to_string(), 2);
    let mut cursor = table.open();
    cursor.filter();
    let mut names = Vec::new();
    let mut funcs = Vec::new();
    while !cursor.eof() {
        match cursor.column(0) {
            FunctionsCell::Name(n) => names.push(n.clone()),
            _ => panic!("name expected"),
        }
        match cursor.column(1) {
            FunctionsCell::Function(f) => funcs.push(*f),
            _ => panic!("function expected"),
        }
        assert!(matches!(cursor.column(2), FunctionsCell::Empty));
        cursor.next();
    }
    assert_eq!(names, vec!["a".to_string(), "b".to_string()]);
    assert_eq!(funcs, vec![1, 2]);
    assert_eq!(cursor.rowid(), 2);
}

#[test]
fn insert_then_remove_restores_the_functions() {
    let mut table: PyFunctionsTable<u8> = PyFunctionsTable::new();
    table.insert("a".to_string(), 1);
    let k = table.insert("b".to_string(), 2);
    table.remove(k);
    assert_eq!(table.len(), 1);
    assert!(table.contains(0));
    assert!(!table.contains(k));
    assert_eq!(table.function_name(0), "a");
    assert_eq!(table.next_key(), 2);
}

#[test]
fn failed_delete_keeps_the_function() {
    let mut table: PyFunctionsTable<u8> = PyFunctionsTable::new();
    table.insert("a".to_string(), 1);
    table.finish_delete(0, false);
    assert!(table.contains(0));
    table.finish_delete(0, true);
    assert!(!table.contains(0));
}
