use sqlite_python::each;
use sqlite_python::define::PyDefineCursor;
use sqlite_python::each::{create_sql, Columns, PyEachCursor};
use sqlite_python::each2::PyEachCursor2;
use sqlite_python::pyapi_table_function::{AuxColumn, PyApiTableBuilder, PyApiTableCursor};

#[test]
fn each_columns_and_declaration() {
    assert_eq!(each::column(0), Some(Columns::Value));
    assert_eq!(each::column(1), Some(Columns::Object));
    assert_eq!(each::column(2), None);
    assert_eq!(each::column(-1), None);
    assert_eq!(create_sql(), "CREATE TABLE x(value, object hidden)");
}

#[test]
fn each_cursor_walks_collected_items() {
    let mut cursor: PyEachCursor<&str> = PyEachCursor::new();
    cursor.filter(vec!["a", "b", "c"]);
    let mut seen = Vec::new();
    while !cursor.eof() {
        seen.push(*cursor.column(0).unwrap());
        assert_eq!(cursor.column(2), None);
        cursor.next();
    }
    assert_eq!(seen, vec!["a", "b", "c"]);
    assert_eq!(cursor.rowid(), 3);
    cursor.filter(vec![]);
    assert_eq!(cursor.rowid(), 0);
    assert!(cursor.eof());
}

#[test]
fn each2_cursor_counts_rows_from_one() {
    let mut cursor: PyEachCursor2<u32> = PyEachCursor2::new();
    cursor.filter(100);
    assert_eq!(*cursor.iterator(), 100);
    cursor.advance(Some(10));
    assert_eq!(cursor.rowid(), 1);
    assert!(!cursor.eof());
    assert_eq!(cursor.column(0), Some(&10));
    assert_eq!(cursor.column(5), None);
    cursor.advance(Some(20));
    assert_eq!(cursor.rowid(), 2);
    cursor.advance(None);
    assert!(cursor.eof());
    assert_eq!(cursor.rowid(), 3);
}

#[test]
fn api_cursor_reads_attribute_named_after_column() {
    let builder = PyApiTableBuilder {
        columns: vec![
            AuxColumn { name: "value".to_string(), hidden: false, required: false },
            AuxColumn { name: "progress".to_string(), hidden: false, required: false },
        ],
    };
    let mut cursor: PyApiTableCursor<i64> = PyApiTableCursor::new(&builder);
    assert!(cursor.eof());
    cursor.filter(-1);
    assert_eq!(*cursor.iterator(), -1);
    cursor.advance(Some(42));
    assert!(!cursor.eof());
    let (name, row) = cursor.column(1);
    assert_eq!(name, "progress");
    assert_eq!(*row, 42);
    cursor.advance(None);
    assert!(cursor.eof());
    assert_eq!(cursor.rowid(), 0);
}

#[test]
fn define_cursor_shows_no_rows() {
    let mut cursor = PyDefineCursor::new();
    cursor.filter();
    assert!(cursor.eof());
    cursor.next();
    assert_eq!(cursor.rowid(), 1);
    cursor.filter();
    assert_eq!(cursor.rowid(), 0);
}

#[test]
fn each_and_each2_give_the_same_rows() {
    let items = vec![5, 6, 7];
    let mut c1: PyEachCursor<i32> = PyEachCursor::new();
    c1.filter(items.clone());
    let mut c2: PyEachCursor2<i32> = PyEachCursor2::new();
    c2.filter(0);
    let mut fed = 0usize;
    c2.advance(items.get(fed).copied());
    for k in 0..5i64 {
        assert_eq!(c1.eof(), c2.eof());
        assert_eq!(c1.eof(), k >= 3);
        if !c1.eof() {
            assert_eq!(c1.column(0), c2.column(0));
        }
        assert_eq!(c1.rowid(), k);
        assert_eq!(c2.rowid(), k + 1);
        c1.next();
        fed += 1;
        c2.advance(items.get(fed).copied());
    }
}

#[test]
fn filter_clears_the_previous_row() {
    let mut c2: PyEachCursor2<u8> = PyEachCursor2::new();
    c2.filter(1);
    c2.advance(Some(9));
    c2.filter(2);
    assert!(c2.eof());
    assert_eq!(*c2.iterator(), 2);
    let builder = PyApiTableBuilder { columns: vec![] };
    let mut c3: PyApiTableCursor<u8> = PyApiTableCursor::new(&builder);
    c3.filter(1);
    c3.advance(Some(9));
    c3.filter(2);
    assert!(c3.eof());
}
