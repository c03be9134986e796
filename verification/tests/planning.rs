use sqlite_python::index::input_plan_is_defined;
use sqlite_python::define::PyDefineTable;
use sqlite_python::each::PyEachTable;
use sqlite_python::each2::PyEachTable2;
use sqlite_python::functions::PyFunctionsTable;
use sqlite_python::index::{full_scan_plan, IndexConstraint, IndexRefusal, ESTIMATED_ROWS, PLAN_IDX_NUM};
use sqlite_python::pyapi_table_function::{Aux, AuxColumn, PyApiTableBuilder};

fn c(column_idx: i32, usable: bool, is_eq: bool) -> IndexConstraint {
    IndexConstraint { column_idx, usable, is_eq }
}

fn col(name: &str, hidden: bool, required: bool) -> AuxColumn {
    AuxColumn { name: name.to_string(), hidden, required }
}

#[test]
fn each_plan_accepts_object_equality() {
    let plan = PyEachTable::best_index(&vec![c(1, true, true)]).unwrap();
    assert_eq!(plan.argv_index, vec![Some(1)]);
    assert_eq!(plan.estimated_rows, 100000);
    assert_eq!(plan.idx_num, 1);
    let plan = PyEachTable::best_index(&vec![c(1, true, true), c(1, true, true)]).unwrap();
    assert_eq!(plan.argv_index, vec![Some(1), Some(1)]);
}

#[test]
fn each_plan_without_constraints_is_an_error() {
    assert!(matches!(PyEachTable::best_index(&vec![]), Err(IndexRefusal::Error)));
    assert!(matches!(PyEachTable2::best_index(&vec![]), Err(IndexRefusal::Error)));
}

#[test]
fn each_plan_refuses_unusable_object_constraint() {
    assert!(matches!(PyEachTable::best_index(&vec![c(1, false, true)]), Err(IndexRefusal::Constraint)));
    assert!(matches!(PyEachTable::best_index(&vec![c(1, true, false)]), Err(IndexRefusal::Constraint)));
    // The refusal comes before a later constraint on another column is looked at.
    assert!(matches!(
        PyEachTable2::best_index(&vec![c(1, true, true), c(1, true, false), c(0, true, true)]),
        Err(IndexRefusal::Constraint)
    ));
}

#[test]
fn api_plan_numbers_required_arguments_in_order() {
    let builder = PyApiTableBuilder {
        columns: vec![col("value", false, false), col("start", true, true), col("stop", true, true)],
    };
    let plan = builder
        .best_index(&vec![c(2, true, true), c(0, true, true), c(1, true, false), c(1, true, true)])
        .unwrap();
    assert_eq!(plan.argv_index, vec![Some(1), None, None, Some(2)]);
    assert_eq!(plan.estimated_rows, ESTIMATED_ROWS);
    assert_eq!(plan.idx_num, PLAN_IDX_NUM);
}

#[test]
fn api_plan_refuses_missing_required_column() {
    let builder = PyApiTableBuilder {
        columns: vec![col("value", false, false), col("start", true, true), col("stop", true, true)],
    };
    assert!(matches!(builder.best_index(&vec![c(1, true, true)]), Err(IndexRefusal::Constraint)));
    assert!(matches!(
        builder.best_index(&vec![c(1, true, true), c(2, false, true)]),
        Err(IndexRefusal::Constraint)
    ));
    // A usable `>` on a required column does not feed it.
    let one = PyApiTableBuilder { columns: vec![col("value", false, false), col("start", true, true)] };
    assert!(matches!(one.best_index(&vec![c(1, true, false)]), Err(IndexRefusal::Constraint)));
    let no_required = PyApiTableBuilder { columns: vec![col("value", false, false)] };
    let plan = no_required.best_index(&vec![]).unwrap();
    assert!(plan.argv_index.is_empty());
    let plan = no_required.best_index(&vec![c(0, true, true)]).unwrap();
    assert_eq!(plan.argv_index, vec![None]);
}

#[test]
fn api_connect_copies_declaration_and_columns() {
    let aux = Aux {
        sql: "CREATE TABLE x(value, start hidden)".to_string(),
        columns: vec![col("value", false, false), col("start", true, true)],
        generator: 7u8,
    };
    let (sql, builder) = PyApiTableBuilder::connect(Some(&aux));
    assert_eq!(sql, "CREATE TABLE x(value, start hidden)");
    assert_eq!(builder.columns.len(), 2);
    assert_eq!(builder.columns[1].name, "start");
    assert!(builder.columns[1].hidden && builder.columns[1].required);
}

#[test]
fn full_scan_plans_consume_nothing() {
    let plan = full_scan_plan(3);
    assert_eq!(plan.argv_index, vec![None, None, None]);
    assert_eq!(plan.estimated_rows, 100000);
    let plan = PyFunctionsTable::<u8>::best_index(1);
    assert_eq!(plan.argv_index, vec![None]);
    let plan = PyDefineTable::best_index(0);
    assert!(plan.argv_index.is_empty());
    assert_eq!(plan.idx_num, 1);
}

#[test]
fn api_plan_is_defined_on_known_columns() {
    let builder = PyApiTableBuilder {
        columns: vec![col("value", false, false), col("start", true, true)],
    };
    assert!(builder.plan_is_defined(&vec![c(0, true, true), c(1, false, true)]));
    assert!(!builder.plan_is_defined(&vec![c(2, true, true)]));
    assert!(!builder.plan_is_defined(&vec![c(-1, true, true)]));
    assert!(builder.plan_is_defined(&vec![]));
}

#[test]
fn each_plan_is_defined_until_a_value_constraint_comes_first() {
    assert!(input_plan_is_defined(&vec![c(1, true, true), c(1, false, true), c(0, true, true)], 1));
    assert!(!input_plan_is_defined(&vec![c(1, true, true), c(0, true, true)], 1));
    assert!(input_plan_is_defined(&vec![], 1));
}
