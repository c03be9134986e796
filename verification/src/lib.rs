//! Decision logic of a SQLite extension that embeds Python: query planning for
//! its table-valued functions, the state of their cursors, the registry of
//! functions defined from SQL, and the dispatch rules between SQLite values and
//! Python objects.
pub mod constructors;
pub mod define;
pub mod each;
pub mod each2;
pub mod functions;
pub mod index;
pub mod json;
pub mod meta;
pub mod module_functions;
pub mod pyapi_table_function;
pub mod scalar;
pub mod utils;
