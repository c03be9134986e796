# sqlite_python

A SQLite extension that embeds Python: scalar functions such as `py_eval`,
`py_call` and `py_value`, the table functions `py_each`, `py_each2` and
`py_module_functions`, and
the writable tables `py_functions` and `py_define`, through which SQL defines
new functions in Python.

- `src/` is the library, verified with Verus: the query planners of the
  table functions (`index`, `each`, `each2`, `module_functions`, `pyapi_table_function`), the
  cursors' states, the registry of functions defined through `py_functions`,
  the module naming and arity rules of `py_define`, the dispatch between
  SQLite values and Python objects (`utils`, `scalar`), the pairing of
  `py_dict`'s arguments (`constructors`), the texts of `py_version` and
  `py_debug` (`meta`), and the handling of JSON results (`json`). The JSON
  parse itself is `serde_json`'s, called through a trusted wrapper whose
  contract Verus takes on trust.
- `app/` is the extension around it: the entry point, the calls into SQLite
  (`sqlite-loadable`) and into the Python interpreter (`pyo3`).
- `tests/` runs the library on concrete values.
