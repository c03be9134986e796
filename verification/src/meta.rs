//! The texts of `py_version()` and `py_debug()`.
use vstd::prelude::*;

verus! {

/// `py_version()`: `v` followed by the package version.
pub fn version_text(pkg_version: &str) -> (r: String)
    ensures
        r@ == seq!['v'] + pkg_version@,
{
    proof {
        reveal_strlit("v");
    }
    let mut r = String::new();
    r.append("v");
    r.append(pkg_version);
    r
}

/// `py_debug()`: the package version, the source revision it was built from
/// and the version of the Python interpreter, one per line.
pub fn debug_text(pkg_version: &str, source: &str, python_version: &str) -> (r: String)
    ensures
        r@ == "Version: v"@ + pkg_version@ + "\nSource: "@ + source@ + "\nPython version: "@
            + python_version@,
{
    let mut r = String::new();
    r.append("Version: v");
    r.append(pkg_version);
    r.append("\nSource: ");
    r.append(source);
    r.append("\nPython version: ");
    r.append(python_version);
    r
}

} // verus!
