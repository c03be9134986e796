//! The rules that carry values between SQLite and Python: how an SQLite
//! value becomes a Python object, how a Python result becomes an SQLite
//! result, and how the converted arguments of a call are gathered.
use vstd::prelude::*;

verus! {

/// The items present in a list of conversions, in order.
pub open spec fn present<T>(s: Seq<Option<T>>) -> Seq<T>
    decreases s.len(),
{
    if s.len() == 0 {
        Seq::empty()
    } else {
        let rest = present(s.drop_last());
        match s.last() {
            Some(x) => rest.push(x),
            None => rest,
        }
    }
}

/// Every conversion in the list succeeded.
pub open spec fn all_present<T>(s: Seq<Option<T>>) -> bool {
    forall|i: int| 0 <= i < s.len() ==> #[trigger] s[i] is Some
}

/// When every value converts, skipping the values that do not convert and
/// requiring all of them give the same arguments: the items present are the
/// converted values one for one.
pub proof fn law_all_present_arguments_agree<T>(s: Seq<Option<T>>)
    requires
        all_present(s),
    ensures
        present(s).len() == s.len(),
        forall|i: int| 0 <= i < s.len() ==> Some(#[trigger] present(s)[i]) == s[i],
    decreases s.len(),
{
    if s.len() > 0 {
        law_all_present_arguments_agree(s.drop_last());
    }
}

/// The arguments of a Python call that skips the values that could not be
/// converted (the original order is kept).
pub fn present_arguments<T>(converted: Vec<Option<T>>) -> (r: Vec<T>)
    ensures
        r@ == present(converted@),
{
    let ghost all = converted@;
    let mut r: Vec<T> = Vec::new();
    for x in it: converted.into_iter()
        invariant
            it.seq() == all,
            r@ == present(all.take(it.index() as int)),
    {
        proof {
            assert(all.take(it.index() + 1).drop_last() =~= all.take(it.index() as int));
        }
        match x {
            Some(v) => r.push(v),
            None => {},
        }
    }
    proof {
        assert(all.take(all.len() as int) =~= all);
    }
    r
}

/// A value of the call could not be converted to a Python object.
#[derive(PartialEq, Eq, Structural, Clone, Copy, Debug)]
pub struct ConversionError;

/// The arguments of a Python call that needs every value: all of them when
/// every conversion succeeded, in order; otherwise an error.
pub fn collect_arguments<T>(converted: Vec<Option<T>>) -> (r: Result<Vec<T>, ConversionError>)
    ensures
        r is Ok <==> all_present(converted@),
        r matches Ok(v) ==> v@.len() == converted@.len() && forall|i: int|
            0 <= i < converted@.len() ==> Some(#[trigger] v@[i]) == converted@[i],
{
    let ghost all = converted@;
    let mut r: Vec<T> = Vec::new();
    for x in it: converted.into_iter()
        invariant
            it.seq() == all,
            all_present(all.take(it.index() as int)),
            r@.len() == it.index(),
            forall|i: int| 0 <= i < it.index() ==> Some(#[trigger] r@[i]) == all[i],
    {
        match x {
            Some(v) => r.push(v),
            None => {
                return Err(ConversionError);
            },
        }
        proof {
            assert forall|i: int| 0 <= i < it.index() + 1 implies #[trigger] all.take(
                it.index() + 1,
            )[i] is Some by {
                if i < it.index() {
                    assert(all.take(it.index() as int)[i] == all[i]);
                }
            }
        }
    }
    proof {
        assert(all.take(all.len() as int) =~= all);
    }
    Ok(r)
}

} // verus!

verus! {

/// The storage class of an SQLite value.
#[derive(PartialEq, Eq, Structural, Clone, Copy, Debug)]
pub enum SqlValueType {
    Text,
    Integer,
    Float,
    Blob,
    Null,
}

/// The Python object that an SQLite value is converted to.
#[derive(PartialEq, Eq, Structural, Clone, Copy, Debug)]
pub enum PyConversion {
    /// A `str` of the value's text.
    Str,
    /// An `int` of the value's integer, read as 32 bits.
    Int,
    /// A `float` of the value's double.
    Float,
    /// A `bytes` of the value's blob.
    Bytes,
    /// The Python object that the (null) value carries as a pointer.
    Object,
    /// `None`.
    PyNone,
    /// No object: the text is not valid UTF-8.
    Missing,
}

/// How an SQLite value becomes a Python object. `text_is_utf8` is read for
/// a text value only, and `carries_object` (whether the value holds a
/// pointer to a Python object) for a null only.
pub fn conversion(value_type: SqlValueType, text_is_utf8: bool, carries_object: bool) -> (r:
    PyConversion)
    ensures
        r == conversion_of(value_type, text_is_utf8, carries_object),
        value_type == SqlValueType::Text ==> r == (if text_is_utf8 {
            PyConversion::Str
        } else {
            PyConversion::Missing
        }),
        value_type == SqlValueType::Integer ==> r == PyConversion::Int,
        value_type == SqlValueType::Float ==> r == PyConversion::Float,
        value_type == SqlValueType::Blob ==> r == PyConversion::Bytes,
        value_type == SqlValueType::Null ==> r == (if carries_object {
            PyConversion::Object
        } else {
            PyConversion::PyNone
        }),
{
    match value_type {
        SqlValueType::Text => if text_is_utf8 {
            PyConversion::Str
        } else {
            PyConversion::Missing
        },
        SqlValueType::Integer => PyConversion::Int,
        SqlValueType::Float => PyConversion::Float,
        SqlValueType::Blob => PyConversion::Bytes,
        SqlValueType::Null => if carries_object {
            PyConversion::Object
        } else {
            PyConversion::PyNone
        },
    }
}

/// What a Python result is checked to be, in the order of the checks.
#[derive(PartialEq, Eq, Structural, Clone, Copy, Debug)]
pub struct PyTypeProbe {
    pub is_str: bool,
    pub is_float: bool,
    pub is_int: bool,
    pub is_bytes: bool,
    pub is_none: bool,
}

/// The SQLite result that a Python object is returned as.
#[derive(PartialEq, Eq, Structural, Clone, Copy, Debug)]
pub enum SqlResult {
    Text,
    Double,
    Int,
    Blob,
    Null,
    /// A pointer to the Python object itself, for the other functions of
    /// the extension to take back.
    Pointer,
}

/// How a Python object is returned to SQLite: by the first of `str`,
/// `float`, `int`, `bytes` and `None` that it is, and as a pointer to the
/// object when it is none of them.
pub fn result_kind(p: PyTypeProbe) -> (r: SqlResult)
    ensures
        r == result_kind_of(p),
        p.is_str ==> r == SqlResult::Text,
        !p.is_str && p.is_float ==> r == SqlResult::Double,
        !p.is_str && !p.is_float && p.is_int ==> r == SqlResult::Int,
        !p.is_str && !p.is_float && !p.is_int && p.is_bytes ==> r == SqlResult::Blob,
        !p.is_str && !p.is_float && !p.is_int && !p.is_bytes && p.is_none ==> r
            == SqlResult::Null,
        !p.is_str && !p.is_float && !p.is_int && !p.is_bytes && !p.is_none ==> r
            == SqlResult::Pointer,
{
    if p.is_str {
        SqlResult::Text
    } else if p.is_float {
        SqlResult::Double
    } else if p.is_int {
        SqlResult::Int
    } else if p.is_bytes {
        SqlResult::Blob
    } else if p.is_none {
        SqlResult::Null
    } else {
        SqlResult::Pointer
    }
}

} // verus!

verus! {

/// What one call of a Python iterator's `__next__` gave.
pub enum IterStep<T> {
    /// The next item.
    Yielded(T),
    /// The iterator is exhausted (`StopIteration`).
    Stopped,
    /// Another error.
    Failed,
}

/// The rule of `py_each2`: an item is the next row; the end of the
/// iteration and any other error both end the rows.
pub fn item_or_end<T>(step: IterStep<T>) -> (r: Option<T>)
    ensures
        step matches IterStep::Yielded(x) ==> r == Some(x),
        !(step is Yielded) ==> r is None,
{
    match step {
        IterStep::Yielded(x) => Some(x),
        _ => None,
    }
}

/// The rule of table functions defined in Python: an item is the next row,
/// the end of the iteration ends the rows; another error is not handled.
pub fn item_until_stop<T>(step: IterStep<T>) -> (r: Option<T>)
    requires
        !(step is Failed),
    ensures
        step matches IterStep::Yielded(x) ==> r == Some(x),
        step is Stopped ==> r is None,
{
    match step {
        IterStep::Yielded(x) => Some(x),
        _ => None,
    }
}

/// The Python object that a conversion builds, as the checks of `result_kind`
/// see it: a `str`, `float`, `int`, `bytes` or `None` is that type and none of
/// the others (`str` and `bytes` are different types, and `float` and `int`
/// do not share instances); an object carried by pointer is taken to be none
/// of them.
pub open spec fn probe_of(c: PyConversion) -> PyTypeProbe {
    PyTypeProbe {
        is_str: c == PyConversion::Str,
        is_float: c == PyConversion::Float,
        is_int: c == PyConversion::Int,
        is_bytes: c == PyConversion::Bytes,
        is_none: c == PyConversion::PyNone,
    }
}

/// How an SQLite value is converted (the rule of `conversion`).
pub open spec fn conversion_of(value_type: SqlValueType, text_is_utf8: bool, carries_object: bool) -> PyConversion {
    match value_type {
        SqlValueType::Text => if text_is_utf8 {
            PyConversion::Str
        } else {
            PyConversion::Missing
        },
        SqlValueType::Integer => PyConversion::Int,
        SqlValueType::Float => PyConversion::Float,
        SqlValueType::Blob => PyConversion::Bytes,
        SqlValueType::Null => if carries_object {
            PyConversion::Object
        } else {
            PyConversion::PyNone
        },
    }
}

/// How a Python object is returned (the rule of `result_kind`).
pub open spec fn result_kind_of(p: PyTypeProbe) -> SqlResult {
    if p.is_str {
        SqlResult::Text
    } else if p.is_float {
        SqlResult::Double
    } else if p.is_int {
        SqlResult::Int
    } else if p.is_bytes {
        SqlResult::Blob
    } else if p.is_none {
        SqlResult::Null
    } else {
        SqlResult::Pointer
    }
}

/// The SQLite result of the same type as a value: text for text, an integer
/// for an integer, a double for a float, a blob for a blob, a null for a
/// plain null, and the pointer again for a null that carries an object.
pub open spec fn same_type_result(value_type: SqlValueType, carries_object: bool) -> SqlResult {
    match value_type {
        SqlValueType::Text => SqlResult::Text,
        SqlValueType::Integer => SqlResult::Int,
        SqlValueType::Float => SqlResult::Double,
        SqlValueType::Blob => SqlResult::Blob,
        SqlValueType::Null => if carries_object {
            SqlResult::Pointer
        } else {
            SqlResult::Null
        },
    }
}

/// A value that becomes a Python object comes back as an SQLite value of
/// its own type: converting it and returning the object picks the result
/// kind of the value's type (given that the built object passes exactly the
/// type checks of its Python type, as `probe_of` says).
pub proof fn law_value_round_trip(value_type: SqlValueType, text_is_utf8: bool, carries_object: bool)
    requires
        conversion_of(value_type, text_is_utf8, carries_object) != PyConversion::Missing,
    ensures
        result_kind_of(probe_of(conversion_of(value_type, text_is_utf8, carries_object)))
            == same_type_result(value_type, carries_object),
{
}

} // verus!
