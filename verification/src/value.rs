//! JavaScript values and thrown errors.
//!
//! `JsValue` is the tagged sum of the primitive values plus a handle to a
//! heap object. Objects are shared: copying a value copies the handle, not
//! the object. `JsError` is the typed failure that binding operations
//! surface; the host turns it into the corresponding user-visible exception
//! object.

use std::rc::Rc;

use vstd::prelude::*;

use crate::object::JsObject;
use crate::string::JsString;

verus! {

/// A JavaScript value.
pub enum JsValue {
    /// The `undefined` value.
    Undefined,
    /// The `null` value.
    Null,
    /// A boolean.
    Boolean(bool),
    /// An integer number. (The core stores only what the records need; the
    /// host's full number type stays outside.)
    Integer(i64),
    /// A primitive string.
    Str(JsString),
    /// A handle to a shared heap object.
    Object(Rc<JsObject>),
}

impl JsValue {
    /// The `undefined` value.
    pub fn undefined() -> (r: Self)
        ensures
            r == JsValue::Undefined,
    {
        JsValue::Undefined
    }

    /// True iff this is `undefined`.
    pub fn is_undefined(&self) -> (r: bool)
        ensures
            r == (*self matches JsValue::Undefined),
    {
        matches!(self, JsValue::Undefined)
    }

    /// True iff this is an object handle.
    pub fn is_object(&self) -> (r: bool)
        ensures
            r == (*self matches JsValue::Object(_)),
    {
        matches!(self, JsValue::Object(_))
    }
}

impl Clone for JsValue {
    /// Copy the value; an object handle is shared, not deep-copied.
    fn clone(&self) -> (r: Self)
        ensures
            r == *self,
    {
        match self {
            JsValue::Undefined => JsValue::Undefined,
            JsValue::Null => JsValue::Null,
            JsValue::Boolean(b) => JsValue::Boolean(*b),
            JsValue::Integer(i) => JsValue::Integer(*i),
            JsValue::Str(s) => JsValue::Str(s.clone()),
            JsValue::Object(o) => JsValue::Object(o.clone()),
        }
    }
}

/// The kind of a thrown error, without its message.
#[derive(PartialEq, Eq, Structural)]
pub enum ErrorKind {
    /// A `ReferenceError`.
    Reference,
    /// A `TypeError`.
    Type,
}

/// A thrown error: the kind the host must surface, with its message.
#[derive(Debug)]
pub enum JsError {
    /// A `ReferenceError`: an uninitialized or unresolvable binding, or an
    /// attempt to bind `this` twice.
    Reference(String),
    /// A `TypeError`: a duplicate declaration or a forbidden write.
    Type(String),
}

impl JsError {
    /// True iff this is a `ReferenceError`.
    pub open spec fn is_reference(&self) -> bool {
        self matches JsError::Reference(_)
    }

    /// True iff this is a `TypeError`.
    pub open spec fn is_type(&self) -> bool {
        self matches JsError::Type(_)
    }

    /// The kind of the error.
    pub open spec fn kind(&self) -> ErrorKind {
        match self {
            JsError::Reference(_) => ErrorKind::Reference,
            JsError::Type(_) => ErrorKind::Type,
        }
    }

    /// The message carried by the error.
    pub open spec fn message(&self) -> Seq<char> {
        match self {
            JsError::Reference(m) => m@,
            JsError::Type(m) => m@,
        }
    }

    /// The kind of the error, as text the host can show.
    pub fn kind_name(&self) -> (r: &'static str)
        ensures
            self.is_reference() ==> r@ == "ReferenceError"@,
            self.is_type() ==> r@ == "TypeError"@,
    {
        match self {
            JsError::Reference(_) => "ReferenceError",
            JsError::Type(_) => "TypeError",
        }
    }
}

/// The outcome of a binding operation: a value, or a thrown error.
pub type JsResult<T> = Result<T, JsError>;

} // verus!
