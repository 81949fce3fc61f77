//! The `Error` object and its `ReferenceError` kin.
//!
//! Error objects are thrown when runtime errors occur. The constructors
//! here build the error instance itself: an ordinary object with the
//! prototype the host resolved and, when a message was passed, a `message`
//! property holding its text. Converting an arbitrary message value to a
//! string is the host's `to_string`; these functions take the converted
//! text.

use std::rc::Rc;

use vstd::prelude::*;

use crate::object::JsObject;
use crate::object::PropertyDescriptor;
use crate::string::JsString;
use crate::value::JsError;
use crate::value::JsResult;
use crate::value::JsValue;

verus! {

/// The text of the named field of an error object when it holds a string,
/// else the fallback.
pub open spec fn field_text(o: &JsObject, field: Seq<char>, fallback: Seq<char>) -> Seq<char> {
    match o.get_field_spec(field) {
        Some(v) => match v {
            JsValue::Str(s) => s@,
            _ => fallback,
        },
        None => fallback,
    }
}

/// What `Error.prototype.toString` renders: the message alone for a
/// nameless error, the name alone for a messageless one, else
/// `name: message`.
pub open spec fn error_display_text(name: Seq<char>, message: Seq<char>) -> Seq<char> {
    if name.len() == 0 {
        message
    } else if message.len() == 0 {
        name
    } else {
        name + ": "@ + message
    }
}

/// The built-in `Error` constructor.
pub struct Error;

impl Error {
    /// `Error ( message )`: a fresh, extensible error object under the
    /// prototype the host resolved, holding the message text as its
    /// `message` property when one was passed.
    pub fn constructor(prototype: Option<Rc<JsObject>>, message: Option<JsString>) -> (obj:
        JsObject)
        requires
            prototype matches Some(p) ==> p.wf(),
        ensures
            obj.wf(),
            obj.proto() == prototype,
            obj.is_extensible_spec(),
            match message {
                Some(m) => obj.props() == Map::<Seq<char>, PropertyDescriptor>::empty().insert(
                    "message"@,
                    PropertyDescriptor {
                        value: JsValue::Str(m),
                        writable: true,
                        enumerable: true,
                        configurable: true,
                    },
                ),
                None => obj.props() == Map::<Seq<char>, PropertyDescriptor>::empty(),
            },
    {
        let mut obj = match prototype {
            Some(p) => JsObject::with_prototype(p),
            None => JsObject::new(),
        };
        match message {
            Some(m) => {
                let set = obj.set_property("message", JsValue::Str(m), false);
                match set {
                    Ok(_) => obj,
                    Err(_) => obj,  // unreachable: the object is fresh and extensible
                }
            },
            None => obj,
        }
    }

    /// `Error.prototype.toString ()`: render the error as
    /// `name: message`, letting either half stand alone when the other is
    /// empty. The `name` field defaults to `Error` and the `message` field
    /// to the empty string; a non-object `this` is a `TypeError`.
    pub fn to_string(this: &JsValue) -> (r: JsResult<JsString>)
        requires
            this matches JsValue::Object(o) ==> {
                &&& o.wf()
                &&& (o.get_field_spec("name"@) matches Some(v) ==> (v matches JsValue::Str(_)
                    || v matches JsValue::Undefined))
                &&& (o.get_field_spec("message"@) matches Some(v) ==> (v matches JsValue::Str(_)
                    || v matches JsValue::Undefined))
            },
        ensures
            match this {
                JsValue::Object(o) => r matches Ok(s) && s@ == error_display_text(
                    field_text(o, "name"@, "Error"@),
                    field_text(o, "message"@, Seq::<char>::empty()),
                ),
                _ => r matches Err(e) && e.is_type(),
            },
    {
        let o = match this {
            JsValue::Object(o) => o,
            _ => {
                return Err(JsError::Type("'this' is not an Object".to_owned()));
            },
        };
        let name = match o.get_field("name") {
            JsValue::Str(s) => s,
            _ => JsString::new("Error"),
        };
        let message = match o.get_field("message") {
            JsValue::Str(s) => s,
            _ => JsString::new(""),
        };
        proof {
            reveal_strlit("Error");
            reveal_strlit("");
        }
        if name.is_empty() {
            Ok(message)
        } else if message.is_empty() {
            Ok(name)
        } else {
            let head = JsString::concat(name.as_str(), ": ");
            Ok(JsString::concat(head.as_str(), message.as_str()))
        }
    }
}

/// The built-in `ReferenceError` constructor: an error thrown when an
/// invalid reference is dereferenced.
pub struct ReferenceError;

impl ReferenceError {
    /// `ReferenceError ( message )`: built exactly as `Error ( message )`
    /// is, under the `ReferenceError` prototype the host resolved.
    pub fn constructor(prototype: Option<Rc<JsObject>>, message: Option<JsString>) -> (obj:
        JsObject)
        requires
            prototype matches Some(p) ==> p.wf(),
        ensures
            obj.wf(),
            obj.proto() == prototype,
            obj.is_extensible_spec(),
            match message {
                Some(m) => obj.props() == Map::<Seq<char>, PropertyDescriptor>::empty().insert(
                    "message"@,
                    PropertyDescriptor {
                        value: JsValue::Str(m),
                        writable: true,
                        enumerable: true,
                        configurable: true,
                    },
                ),
                None => obj.props() == Map::<Seq<char>, PropertyDescriptor>::empty(),
            },
    {
        Error::constructor(prototype, message)
    }
}

} // verus!
