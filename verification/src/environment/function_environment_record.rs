//! Function environment records.
//!
//! A function environment record is a declarative record used for the
//! top-level scope of a function. When the function is not an arrow
//! function it also provides the `this` binding, and, through its home
//! object, the state needed for `super` method invocations. See ECMA-262
//! section 8.1.1.3.

use std::rc::Rc;

use vstd::prelude::*;

use crate::environment::declarative_environment_record::DeclarativeEnvironmentRecord;
use crate::environment::lexical_environment::Environment;
use crate::object::JsObject;
use crate::value::ErrorKind;
use crate::value::JsError;
use crate::value::JsResult;
use crate::value::JsValue;

verus! {

/// The state of a function record's `this` binding.
#[derive(Clone, Copy, PartialEq, Eq, Structural, Debug)]
pub enum BindingStatus {
    /// An arrow function: it has no local `this`; the value comes from the
    /// lexical scope above.
    Lexical,
    /// The record has been bound with a `this` value.
    Initialized,
    /// The record has not yet been bound with a `this` value.
    Uninitialized,
}

/// A declarative record augmented with `this`, the owning function, a home
/// object for `super`, and `new.target`.
pub struct FunctionEnvironmentRecord {
    /// The embedded declarative record holding the function's bindings and
    /// the outer environment.
    pub declarative_record: DeclarativeEnvironmentRecord,
    /// The `this` value of this invocation; observable only once the
    /// status is `Initialized`.
    pub this_value: JsValue,
    /// The state of the `this` binding.
    pub this_binding_status: BindingStatus,
    /// The function object whose invocation created this record.
    pub function: JsObject,
    /// The object the function is bound to as a method, or `undefined`.
    pub home_object: JsValue,
    /// The `new.target` of a `[[Construct]]` invocation, or `undefined`.
    pub new_target: JsValue,
}

impl FunctionEnvironmentRecord {
    /// The embedded record is well-formed and the home object, when
    /// present, is an object.
    pub open spec fn local_wf(&self) -> bool {
        &&& self.declarative_record.local_wf()
        &&& (self.home_object matches JsValue::Undefined || self.home_object matches JsValue::Object(
            _,
        ))
    }

    /// What binding `this` does: on an uninitialized record the value is
    /// stored and the status becomes `Initialized`; on an already
    /// initialized record a `ReferenceError` leaves the record unchanged.
    /// A lexical record never reaches this operation.
    pub open spec fn bind_this_value_rel(
        pre: Self,
        post: Self,
        value: JsValue,
        r: JsResult<JsValue>,
    ) -> bool {
        &&& post.declarative_record == pre.declarative_record
        &&& post.function == pre.function
        &&& post.home_object == pre.home_object
        &&& post.new_target == pre.new_target
        &&& match pre.this_binding_status {
            BindingStatus::Uninitialized => {
                &&& post.this_value == value
                &&& post.this_binding_status == BindingStatus::Initialized
                &&& r matches Ok(v) && v == value
            },
            BindingStatus::Initialized => {
                &&& post.this_value == pre.this_value
                &&& post.this_binding_status == pre.this_binding_status
                &&& r matches Err(e) && e.is_reference() && e.message()
                    == "Cannot bind to an initialised function"@
            },
            BindingStatus::Lexical => false,
        }
    }

    /// Law: `this` binds exactly once. After a successful bind, a second
    /// bind raises a reference error and the stored `this` value stays
    /// what the first bind made it.
    pub proof fn lemma_bind_this_value_once(
        s0: Self,
        s1: Self,
        s2: Self,
        v: JsValue,
        w: JsValue,
        r1: JsResult<JsValue>,
        r2: JsResult<JsValue>,
    )
        requires
            s0.this_binding_status == BindingStatus::Uninitialized,
            Self::bind_this_value_rel(s0, s1, v, r1),
            Self::bind_this_value_rel(s1, s2, w, r2),
        ensures
            r1 matches Ok(x) && x == v,
            s1.this_value == v,
            r2 matches Err(e) && e.is_reference(),
            s2.this_value == v,
            s2.this_binding_status == BindingStatus::Initialized,
    {
    }

    /// A fresh function record.
    ///
    /// When a `this` value is passed the record must start uninitialized;
    /// it is bound at once and the record comes back initialized.
    pub fn new(
        f: JsObject,
        this: Option<JsValue>,
        outer: Option<Environment>,
        binding_status: BindingStatus,
        new_target: JsValue,
    ) -> (r: Self)
        requires
            this is Some ==> binding_status == BindingStatus::Uninitialized,
        ensures
            r.local_wf(),
            r.declarative_record.map() == Map::<
                Seq<char>,
                crate::environment::declarative_environment_record::Binding,
            >::empty(),
            match (r.declarative_record.outer_spec(), outer) {
                (Some(b), Some(e)) => *b == e,
                (None, None) => true,
                _ => false,
            },
            r.function == f,
            r.home_object == JsValue::Undefined,
            r.new_target == new_target,
            match this {
                Some(v) => r.this_binding_status == BindingStatus::Initialized && r.this_value
                    == v,
                None => r.this_binding_status == binding_status && r.this_value
                    == JsValue::Undefined,
            },
    {
        let mut func_env = FunctionEnvironmentRecord {
            declarative_record: DeclarativeEnvironmentRecord::new(outer),
            function: f,
            this_binding_status: binding_status,
            home_object: JsValue::undefined(),
            new_target,
            this_value: JsValue::undefined(),
        };
        match this {
            Some(v) => {
                let bound = func_env.bind_this_value(v);
                match bound {
                    Ok(_) => func_env,
                    Err(_) => func_env,  // unreachable: the record starts uninitialized
                }
            },
            None => func_env,
        }
    }

    /// Bind the `this` value of an uninitialized record.
    ///
    /// Binding an already initialized record raises a `ReferenceError`; an
    /// arrow function's record must never reach this operation, since its
    /// `this` lives in the scope above.
    pub fn bind_this_value(&mut self, value: JsValue) -> (r: JsResult<JsValue>)
        requires
            !(old(self).this_binding_status == BindingStatus::Lexical),
        ensures
            Self::bind_this_value_rel(*old(self), *final(self), value, r),
    {
        match self.this_binding_status {
            BindingStatus::Lexical => {
                // excluded by the precondition: arrow functions resolve
                // `this` lexically
                Err(JsError::Reference("Cannot bind to an arrow function".to_owned()))
            },
            BindingStatus::Initialized => {
                Err(JsError::Reference("Cannot bind to an initialised function".to_owned()))
            },
            BindingStatus::Uninitialized => {
                self.this_value = value.clone();
                self.this_binding_status = BindingStatus::Initialized;
                Ok(value)
            },
        }
    }

    /// The base for `super` property accesses: `undefined` without a home
    /// object, else the home object's prototype.
    pub fn get_super_base(&self) -> (r: JsValue)
        requires
            self.local_wf(),
        ensures
            match self.home_object {
                JsValue::Undefined => r == JsValue::Undefined,
                JsValue::Object(home) => match home.proto() {
                    Some(p) => r == JsValue::Object(p),
                    None => r == JsValue::Null,
                },
                _ => false,
            },
    {
        match &self.home_object {
            JsValue::Undefined => JsValue::Undefined,
            JsValue::Object(home) => home.prototype_instance(),
            _ => {
                // excluded by well-formedness: the home object is an object
                // or undefined
                JsValue::Undefined
            },
        }
    }

    /// True iff the record provides a `this` binding: every status but
    /// `Lexical`.
    pub fn has_this_binding(&self) -> (r: bool)
        ensures
            r == !(self.this_binding_status == BindingStatus::Lexical),
    {
        !matches!(self.this_binding_status, BindingStatus::Lexical)
    }

    /// Read the `this` binding: the stored value once initialized, a
    /// `ReferenceError` before. A lexical record has no `this` to read.
    pub fn get_this_binding(&self) -> (r: JsResult<JsValue>)
        requires
            !(self.this_binding_status == BindingStatus::Lexical),
        ensures
            match self.this_binding_status {
                BindingStatus::Initialized => r matches Ok(v) && v == self.this_value,
                BindingStatus::Uninitialized => r matches Err(e) && e.is_reference()
                    && e.message() == "Uninitialised binding for this function"@,
                BindingStatus::Lexical => false,
            },
    {
        match self.this_binding_status {
            BindingStatus::Lexical => {
                // excluded by the precondition
                Err(JsError::Reference("There is no this for a lexical function record".to_owned()))
            },
            BindingStatus::Uninitialized => {
                Err(JsError::Reference("Uninitialised binding for this function".to_owned()))
            },
            BindingStatus::Initialized => Ok(self.this_value.clone()),
        }
    }

    /// True iff the record supports `super`: it is not lexical and has a
    /// home object.
    pub fn has_super_binding(&self) -> (r: bool)
        ensures
            r == (!(self.this_binding_status == BindingStatus::Lexical) && self.home_object matches JsValue::Object(
                _,
            )),
    {
        if matches!(self.this_binding_status, BindingStatus::Lexical) {
            false
        } else {
            !self.home_object.is_undefined() && self.home_object.is_object()
        }
    }

    /// Record the object this function is bound to as a method.
    pub fn set_home_object(&mut self, home: Rc<JsObject>)
        ensures
            final(self).declarative_record == old(self).declarative_record,
            final(self).this_value == old(self).this_value,
            final(self).this_binding_status == old(self).this_binding_status,
            final(self).function == old(self).function,
            final(self).new_target == old(self).new_target,
            final(self).home_object == JsValue::Object(home),
    {
        self.home_object = JsValue::Object(home);
    }
}

} // verus!
