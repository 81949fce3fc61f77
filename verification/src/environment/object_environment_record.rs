//! Object environment records.
//!
//! An object environment record wraps a heap object: its bindings are that
//! object's properties. It models `with` scopes and the object half of the
//! global scope, following ECMA-262 section 8.1.1.2.

use vstd::prelude::*;

use crate::environment::lexical_environment::Environment;
use crate::object::JsObject;
use crate::object::PropertyDescriptor;
use crate::value::ErrorKind;
use crate::value::JsError;
use crate::value::JsResult;
use crate::value::JsValue;

verus! {

/// A scope whose bindings are the properties of a host object.
pub struct ObjectEnvironmentRecord {
    /// The bindings object.
    pub bindings: JsObject,
    /// Whether this record was created for a `with` statement, in which
    /// case the bindings object is also an implicit `this` for calls.
    pub with_environment: bool,
    /// The enclosing environment, if any.
    pub outer_env: Option<Box<Environment>>,
}

impl ObjectEnvironmentRecord {
    /// The bindings object is well-formed.
    pub open spec fn local_wf(&self) -> bool {
        self.bindings.wf()
    }

    /// The outer environment.
    pub open spec fn outer_spec(&self) -> Option<Box<Environment>> {
        self.outer_env
    }

    /// A binding exists iff the object (or its prototype chain) has the
    /// property.
    pub open spec fn has_binding_spec(&self, name: Seq<char>) -> bool {
        self.bindings.has_field_spec(name)
    }

    /// What creating a mutable binding does: install a writable, enumerable
    /// data property, configurable iff `deletion`, value `undefined`. On a
    /// non-extensible object without the property the installation is
    /// refused with a `TypeError`.
    pub open spec fn create_mutable_binding_rel(
        pre: Self,
        post: Self,
        name: Seq<char>,
        deletion: bool,
        r: JsResult<()>,
    ) -> bool {
        &&& post.outer_spec() == pre.outer_spec()
        &&& post.with_environment == pre.with_environment
        &&& post.bindings.proto() == pre.bindings.proto()
        &&& post.bindings.is_extensible_spec() == pre.bindings.is_extensible_spec()
        &&& if pre.bindings.props().contains_key(name) || pre.bindings.is_extensible_spec() {
            &&& post.bindings.props() == pre.bindings.props().insert(
                name,
                PropertyDescriptor {
                    value: JsValue::Undefined,
                    writable: true,
                    enumerable: true,
                    configurable: deletion,
                },
            )
            &&& r is Ok
        } else {
            &&& post.bindings.props() == pre.bindings.props()
            &&& r matches Err(e) && e.is_type()
        }
    }

    /// What writing a binding does: ordinary set on the bindings object,
    /// except that writing a binding that no longer exists is a
    /// `ReferenceError` in strict mode.
    pub open spec fn set_mutable_binding_rel(
        pre: Self,
        post: Self,
        name: Seq<char>,
        value: JsValue,
        strict: bool,
        r: JsResult<()>,
    ) -> bool {
        &&& post.outer_spec() == pre.outer_spec()
        &&& post.with_environment == pre.with_environment
        &&& post.bindings.proto() == pre.bindings.proto()
        &&& post.bindings.is_extensible_spec() == pre.bindings.is_extensible_spec()
        &&& if !pre.has_binding_spec(name) && strict {
            &&& post.bindings.props() == pre.bindings.props()
            &&& r matches Err(e) && e.is_reference()
        } else {
            let m = pre.bindings.props();
            if m.contains_key(name) {
                if m[name].writable {
                    &&& post.bindings.props() == m.insert(
                        name,
                        PropertyDescriptor { value, ..m[name] },
                    )
                    &&& r is Ok
                } else {
                    &&& post.bindings.props() == m
                    &&& if strict {
                        r matches Err(e) && e.is_type()
                    } else {
                        r is Ok
                    }
                }
            } else {
                if pre.bindings.is_extensible_spec() {
                    &&& post.bindings.props() == m.insert(
                        name,
                        PropertyDescriptor {
                            value,
                            writable: true,
                            enumerable: true,
                            configurable: true,
                        },
                    )
                    &&& r is Ok
                } else {
                    &&& post.bindings.props() == m
                    &&& if strict {
                        r matches Err(e) && e.is_type()
                    } else {
                        r is Ok
                    }
                }
            }
        }
    }

    /// What reading a binding yields: the property's value through the
    /// prototype chain; a missing property is `undefined` in sloppy mode
    /// and a `ReferenceError` in strict mode.
    pub open spec fn get_binding_value_spec(&self, name: Seq<char>, strict: bool) -> Result<
        JsValue,
        ErrorKind,
    > {
        if !self.has_binding_spec(name) {
            if strict {
                Err(ErrorKind::Reference)
            } else {
                Ok(JsValue::Undefined)
            }
        } else {
            match self.bindings.get_field_spec(name) {
                Some(v) => Ok(v),
                None => Ok(JsValue::Undefined),
            }
        }
    }

    /// What deleting a binding does: delete the own property; only a
    /// configurable property goes, and an absent one counts as deleted.
    pub open spec fn delete_binding_rel(pre: Self, post: Self, name: Seq<char>, r: bool) -> bool {
        &&& post.outer_spec() == pre.outer_spec()
        &&& post.with_environment == pre.with_environment
        &&& post.bindings.proto() == pre.bindings.proto()
        &&& post.bindings.is_extensible_spec() == pre.bindings.is_extensible_spec()
        &&& ({
            let m = pre.bindings.props();
            if m.contains_key(name) {
                if m[name].configurable {
                    r && post.bindings.props() == m.remove(name)
                } else {
                    !r && post.bindings.props() == m
                }
            } else {
                r && post.bindings.props() == m
            }
        })
    }

    /// A fresh record over `bindings`, with the given outer environment.
    pub fn new(bindings: JsObject, with_environment: bool, outer: Option<Environment>) -> (r: Self)
        ensures
            r.bindings == bindings,
            r.with_environment == with_environment,
            match (r.outer_spec(), outer) {
                (Some(b), Some(e)) => *b == e,
                (None, None) => true,
                _ => false,
            },
    {
        let boxed = match outer {
            Some(e) => Some(Box::new(e)),
            None => None,
        };
        ObjectEnvironmentRecord { bindings, with_environment, outer_env: boxed }
    }

    /// True iff the bindings object has the property, own or inherited.
    pub fn has_binding(&self, name: &str) -> (r: bool)
        requires
            self.local_wf(),
        ensures
            r == self.has_binding_spec(name@),
    {
        self.bindings.has_field(name)
    }

    /// Install the property for a new mutable binding.
    pub fn create_mutable_binding(&mut self, name: String, deletion: bool) -> (r: JsResult<()>)
        requires
            old(self).local_wf(),
        ensures
            final(self).local_wf(),
            Self::create_mutable_binding_rel(*old(self), *final(self), name@, deletion, r),
    {
        let desc = PropertyDescriptor {
            value: JsValue::Undefined,
            writable: true,
            enumerable: true,
            configurable: deletion,
        };
        if self.bindings.define_own_property(name, desc) {
            Ok(())
        } else {
            Err(JsError::Type("Cannot define property on non-extensible object".to_owned()))
        }
    }

    /// Initialize a binding: an ordinary sloppy-mode write.
    pub fn initialize_binding(&mut self, name: &str, value: JsValue) -> (r: JsResult<()>)
        requires
            old(self).local_wf(),
        ensures
            final(self).local_wf(),
            Self::set_mutable_binding_rel(*old(self), *final(self), name@, value, false, r),
    {
        self.set_mutable_binding(name, value, false)
    }

    /// Write a binding through the object's set semantics.
    pub fn set_mutable_binding(&mut self, name: &str, value: JsValue, strict: bool) -> (r:
        JsResult<()>)
        requires
            old(self).local_wf(),
        ensures
            final(self).local_wf(),
            Self::set_mutable_binding_rel(*old(self), *final(self), name@, value, strict, r),
    {
        let still_exists = self.bindings.has_field(name);
        if !still_exists && strict {
            return Err(JsError::Reference(name.to_owned().concat(" has no binding")));
        }
        self.bindings.set_property(name, value, strict)
    }

    /// Read a binding's value.
    pub fn get_binding_value(&self, name: &str, strict: bool) -> (r: JsResult<JsValue>)
        requires
            self.local_wf(),
        ensures
            match (r, self.get_binding_value_spec(name@, strict)) {
                (Ok(v), Ok(w)) => v == w,
                (Err(e), Err(k)) => e.kind() == k,
                _ => false,
            },
    {
        if !self.bindings.has_field(name) {
            if strict {
                return Err(JsError::Reference(name.to_owned().concat(" has no binding")));
            }
            return Ok(JsValue::Undefined);
        }
        Ok(self.bindings.get_field(name))
    }

    /// Delete a binding by deleting the property.
    pub fn delete_binding(&mut self, name: &str) -> (r: bool)
        requires
            old(self).local_wf(),
        ensures
            final(self).local_wf(),
            Self::delete_binding_rel(*old(self), *final(self), name@, r),
    {
        self.bindings.delete_own_property(name)
    }

    /// The bindings object when this is a `with` environment, else none.
    pub fn with_base_object(&self) -> (r: Option<&JsObject>)
        ensures
            match r {
                Some(o) => self.with_environment && *o == self.bindings,
                None => !self.with_environment,
            },
    {
        if self.with_environment {
            Some(&self.bindings)
        } else {
            None
        }
    }

    /// The outer environment, borrowed.
    pub fn get_outer_environment_ref(&self) -> (r: Option<&Environment>)
        ensures
            match (r, self.outer_spec()) {
                (Some(e), Some(o)) => *e == *o,
                (None, None) => true,
                _ => false,
            },
    {
        match &self.outer_env {
            Some(e) => Some(&**e),
            None => None,
        }
    }

    /// Replace the outer environment.
    pub fn set_outer_environment(&mut self, env: Environment)
        ensures
            final(self).bindings == old(self).bindings,
            final(self).with_environment == old(self).with_environment,
            final(self).outer_spec() matches Some(b) && *b == env,
    {
        self.outer_env = Some(Box::new(env));
    }
}

} // verus!
