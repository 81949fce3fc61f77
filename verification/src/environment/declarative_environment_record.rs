//! Declarative environment records.
//!
//! A declarative environment record holds a set of named bindings in a
//! private table, together with a handle to the enclosing (outer)
//! environment. It models `let`/`const`/function-local scopes, following
//! ECMA-262 section 8.1.1.1.

use vstd::prelude::*;
use vstd::string::StringExecFns;

use crate::environment::lexical_environment::Environment;
use crate::name_map::NameMap;
use crate::value::JsError;
use crate::value::JsResult;
use crate::value::JsValue;

verus! {

/// One named slot in a declarative record.
///
/// The binding is initialized iff `value` is present. An uninitialized
/// binding cannot be read; an immutable initialized binding cannot be
/// written; a non-deletable binding cannot be deleted.
pub struct Binding {
    /// The bound value; present iff the binding has been initialized.
    pub value: Option<JsValue>,
    /// May `delete_binding` remove this binding.
    pub can_delete: bool,
    /// May the value change after initialization.
    pub mutable: bool,
    /// For immutable bindings: does a write in sloppy mode also throw.
    pub strict: bool,
}

/// A scope whose bindings live in a private map, plus the outer
/// environment.
pub struct DeclarativeEnvironmentRecord {
    /// The binding table.
    pub bindings: NameMap<Binding>,
    /// The enclosing environment, if any.
    pub outer_env: Option<Box<Environment>>,
}

impl DeclarativeEnvironmentRecord {
    /// The binding table is well-formed.
    pub open spec fn local_wf(&self) -> bool {
        self.bindings.wf()
    }

    /// The bindings, by name.
    pub open spec fn map(&self) -> Map<Seq<char>, Binding> {
        self.bindings.map()
    }

    /// The outer environment.
    pub open spec fn outer_spec(&self) -> Option<Box<Environment>> {
        self.outer_env
    }

    /// What creating a mutable binding does: an already-present name is
    /// refused with a `TypeError` unless reuse is allowed; otherwise an
    /// uninitialized, mutable binding is added, deletable iff `deletion`.
    pub open spec fn create_mutable_binding_rel(
        pre: Self,
        post: Self,
        name: Seq<char>,
        deletion: bool,
        allow_name_reuse: bool,
        r: JsResult<()>,
    ) -> bool {
        &&& post.outer_spec() == pre.outer_spec()
        &&& if !allow_name_reuse && pre.map().contains_key(name) {
            &&& post.map() == pre.map()
            &&& r matches Err(e) && e.is_type() && e.message() == "Binding already exists for "@
                + name
        } else {
            &&& post.map() == pre.map().insert(
                name,
                Binding { value: None, can_delete: deletion, mutable: true, strict: false },
            )
            &&& r is Ok
        }
    }

    /// What creating an immutable binding does: an already-present name is
    /// refused with a `TypeError`; otherwise an uninitialized, immutable
    /// binding is added, strict iff `strict`.
    pub open spec fn create_immutable_binding_rel(
        pre: Self,
        post: Self,
        name: Seq<char>,
        strict: bool,
        r: JsResult<()>,
    ) -> bool {
        &&& post.outer_spec() == pre.outer_spec()
        &&& if pre.map().contains_key(name) {
            &&& post.map() == pre.map()
            &&& r matches Err(e) && e.is_type() && e.message() == "Binding already exists for "@
                + name
        } else {
            &&& post.map() == pre.map().insert(
                name,
                Binding { value: None, can_delete: true, mutable: false, strict },
            )
            &&& r is Ok
        }
    }

    /// What initializing a binding does: the uninitialized binding receives
    /// its value and keeps its attributes.
    pub open spec fn initialize_binding_rel(
        pre: Self,
        post: Self,
        name: Seq<char>,
        value: JsValue,
        r: JsResult<()>,
    ) -> bool {
        &&& post.outer_spec() == pre.outer_spec()
        &&& post.map() == pre.map().insert(
            name,
            Binding { value: Some(value), ..pre.map()[name] },
        )
        &&& r is Ok
    }

    /// What writing a binding does.
    ///
    /// A missing name: in strict mode a `ReferenceError`; in sloppy mode a
    /// fresh mutable, deletable binding initialized to the value. An
    /// uninitialized binding: the write initializes it. A mutable
    /// initialized binding: the value is replaced. An immutable initialized
    /// binding: a `TypeError` when the write or the binding is strict, else
    /// a silent no-op.
    pub open spec fn set_mutable_binding_rel(
        pre: Self,
        post: Self,
        name: Seq<char>,
        value: JsValue,
        strict: bool,
        r: JsResult<()>,
    ) -> bool {
        &&& post.outer_spec() == pre.outer_spec()
        &&& if !pre.map().contains_key(name) {
            if strict {
                &&& post.map() == pre.map()
                &&& r matches Err(e) && e.is_reference()
            } else {
                &&& post.map() == pre.map().insert(
                    name,
                    Binding {
                        value: Some(value),
                        can_delete: true,
                        mutable: true,
                        strict: false,
                    },
                )
                &&& r is Ok
            }
        } else {
            let b = pre.map()[name];
            if b.value is None || b.mutable {
                &&& post.map() == pre.map().insert(name, Binding { value: Some(value), ..b })
                &&& r is Ok
            } else {
                &&& post.map() == pre.map()
                &&& if strict || b.strict {
                    r matches Err(e) && e.is_type()
                } else {
                    r is Ok
                }
            }
        }
    }

    /// What reading a binding yields: the value of an initialized binding,
    /// a `ReferenceError` for an uninitialized one.
    pub open spec fn get_binding_value_spec(&self, name: Seq<char>) -> Result<
        JsValue,
        crate::value::ErrorKind,
    > {
        if self.map().contains_key(name) {
            match self.map()[name].value {
                Some(v) => Ok(v),
                None => Err(crate::value::ErrorKind::Reference),
            }
        } else {
            Err(crate::value::ErrorKind::Reference)
        }
    }

    /// What deleting a binding does: a deletable binding is removed and the
    /// call answers true; a non-deletable one stays and the call answers
    /// false.
    pub open spec fn delete_binding_rel(pre: Self, post: Self, name: Seq<char>, r: bool) -> bool {
        &&& post.outer_spec() == pre.outer_spec()
        &&& if pre.map()[name].can_delete {
            r && post.map() == pre.map().remove(name)
        } else {
            !r && post.map() == pre.map()
        }
    }

    /// Law: creating a binding and then creating another binding of the
    /// same name, without allowing reuse, fails with "binding already
    /// exists" and changes nothing, whether the second binding is mutable
    /// or immutable.
    pub proof fn lemma_duplicate_binding_rejected(
        pre: Self,
        mid: Self,
        post: Self,
        name: Seq<char>,
        deletion: bool,
        second_mutable: bool,
        deletion2: bool,
        strict2: bool,
        r1: JsResult<()>,
        r2: JsResult<()>,
    )
        requires
            Self::create_mutable_binding_rel(pre, mid, name, deletion, false, r1),
            r1 is Ok,
            if second_mutable {
                Self::create_mutable_binding_rel(mid, post, name, deletion2, false, r2)
            } else {
                Self::create_immutable_binding_rel(mid, post, name, strict2, r2)
            },
        ensures
            r2 matches Err(e) && e.is_type() && e.message() == "Binding already exists for "@
                + name,
            post.map() == mid.map(),
    {
    }

    /// Law: a binding read before its initialization fails with a
    /// reference error, whether it was created mutable or immutable.
    pub proof fn lemma_read_before_initialize_fails(
        pre: Self,
        post: Self,
        name: Seq<char>,
        created_mutable: bool,
        deletion: bool,
        strict: bool,
        r: JsResult<()>,
    )
        requires
            if created_mutable {
                Self::create_mutable_binding_rel(pre, post, name, deletion, false, r)
            } else {
                Self::create_immutable_binding_rel(pre, post, name, strict, r)
            },
            r is Ok,
        ensures
            post.get_binding_value_spec(name) == Err::<JsValue, crate::value::ErrorKind>(
                crate::value::ErrorKind::Reference,
            ),
    {
    }

    /// Law: once an immutable strict binding has been created and
    /// initialized, a strict write fails with a type error, and the
    /// binding still reads as the initialized value.
    pub proof fn lemma_immutable_binding_keeps_value(
        s0: Self,
        s1: Self,
        s2: Self,
        s3: Self,
        name: Seq<char>,
        v: JsValue,
        w: JsValue,
        r1: JsResult<()>,
        r2: JsResult<()>,
        r3: JsResult<()>,
    )
        requires
            Self::create_immutable_binding_rel(s0, s1, name, true, r1),
            r1 is Ok,
            Self::initialize_binding_rel(s1, s2, name, v, r2),
            Self::set_mutable_binding_rel(s2, s3, name, w, true, r3),
        ensures
            r3 matches Err(e) && e.is_type(),
            s3.map() == s2.map(),
            s3.get_binding_value_spec(name) == Ok::<JsValue, crate::value::ErrorKind>(v),
    {
    }

    /// A fresh record with no bindings and the given outer environment.
    pub fn new(outer: Option<Environment>) -> (r: Self)
        ensures
            r.local_wf(),
            r.map() == Map::<Seq<char>, Binding>::empty(),
            match (r.outer_spec(), outer) {
                (Some(b), Some(e)) => *b == e,
                (None, None) => true,
                _ => false,
            },
    {
        let boxed = match outer {
            Some(e) => Some(Box::new(e)),
            None => None,
        };
        DeclarativeEnvironmentRecord { bindings: NameMap::new(), outer_env: boxed }
    }

    /// True iff the record has a binding named `name`.
    pub fn has_binding(&self, name: &str) -> (r: bool)
        ensures
            r == self.map().contains_key(name@),
    {
        self.bindings.contains_key(name)
    }

    /// Create an uninitialized mutable binding.
    pub fn create_mutable_binding(
        &mut self,
        name: String,
        deletion: bool,
        allow_name_reuse: bool,
    ) -> (r: JsResult<()>)
        requires
            old(self).local_wf(),
        ensures
            final(self).local_wf(),
            Self::create_mutable_binding_rel(
                *old(self),
                *final(self),
                name@,
                deletion,
                allow_name_reuse,
                r,
            ),
    {
        if !allow_name_reuse && self.bindings.contains_key(name.as_str()) {
            return Err(
                JsError::Type("Binding already exists for ".to_owned().concat(name.as_str())),
            );
        }
        self.bindings.insert(
            name,
            Binding { value: None, can_delete: deletion, mutable: true, strict: false },
        );
        Ok(())
    }

    /// Create an uninitialized immutable binding.
    pub fn create_immutable_binding(&mut self, name: String, strict: bool) -> (r: JsResult<()>)
        requires
            old(self).local_wf(),
        ensures
            final(self).local_wf(),
            Self::create_immutable_binding_rel(*old(self), *final(self), name@, strict, r),
    {
        if self.bindings.contains_key(name.as_str()) {
            return Err(
                JsError::Type("Binding already exists for ".to_owned().concat(name.as_str())),
            );
        }
        self.bindings.insert(
            name,
            Binding { value: None, can_delete: true, mutable: false, strict },
        );
        Ok(())
    }

    /// Give an uninitialized binding its value.
    pub fn initialize_binding(&mut self, name: &str, value: JsValue) -> (r: JsResult<()>)
        requires
            old(self).local_wf(),
            old(self).map().contains_key(name@),
            old(self).map()[name@].value is None,
        ensures
            final(self).local_wf(),
            Self::initialize_binding_rel(*old(self), *final(self), name@, value, r),
    {
        let b = self.bindings.get(name).unwrap();
        let updated = Binding {
            value: Some(value),
            can_delete: b.can_delete,
            mutable: b.mutable,
            strict: b.strict,
        };
        self.bindings.insert(name.to_owned(), updated);
        Ok(())
    }

    /// Write a binding, initializing it when it was uninitialized.
    ///
    /// A constant created strict refuses writes in sloppy mode too; a
    /// sloppy constant drops a sloppy write silently and refuses only a
    /// strict one.
    pub fn set_mutable_binding(&mut self, name: &str, value: JsValue, strict: bool) -> (r: JsResult<
        (),
    >)
        requires
            old(self).local_wf(),
        ensures
            final(self).local_wf(),
            Self::set_mutable_binding_rel(*old(self), *final(self), name@, value, strict, r),
    {
        let existing = self.bindings.get(name);
        match existing {
            None => {
                if strict {
                    return Err(
                        JsError::Reference(name.to_owned().concat(" has not been declared")),
                    );
                }
                self.bindings.insert(
                    name.to_owned(),
                    Binding { value: Some(value), can_delete: true, mutable: true, strict: false },
                );
                Ok(())
            },
            Some(b) => {
                if b.value.is_none() || b.mutable {
                    let updated = Binding {
                        value: Some(value),
                        can_delete: b.can_delete,
                        mutable: b.mutable,
                        strict: b.strict,
                    };
                    self.bindings.insert(name.to_owned(), updated);
                    Ok(())
                } else if strict || b.strict {
                    Err(
                        JsError::Type(
                            "Cannot assign to constant ".to_owned().concat(name),
                        ),
                    )
                } else {
                    Ok(())
                }
            },
        }
    }

    /// Read a binding's value.
    pub fn get_binding_value(&self, name: &str, strict: bool) -> (r: JsResult<JsValue>)
        requires
            self.local_wf(),
            self.map().contains_key(name@),
        ensures
            match (r, self.get_binding_value_spec(name@)) {
                (Ok(v), Ok(w)) => v == w,
                (Err(e), Err(k)) => e.kind() == k,
                _ => false,
            },
    {
        let b = self.bindings.get(name).unwrap();
        match &b.value {
            Some(v) => Ok(v.clone()),
            None => Err(
                JsError::Reference(name.to_owned().concat(" is an uninitialized binding")),
            ),
        }
    }

    /// Delete a binding, if it was created deletable.
    pub fn delete_binding(&mut self, name: &str) -> (r: bool)
        requires
            old(self).local_wf(),
            old(self).map().contains_key(name@),
        ensures
            final(self).local_wf(),
            Self::delete_binding_rel(*old(self), *final(self), name@, r),
    {
        let b = self.bindings.get(name).unwrap();
        if b.can_delete {
            self.bindings.remove(name);
            true
        } else {
            false
        }
    }

    /// The outer environment, borrowed.
    pub fn get_outer_environment_ref(&self) -> (r: Option<&Environment>)
        ensures
            match (r, self.outer_spec()) {
                (Some(e), Some(o)) => *e == *o,
                (None, None) => true,
                _ => false,
            },
    {
        match &self.outer_env {
            Some(e) => Some(&**e),
            None => None,
        }
    }

    /// Replace the outer environment.
    pub fn set_outer_environment(&mut self, env: Environment)
        ensures
            final(self).map() == old(self).map(),
            final(self).local_wf() == old(self).local_wf(),
            final(self).outer_spec() matches Some(b) && *b == env,
    {
        self.outer_env = Some(Box::new(env));
    }
}

} // verus!
