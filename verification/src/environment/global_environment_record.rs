//! Global environment records.
//!
//! A global environment record represents the outermost scope shared by
//! every script of a realm. It is a composite: an object record over the
//! global object carries `var` and function declarations as properties,
//! while a declarative record carries `let`/`const`/class declarations and
//! shadows the object record. A fixed `globalThis` object and the set of
//! `var`-declared names complete the record. See ECMA-262 section 8.1.1.4.

use std::rc::Rc;

use vstd::prelude::*;
use vstd::string::StringExecFns;

use crate::environment::declarative_environment_record::Binding;
use crate::environment::declarative_environment_record::DeclarativeEnvironmentRecord;
use crate::environment::object_environment_record::ObjectEnvironmentRecord;
use crate::name_map::NameMap;
use crate::object::JsObject;
use crate::object::PropertyDescriptor;
use crate::value::ErrorKind;
use crate::value::JsError;
use crate::value::JsResult;
use crate::value::JsValue;

verus! {

/// The outermost scope: an object record over the global object, a
/// declarative record that shadows it, the fixed `globalThis`, and the
/// names declared with `var`.
pub struct GlobalEnvironmentRecord {
    /// The object half: bindings are properties of the global object.
    pub object_record: ObjectEnvironmentRecord,
    /// The fixed `globalThis` object.
    pub global_this_binding: Rc<JsObject>,
    /// The declarative half: `let`/`const`/class declarations, shadowing
    /// the object half.
    pub declarative_record: DeclarativeEnvironmentRecord,
    /// The names declared with `var` at the global scope, as a set.
    pub var_names: NameMap<()>,
}

impl GlobalEnvironmentRecord {
    /// Both halves and the var-name set are well-formed.
    pub open spec fn local_wf(&self) -> bool {
        &&& self.object_record.local_wf()
        &&& self.declarative_record.local_wf()
        &&& self.var_names.wf()
    }

    /// The set of names declared with `var` at the global scope.
    pub open spec fn var_names_spec(&self) -> Set<Seq<char>> {
        self.var_names.map().dom()
    }

    /// The global object's own properties.
    pub open spec fn global_props(&self) -> Map<Seq<char>, PropertyDescriptor> {
        self.object_record.bindings.props()
    }

    /// A name is bound iff the declarative half has it or the global
    /// object resolves it.
    pub open spec fn has_binding_spec(&self, name: Seq<char>) -> bool {
        ||| self.declarative_record.map().contains_key(name)
        ||| self.object_record.has_binding_spec(name)
    }

    /// What reading a binding yields: the declarative half shadows the
    /// object half.
    pub open spec fn get_binding_value_spec(&self, name: Seq<char>, strict: bool) -> Result<
        JsValue,
        ErrorKind,
    > {
        if self.declarative_record.map().contains_key(name) {
            self.declarative_record.get_binding_value_spec(name)
        } else {
            self.object_record.get_binding_value_spec(name, strict)
        }
    }

    /// The parts of the record that `create_global_var_binding` and
    /// `create_global_function_binding` leave alone.
    pub open spec fn global_create_frame(pre: Self, post: Self) -> bool {
        &&& post.declarative_record == pre.declarative_record
        &&& post.global_this_binding == pre.global_this_binding
        &&& post.object_record.with_environment == pre.object_record.with_environment
        &&& post.object_record.outer_spec() == pre.object_record.outer_spec()
        &&& post.object_record.bindings.proto() == pre.object_record.bindings.proto()
        &&& post.object_record.bindings.is_extensible_spec()
            == pre.object_record.bindings.is_extensible_spec()
    }

    /// What declaring a global `var` does: when the global object lacks the
    /// own property and is extensible, a writable, enumerable property
    /// (configurable iff `deletion`) is created and initialized to
    /// `undefined`; in every case the name joins the var-name set.
    pub open spec fn create_global_var_binding_rel(
        pre: Self,
        post: Self,
        name: Seq<char>,
        deletion: bool,
        r: JsResult<()>,
    ) -> bool {
        &&& Self::global_create_frame(pre, post)
        &&& if !pre.global_props().contains_key(name) && pre.object_record.bindings.is_extensible_spec() {
            post.global_props() == pre.global_props().insert(
                name,
                PropertyDescriptor {
                    value: JsValue::Undefined,
                    writable: true,
                    enumerable: true,
                    configurable: deletion,
                },
            )
        } else {
            post.global_props() == pre.global_props()
        }
        &&& post.var_names_spec() == pre.var_names_spec().insert(name)
        &&& r is Ok
    }

    /// What declaring a global function does: over an absent or
    /// configurable property a fresh data descriptor carrying only the
    /// value is installed; over a non-configurable one the descriptor is
    /// forced writable, enumerable, and configurable iff `deletion`. Like a
    /// `var`, a global function declaration records its name in the
    /// var-name set.
    pub open spec fn create_global_function_binding_rel(
        pre: Self,
        post: Self,
        name: Seq<char>,
        value: JsValue,
        deletion: bool,
    ) -> bool {
        &&& Self::global_create_frame(pre, post)
        &&& ({
            let m = pre.global_props();
            let desc = if !m.contains_key(name) || m[name].configurable {
                PropertyDescriptor { value, writable: false, enumerable: false, configurable: false }
            } else {
                PropertyDescriptor { value, writable: true, enumerable: true, configurable: deletion }
            };
            post.global_props() == m.insert(name, desc)
        })
        &&& post.var_names_spec() == pre.var_names_spec().insert(name)
    }

    /// The parts the lexical (declarative-half) operations leave alone.
    pub open spec fn lexical_frame(pre: Self, post: Self) -> bool {
        &&& post.object_record == pre.object_record
        &&& post.global_this_binding == pre.global_this_binding
        &&& post.var_names_spec() == pre.var_names_spec()
    }

    /// What creating a mutable lexical binding does: the check and the
    /// declarative rules, with the rest of the record untouched.
    pub open spec fn create_mutable_binding_rel(
        pre: Self,
        post: Self,
        name: Seq<char>,
        deletion: bool,
        allow_name_reuse: bool,
        r: JsResult<()>,
    ) -> bool {
        &&& Self::lexical_frame(pre, post)
        &&& DeclarativeEnvironmentRecord::create_mutable_binding_rel(
            pre.declarative_record,
            post.declarative_record,
            name,
            deletion,
            allow_name_reuse,
            r,
        )
    }

    /// What creating an immutable lexical binding does.
    pub open spec fn create_immutable_binding_rel(
        pre: Self,
        post: Self,
        name: Seq<char>,
        strict: bool,
        r: JsResult<()>,
    ) -> bool {
        &&& Self::lexical_frame(pre, post)
        &&& DeclarativeEnvironmentRecord::create_immutable_binding_rel(
            pre.declarative_record,
            post.declarative_record,
            name,
            strict,
            r,
        )
    }

    /// What initializing a binding does: the half that holds the name acts,
    /// the other stands still.
    pub open spec fn initialize_binding_rel(
        pre: Self,
        post: Self,
        name: Seq<char>,
        value: JsValue,
        r: JsResult<()>,
    ) -> bool {
        &&& post.global_this_binding == pre.global_this_binding
        &&& post.var_names_spec() == pre.var_names_spec()
        &&& if pre.declarative_record.map().contains_key(name) {
            &&& post.object_record == pre.object_record
            &&& DeclarativeEnvironmentRecord::initialize_binding_rel(
                pre.declarative_record,
                post.declarative_record,
                name,
                value,
                r,
            )
        } else {
            &&& post.declarative_record == pre.declarative_record
            &&& ObjectEnvironmentRecord::set_mutable_binding_rel(
                pre.object_record,
                post.object_record,
                name,
                value,
                false,
                r,
            )
        }
    }

    /// What writing a binding does: the declarative half shadows the
    /// object half.
    pub open spec fn set_mutable_binding_rel(
        pre: Self,
        post: Self,
        name: Seq<char>,
        value: JsValue,
        strict: bool,
        r: JsResult<()>,
    ) -> bool {
        &&& post.global_this_binding == pre.global_this_binding
        &&& post.var_names_spec() == pre.var_names_spec()
        &&& if pre.declarative_record.map().contains_key(name) {
            &&& post.object_record == pre.object_record
            &&& DeclarativeEnvironmentRecord::set_mutable_binding_rel(
                pre.declarative_record,
                post.declarative_record,
                name,
                value,
                strict,
                r,
            )
        } else {
            &&& post.declarative_record == pre.declarative_record
            &&& ObjectEnvironmentRecord::set_mutable_binding_rel(
                pre.object_record,
                post.object_record,
                name,
                value,
                strict,
                r,
            )
        }
    }

    /// What deleting a binding does. A declarative binding follows the
    /// declarative rules. Otherwise a configurable own property of the
    /// global object goes, and the name leaves the var-name set; every
    /// outcome on the object side answers true.
    pub open spec fn delete_binding_rel(pre: Self, post: Self, name: Seq<char>, r: bool) -> bool {
        &&& post.global_this_binding == pre.global_this_binding
        &&& if pre.declarative_record.map().contains_key(name) {
            &&& post.object_record == pre.object_record
            &&& post.var_names_spec() == pre.var_names_spec()
            &&& DeclarativeEnvironmentRecord::delete_binding_rel(
                pre.declarative_record,
                post.declarative_record,
                name,
                r,
            )
        } else {
            &&& post.declarative_record == pre.declarative_record
            &&& r == true
            &&& Self::global_create_frame(pre, post)
            &&& ({
                let m = pre.global_props();
                if pre.object_record.has_binding_spec(name) {
                    if m.contains_key(name) && !m[name].configurable {
                        &&& post.global_props() == m
                        &&& post.var_names_spec() == pre.var_names_spec()
                    } else {
                        &&& post.global_props() == m.remove(name)
                        &&& post.var_names_spec() == pre.var_names_spec().remove(name)
                    }
                } else {
                    &&& post.global_props() == m
                    &&& post.var_names_spec() == pre.var_names_spec()
                }
            })
        }
    }

    /// Law: a lexical declaration shadows a global `var` of the same name.
    /// After declaring the `var`, creating a lexical binding of the name
    /// and initializing it, a read resolves to the lexical value, while
    /// the name stays in the var-name set.
    pub proof fn lemma_lexical_shadows_var(
        g0: Self,
        g1: Self,
        g2: Self,
        g3: Self,
        name: Seq<char>,
        deletion: bool,
        deletion2: bool,
        v: JsValue,
        strict: bool,
        r1: JsResult<()>,
        r2: JsResult<()>,
        r3: JsResult<()>,
    )
        requires
            Self::create_global_var_binding_rel(g0, g1, name, deletion, r1),
            Self::create_mutable_binding_rel(g1, g2, name, deletion2, false, r2),
            r2 is Ok,
            Self::initialize_binding_rel(g2, g3, name, v, r3),
        ensures
            r3 is Ok,
            g3.get_binding_value_spec(name, strict) == Ok::<JsValue, ErrorKind>(v),
            g3.var_names_spec().contains(name),
    {
    }

    /// A fresh global record over `global`, with `this_value` as the fixed
    /// `globalThis`.
    pub fn new(global: JsObject, this_value: JsObject) -> (r: Self)
        requires
            global.wf(),
        ensures
            r.local_wf(),
            r.object_record.bindings == global,
            !r.object_record.with_environment,
            r.object_record.outer_spec() is None,
            *r.global_this_binding == this_value,
            r.declarative_record.map() == Map::<Seq<char>, Binding>::empty(),
            r.declarative_record.outer_spec() is None,
            r.var_names_spec() == Set::<Seq<char>>::empty(),
    {
        let obj_rec = ObjectEnvironmentRecord::new(global, false, None);
        let dcl_rec = DeclarativeEnvironmentRecord::new(None);
        let r = GlobalEnvironmentRecord {
            object_record: obj_rec,
            global_this_binding: Rc::new(this_value),
            declarative_record: dcl_rec,
            var_names: NameMap::new(),
        };
        proof {
            assert(r.var_names_spec() =~= Set::<Seq<char>>::empty());
        }
        r
    }

    /// True iff `name` was declared with `var` at the global scope.
    pub fn has_var_declaration(&self, name: &str) -> (r: bool)
        ensures
            r == self.var_names_spec().contains(name@),
    {
        self.var_names.contains_key(name)
    }

    /// True iff the declarative half holds a lexical declaration of
    /// `name`.
    pub fn has_lexical_declaration(&self, name: &str) -> (r: bool)
        ensures
            r == self.declarative_record.map().contains_key(name@),
    {
        self.declarative_record.has_binding(name)
    }

    /// True iff the global object holds a non-configurable own property
    /// named `name`. An absent property is not restricted.
    pub fn has_restricted_global_property(&self, name: &str) -> (r: bool)
        requires
            self.local_wf(),
        ensures
            r == (self.global_props().contains_key(name@)
                && !self.global_props()[name@].configurable),
    {
        let existing_prop = self.object_record.bindings.get_own_property(name);
        match existing_prop {
            Some(desc) => !desc.configurable,
            None => false,
        }
    }

    /// True iff a global `var` named `name` may be declared: the property
    /// exists already, or the global is extensible.
    pub fn can_declare_global_var(&self, name: &str) -> (r: bool)
        requires
            self.local_wf(),
        ensures
            r == (self.global_props().contains_key(name@)
                || self.object_record.bindings.is_extensible_spec()),
    {
        if self.object_record.bindings.has_own_property(name) {
            true
        } else {
            self.object_record.bindings.is_extensible()
        }
    }

    /// True iff a global function named `name` may be declared: an absent
    /// property needs an extensible global; an existing one must be
    /// configurable, or both writable and enumerable.
    pub fn can_declare_global_function(&self, name: &str) -> (r: bool)
        requires
            self.local_wf(),
        ensures
            r == ({
                let m = self.global_props();
                if m.contains_key(name@) {
                    m[name@].configurable || (m[name@].enumerable && m[name@].writable)
                } else {
                    self.object_record.bindings.is_extensible_spec()
                }
            }),
    {
        let existing_prop = self.object_record.bindings.get_own_property(name);
        match existing_prop {
            Some(prop) => prop.configurable || (prop.enumerable && prop.writable),
            None => self.object_record.bindings.is_extensible(),
        }
    }

    /// Declare a global `var`: create and initialize the property when the
    /// global allows it, then record the name as var-declared.
    pub fn create_global_var_binding(&mut self, name: String, deletion: bool) -> (r: JsResult<()>)
        requires
            old(self).local_wf(),
        ensures
            final(self).local_wf(),
            Self::create_global_var_binding_rel(*old(self), *final(self), name@, deletion, r),
    {
        let has_property = self.object_record.bindings.has_own_property(name.as_str());
        let extensible = self.object_record.bindings.is_extensible();
        if !has_property && extensible {
            let created = self.object_record.create_mutable_binding(name.clone(), deletion);
            match created {
                Ok(_) => {},
                Err(e) => {
                    // unreachable: the property is absent and the global is
                    // extensible
                    return Err(e);
                },
            }
            let initialized = self.object_record.initialize_binding(
                name.as_str(),
                JsValue::undefined(),
            );
            match initialized {
                Ok(_) => {},
                Err(e) => {
                    // unreachable: the property was just created writable
                    return Err(e);
                },
            }
            proof {
                assert(self.global_props() =~= old(self).global_props().insert(
                    name@,
                    PropertyDescriptor {
                        value: JsValue::Undefined,
                        writable: true,
                        enumerable: true,
                        configurable: deletion,
                    },
                ));
            }
        }
        if !self.var_names.contains_key(name.as_str()) {
            self.var_names.insert(name, ());
        }
        proof {
            assert(self.var_names_spec() =~= old(self).var_names_spec().insert(name@));
        }
        Ok(())
    }

    /// Declare a global function: install the descriptor the declaration
    /// rules pick for the existing property, replacing it outright, and
    /// record the name as var-declared.
    pub fn create_global_function_binding(&mut self, name: &str, value: JsValue, deletion: bool)
        requires
            old(self).local_wf(),
        ensures
            final(self).local_wf(),
            Self::create_global_function_binding_rel(
                *old(self),
                *final(self),
                name@,
                value,
                deletion,
            ),
    {
        let existing_prop = self.object_record.bindings.get_own_property(name);
        let desc = match existing_prop {
            Some(desc) => {
                if desc.configurable {
                    PropertyDescriptor {
                        value,
                        writable: false,
                        enumerable: false,
                        configurable: false,
                    }
                } else {
                    PropertyDescriptor {
                        value,
                        writable: true,
                        enumerable: true,
                        configurable: deletion,
                    }
                }
            },
            None => PropertyDescriptor {
                value,
                writable: false,
                enumerable: false,
                configurable: false,
            },
        };
        self.object_record.bindings.insert_property(name.to_owned(), desc);
        if !self.var_names.contains_key(name) {
            self.var_names.insert(name.to_owned(), ());
        }
        proof {
            assert(self.var_names_spec() =~= old(self).var_names_spec().insert(name@));
        }
    }

    /// True iff either half binds `name`.
    pub fn has_binding(&self, name: &str) -> (r: bool)
        requires
            self.local_wf(),
        ensures
            r == self.has_binding_spec(name@),
    {
        if self.declarative_record.has_binding(name) {
            return true;
        }
        self.object_record.has_binding(name)
    }

    /// Create a mutable lexical binding in the declarative half; a name
    /// already bound there is refused with a `TypeError` unless reuse is
    /// allowed.
    pub fn create_mutable_binding(
        &mut self,
        name: String,
        deletion: bool,
        allow_name_reuse: bool,
    ) -> (r: JsResult<()>)
        requires
            old(self).local_wf(),
        ensures
            final(self).local_wf(),
            Self::create_mutable_binding_rel(
                *old(self),
                *final(self),
                name@,
                deletion,
                allow_name_reuse,
                r,
            ),
    {
        if !allow_name_reuse && self.declarative_record.has_binding(name.as_str()) {
            return Err(
                JsError::Type("Binding already exists for ".to_owned().concat(name.as_str())),
            );
        }
        self.declarative_record.create_mutable_binding(name, deletion, allow_name_reuse)
    }

    /// Create an immutable lexical binding in the declarative half; a name
    /// already bound there is refused with a `TypeError`.
    pub fn create_immutable_binding(&mut self, name: String, strict: bool) -> (r: JsResult<()>)
        requires
            old(self).local_wf(),
        ensures
            final(self).local_wf(),
            Self::create_immutable_binding_rel(*old(self), *final(self), name@, strict, r),
    {
        if self.declarative_record.has_binding(name.as_str()) {
            return Err(
                JsError::Type("Binding already exists for ".to_owned().concat(name.as_str())),
            );
        }
        self.declarative_record.create_immutable_binding(name, strict)
    }

    /// Initialize a binding where it lives: the declarative half when it
    /// has the name, else the object half, which must have it.
    pub fn initialize_binding(&mut self, name: &str, value: JsValue) -> (r: JsResult<()>)
        requires
            old(self).local_wf(),
            old(self).declarative_record.map().contains_key(name@) ==> old(
                self,
            ).declarative_record.map()[name@].value is None,
            !old(self).declarative_record.map().contains_key(name@) ==> old(
                self,
            ).object_record.has_binding_spec(name@),
        ensures
            final(self).local_wf(),
            Self::initialize_binding_rel(*old(self), *final(self), name@, value, r),
    {
        if self.declarative_record.has_binding(name) {
            return self.declarative_record.initialize_binding(name, value);
        }
        self.object_record.initialize_binding(name, value)
    }

    /// Write a binding where it lives: the declarative half shadows the
    /// object half.
    pub fn set_mutable_binding(&mut self, name: &str, value: JsValue, strict: bool) -> (r:
        JsResult<()>)
        requires
            old(self).local_wf(),
        ensures
            final(self).local_wf(),
            Self::set_mutable_binding_rel(*old(self), *final(self), name@, value, strict, r),
    {
        if self.declarative_record.has_binding(name) {
            return self.declarative_record.set_mutable_binding(name, value, strict);
        }
        self.object_record.set_mutable_binding(name, value, strict)
    }

    /// Read a binding where it lives: the declarative half shadows the
    /// object half.
    pub fn get_binding_value(&self, name: &str, strict: bool) -> (r: JsResult<JsValue>)
        requires
            self.local_wf(),
        ensures
            match (r, self.get_binding_value_spec(name@, strict)) {
                (Ok(v), Ok(w)) => v == w,
                (Err(e), Err(k)) => e.kind() == k,
                _ => false,
            },
    {
        if self.declarative_record.has_binding(name) {
            return self.declarative_record.get_binding_value(name, strict);
        }
        self.object_record.get_binding_value(name, strict)
    }

    /// Delete a binding. A declarative binding follows the declarative
    /// rules; a property of the global object is deleted when
    /// configurable, and a deleted name leaves the var-name set. When
    /// nothing holds the name there is nothing to delete and the answer is
    /// true; a failed property deletion also answers true, so callers
    /// cannot tell it from "nothing there".
    pub fn delete_binding(&mut self, name: &str) -> (r: bool)
        requires
            old(self).local_wf(),
        ensures
            final(self).local_wf(),
            Self::delete_binding_rel(*old(self), *final(self), name@, r),
    {
        if self.declarative_record.has_binding(name) {
            return self.declarative_record.delete_binding(name);
        }
        if self.object_record.bindings.has_field(name) {
            let status = self.object_record.delete_binding(name);
            if status {
                if self.var_names.contains_key(name) {
                    self.var_names.remove(name);
                }
            }
            proof {
                if old(self).global_props().contains_key(name@) && !old(
                    self,
                ).global_props()[name@].configurable {
                    assert(self.var_names_spec() =~= old(self).var_names_spec());
                } else {
                    assert(self.var_names_spec() =~= old(self).var_names_spec().remove(name@));
                    assert(self.global_props() =~= old(self).global_props().remove(name@));
                }
            }
        }
        true
    }

    /// The global record always provides a `this` binding.
    pub fn has_this_binding(&self) -> (r: bool)
        ensures
            r == true,
    {
        true
    }

    /// `this` at the global scope is the fixed `globalThis` object.
    pub fn get_this_binding(&self) -> (r: JsResult<JsValue>)
        ensures
            r matches Ok(v) && v == JsValue::Object(self.global_this_binding),
    {
        Ok(JsValue::Object(self.global_this_binding.clone()))
    }

    /// The global record never supports `super`.
    pub fn has_super_binding(&self) -> (r: bool)
        ensures
            r == false,
    {
        false
    }

    /// The global record is outermost: it has no outer environment.
    pub fn get_outer_environment_ref(&self) -> (r: Option<
        &crate::environment::lexical_environment::Environment,
    >)
        ensures
            r is None,
    {
        None
    }
}

} // verus!
