//! The environment chain.
//!
//! An environment is one of the four record kinds, each carrying an
//! optional outer environment; identifier resolution walks the chain from
//! the innermost record outward. The recursive operations here stop at the
//! first record that reports the binding — or, for creation, at the scope
//! the caller names — and apply the record-local operation there.

use vstd::prelude::*;
use vstd::string::StringExecFns;

use crate::environment::declarative_environment_record::DeclarativeEnvironmentRecord;
use crate::environment::function_environment_record::BindingStatus;
use crate::environment::function_environment_record::FunctionEnvironmentRecord;
use crate::environment::global_environment_record::GlobalEnvironmentRecord;
use crate::environment::object_environment_record::ObjectEnvironmentRecord;
use crate::object::JsObject;
use crate::value::ErrorKind;
use crate::value::JsError;
use crate::value::JsResult;
use crate::value::JsValue;

verus! {

/// The message thrown for an identifier that resolves nowhere.
fn not_defined_message(name: &str) -> (r: String)
    ensures
        r@ == name@ + " is not defined"@,
{
    name.to_owned().concat(" is not defined")
}

/// The kind of an environment record.
#[derive(Clone, Copy, PartialEq, Eq, Structural, Debug)]
pub enum EnvironmentType {
    /// A declarative record.
    Declarative,
    /// An object record.
    Object,
    /// A function record.
    Function,
    /// The global record.
    Global,
}

/// Where a creation walks to: the current record, or the nearest
/// function-level scope (a function or global record).
#[derive(Clone, Copy, PartialEq, Eq, Structural, Debug)]
pub enum VariableScope {
    /// Create in the current record.
    Block,
    /// Create in the nearest function or global record.
    Function,
}

/// One environment record with its place in the chain.
pub enum Environment {
    /// A declarative record.
    Declarative(DeclarativeEnvironmentRecord),
    /// An object record.
    Object(ObjectEnvironmentRecord),
    /// A function record.
    Function(FunctionEnvironmentRecord),
    /// The global record; always outermost.
    Global(GlobalEnvironmentRecord),
}

impl Environment {
    /// The record itself is well-formed.
    pub open spec fn local_wf(&self) -> bool {
        match self {
            Environment::Declarative(d) => d.local_wf(),
            Environment::Object(o) => o.local_wf(),
            Environment::Function(f) => f.local_wf(),
            Environment::Global(g) => g.local_wf(),
        }
    }

    /// The outer environment of this record.
    pub open spec fn outer_spec(&self) -> Option<Box<Environment>> {
        match self {
            Environment::Declarative(d) => d.outer_env,
            Environment::Object(o) => o.outer_env,
            Environment::Function(f) => f.declarative_record.outer_env,
            Environment::Global(_) => None,
        }
    }

    /// Every record along the chain is well-formed.
    pub open spec fn wf(&self) -> bool
        decreases self,
    {
        &&& self.local_wf()
        &&& match self {
            Environment::Declarative(d) => match d.outer_env {
                Some(e) => e.wf(),
                None => true,
            },
            Environment::Object(o) => match o.outer_env {
                Some(e) => e.wf(),
                None => true,
            },
            Environment::Function(f) => match f.declarative_record.outer_env {
                Some(e) => e.wf(),
                None => true,
            },
            Environment::Global(_) => true,
        }
    }

    /// Whether this record itself binds `name`.
    pub open spec fn local_has_binding(&self, name: Seq<char>) -> bool {
        match self {
            Environment::Declarative(d) => d.map().contains_key(name),
            Environment::Object(o) => o.has_binding_spec(name),
            Environment::Function(f) => f.declarative_record.map().contains_key(name),
            Environment::Global(g) => g.has_binding_spec(name),
        }
    }

    /// Whether any record from here outward binds `name`.
    pub open spec fn chain_has_binding(&self, name: Seq<char>) -> bool
        decreases self,
    {
        ||| self.local_has_binding(name)
        ||| match self {
            Environment::Declarative(d) => match d.outer_env {
                Some(e) => e.chain_has_binding(name),
                None => false,
            },
            Environment::Object(o) => match o.outer_env {
                Some(e) => e.chain_has_binding(name),
                None => false,
            },
            Environment::Function(f) => match f.declarative_record.outer_env {
                Some(e) => e.chain_has_binding(name),
                None => false,
            },
            Environment::Global(_) => false,
        }
    }

    /// Whether the chain from here outward reaches a function or global
    /// record, where function-level creation stops.
    pub open spec fn reaches_var_scope(&self) -> bool
        decreases self,
    {
        match self {
            Environment::Function(_) => true,
            Environment::Global(_) => true,
            Environment::Declarative(d) => match d.outer_env {
                Some(e) => e.reaches_var_scope(),
                None => false,
            },
            Environment::Object(o) => match o.outer_env {
                Some(e) => e.reaches_var_scope(),
                None => false,
            },
        }
    }

    /// What reading `name` on this record alone yields.
    pub open spec fn get_binding_value_spec(&self, name: Seq<char>, strict: bool) -> Result<
        JsValue,
        ErrorKind,
    > {
        match self {
            Environment::Declarative(d) => d.get_binding_value_spec(name),
            Environment::Object(o) => o.get_binding_value_spec(name, strict),
            Environment::Function(f) => f.declarative_record.get_binding_value_spec(name),
            Environment::Global(g) => g.get_binding_value_spec(name, strict),
        }
    }

    /// What resolving and reading `name` along the chain yields: the
    /// nearest record that binds it answers; an unresolvable name is a
    /// `ReferenceError`.
    pub open spec fn chain_get_binding_value_spec(&self, name: Seq<char>, strict: bool) -> Result<
        JsValue,
        ErrorKind,
    >
        decreases self,
    {
        if self.local_has_binding(name) {
            self.get_binding_value_spec(name, strict)
        } else {
            match self {
                Environment::Declarative(d) => match d.outer_env {
                    Some(e) => e.chain_get_binding_value_spec(name, strict),
                    None => Err(ErrorKind::Reference),
                },
                Environment::Object(o) => match o.outer_env {
                    Some(e) => e.chain_get_binding_value_spec(name, strict),
                    None => Err(ErrorKind::Reference),
                },
                Environment::Function(f) => match f.declarative_record.outer_env {
                    Some(e) => e.chain_get_binding_value_spec(name, strict),
                    None => Err(ErrorKind::Reference),
                },
                Environment::Global(_) => Err(ErrorKind::Reference),
            }
        }
    }

    /// Whether this record may be asked to initialize `name`: declarative
    /// bindings must exist and be uninitialized; an object record always
    /// accepts; the global record follows whichever half holds the name.
    pub open spec fn local_can_initialize(&self, name: Seq<char>) -> bool {
        match self {
            Environment::Declarative(d) => d.map().contains_key(name) && d.map()[name].value
                is None,
            Environment::Object(_) => true,
            Environment::Function(f) => f.declarative_record.map().contains_key(name)
                && f.declarative_record.map()[name].value is None,
            Environment::Global(g) => {
                if g.declarative_record.map().contains_key(name) {
                    g.declarative_record.map()[name].value is None
                } else {
                    g.object_record.has_binding_spec(name)
                }
            },
        }
    }

    /// The record fields that a pass-through step of a chain walk leaves
    /// alone: everything but the outer environment.
    pub open spec fn locals_eq(pre: Self, post: Self) -> bool {
        match (pre, post) {
            (Environment::Declarative(a), Environment::Declarative(b)) => a.map() == b.map()
                && a.local_wf() == b.local_wf(),
            (Environment::Object(a), Environment::Object(b)) => a.bindings == b.bindings
                && a.with_environment == b.with_environment,
            (Environment::Function(a), Environment::Function(b)) => {
                &&& a.declarative_record.map() == b.declarative_record.map()
                &&& a.declarative_record.local_wf() == b.declarative_record.local_wf()
                &&& a.this_value == b.this_value
                &&& a.this_binding_status == b.this_binding_status
                &&& a.function == b.function
                &&& a.home_object == b.home_object
                &&& a.new_target == b.new_target
            },
            (Environment::Global(a), Environment::Global(b)) => a == b,
            _ => false,
        }
    }

    /// The kind of this record.
    pub fn get_environment_type(&self) -> (r: EnvironmentType)
        ensures
            r == match self {
                Environment::Declarative(_) => EnvironmentType::Declarative,
                Environment::Object(_) => EnvironmentType::Object,
                Environment::Function(_) => EnvironmentType::Function,
                Environment::Global(_) => EnvironmentType::Global,
            },
    {
        match self {
            Environment::Declarative(_) => EnvironmentType::Declarative,
            Environment::Object(_) => EnvironmentType::Object,
            Environment::Function(_) => EnvironmentType::Function,
            Environment::Global(_) => EnvironmentType::Global,
        }
    }

    /// True iff this record has no outer environment.
    pub fn is_outermost(&self) -> (r: bool)
        ensures
            r == (self.outer_spec() is None),
    {
        match self {
            Environment::Declarative(d) => d.outer_env.is_none(),
            Environment::Object(o) => o.outer_env.is_none(),
            Environment::Function(f) => f.declarative_record.outer_env.is_none(),
            Environment::Global(_) => true,
        }
    }

    /// The outer environment, borrowed.
    pub fn get_outer_environment_ref(&self) -> (r: Option<&Environment>)
        ensures
            match (r, self.outer_spec()) {
                (Some(e), Some(o)) => *e == *o,
                (None, None) => true,
                _ => false,
            },
    {
        match self {
            Environment::Declarative(d) => d.get_outer_environment_ref(),
            Environment::Object(o) => o.get_outer_environment_ref(),
            Environment::Function(f) => f.declarative_record.get_outer_environment_ref(),
            Environment::Global(g) => g.get_outer_environment_ref(),
        }
    }

    /// Replace the outer environment. The global record is always
    /// outermost and never takes one.
    pub fn set_outer_environment(&mut self, env: Environment)
        requires
            !((*old(self)) matches Environment::Global(_)),
        ensures
            Self::locals_eq(*old(self), *final(self)),
            final(self).outer_spec() matches Some(b) && *b == env,
    {
        match self {
            Environment::Declarative(d) => d.set_outer_environment(env),
            Environment::Object(o) => o.set_outer_environment(env),
            Environment::Function(f) => f.declarative_record.set_outer_environment(env),
            Environment::Global(_) => {
                proof {
                    assert(false);
                }
            },
        }
    }

    /// True iff this record binds `name`.
    pub fn has_binding(&self, name: &str) -> (r: bool)
        requires
            self.local_wf(),
        ensures
            r == self.local_has_binding(name@),
    {
        match self {
            Environment::Declarative(d) => d.has_binding(name),
            Environment::Object(o) => o.has_binding(name),
            Environment::Function(f) => f.declarative_record.has_binding(name),
            Environment::Global(g) => g.has_binding(name),
        }
    }

    /// True iff this record provides a `this` binding.
    pub fn has_this_binding(&self) -> (r: bool)
        ensures
            r == match self {
                Environment::Declarative(_) => false,
                Environment::Object(_) => false,
                Environment::Function(f) => !(f.this_binding_status == BindingStatus::Lexical),
                Environment::Global(_) => true,
            },
    {
        match self {
            Environment::Declarative(_) => false,
            Environment::Object(_) => false,
            Environment::Function(f) => f.has_this_binding(),
            Environment::Global(_) => true,
        }
    }

    /// True iff this record supports `super`.
    pub fn has_super_binding(&self) -> (r: bool)
        ensures
            r == match self {
                Environment::Function(f) => !(f.this_binding_status == BindingStatus::Lexical)
                    && f.home_object matches JsValue::Object(_),
                _ => false,
            },
    {
        match self {
            Environment::Function(f) => f.has_super_binding(),
            _ => false,
        }
    }

    /// The function-record fields that binding operations leave alone.
    pub open spec fn function_frame_eq(
        a: FunctionEnvironmentRecord,
        b: FunctionEnvironmentRecord,
    ) -> bool {
        &&& b.this_value == a.this_value
        &&& b.this_binding_status == a.this_binding_status
        &&& b.function == a.function
        &&& b.home_object == a.home_object
        &&& b.new_target == a.new_target
    }

    /// What creating a mutable binding does on this record.
    pub open spec fn create_mutable_binding_rel(
        pre: Self,
        post: Self,
        name: Seq<char>,
        deletion: bool,
        allow_name_reuse: bool,
        r: JsResult<()>,
    ) -> bool {
        match pre {
            Environment::Declarative(a) => post matches Environment::Declarative(b)
                && DeclarativeEnvironmentRecord::create_mutable_binding_rel(
                a,
                b,
                name,
                deletion,
                allow_name_reuse,
                r,
            ),
            Environment::Object(a) => post matches Environment::Object(b)
                && ObjectEnvironmentRecord::create_mutable_binding_rel(a, b, name, deletion, r),
            Environment::Function(a) => post matches Environment::Function(b)
                && Self::function_frame_eq(a, b)
                && DeclarativeEnvironmentRecord::create_mutable_binding_rel(
                a.declarative_record,
                b.declarative_record,
                name,
                deletion,
                allow_name_reuse,
                r,
            ),
            Environment::Global(a) => post matches Environment::Global(b)
                && GlobalEnvironmentRecord::create_mutable_binding_rel(
                a,
                b,
                name,
                deletion,
                allow_name_reuse,
                r,
            ),
        }
    }

    /// What creating an immutable binding does on this record. Object
    /// records never take one.
    pub open spec fn create_immutable_binding_rel(
        pre: Self,
        post: Self,
        name: Seq<char>,
        strict: bool,
        r: JsResult<()>,
    ) -> bool {
        match pre {
            Environment::Declarative(a) => post matches Environment::Declarative(b)
                && DeclarativeEnvironmentRecord::create_immutable_binding_rel(
                a,
                b,
                name,
                strict,
                r,
            ),
            Environment::Object(_) => false,
            Environment::Function(a) => post matches Environment::Function(b)
                && Self::function_frame_eq(a, b)
                && DeclarativeEnvironmentRecord::create_immutable_binding_rel(
                a.declarative_record,
                b.declarative_record,
                name,
                strict,
                r,
            ),
            Environment::Global(a) => post matches Environment::Global(b)
                && GlobalEnvironmentRecord::create_immutable_binding_rel(a, b, name, strict, r),
        }
    }

    /// What initializing a binding does on this record.
    pub open spec fn initialize_binding_rel(
        pre: Self,
        post: Self,
        name: Seq<char>,
        value: JsValue,
        r: JsResult<()>,
    ) -> bool {
        match pre {
            Environment::Declarative(a) => post matches Environment::Declarative(b)
                && DeclarativeEnvironmentRecord::initialize_binding_rel(a, b, name, value, r),
            Environment::Object(a) => post matches Environment::Object(b)
                && ObjectEnvironmentRecord::set_mutable_binding_rel(a, b, name, value, false, r),
            Environment::Function(a) => post matches Environment::Function(b)
                && Self::function_frame_eq(a, b)
                && DeclarativeEnvironmentRecord::initialize_binding_rel(
                a.declarative_record,
                b.declarative_record,
                name,
                value,
                r,
            ),
            Environment::Global(a) => post matches Environment::Global(b)
                && GlobalEnvironmentRecord::initialize_binding_rel(a, b, name, value, r),
        }
    }

    /// What writing a binding does on this record.
    pub open spec fn set_mutable_binding_rel(
        pre: Self,
        post: Self,
        name: Seq<char>,
        value: JsValue,
        strict: bool,
        r: JsResult<()>,
    ) -> bool {
        match pre {
            Environment::Declarative(a) => post matches Environment::Declarative(b)
                && DeclarativeEnvironmentRecord::set_mutable_binding_rel(
                a,
                b,
                name,
                value,
                strict,
                r,
            ),
            Environment::Object(a) => post matches Environment::Object(b)
                && ObjectEnvironmentRecord::set_mutable_binding_rel(a, b, name, value, strict, r),
            Environment::Function(a) => post matches Environment::Function(b)
                && Self::function_frame_eq(a, b)
                && DeclarativeEnvironmentRecord::set_mutable_binding_rel(
                a.declarative_record,
                b.declarative_record,
                name,
                value,
                strict,
                r,
            ),
            Environment::Global(a) => post matches Environment::Global(b)
                && GlobalEnvironmentRecord::set_mutable_binding_rel(a, b, name, value, strict, r),
        }
    }

    /// What deleting a binding does on this record.
    pub open spec fn delete_binding_rel(pre: Self, post: Self, name: Seq<char>, r: bool) -> bool {
        match pre {
            Environment::Declarative(a) => post matches Environment::Declarative(b)
                && DeclarativeEnvironmentRecord::delete_binding_rel(a, b, name, r),
            Environment::Object(a) => post matches Environment::Object(b)
                && ObjectEnvironmentRecord::delete_binding_rel(a, b, name, r),
            Environment::Function(a) => post matches Environment::Function(b)
                && Self::function_frame_eq(a, b)
                && DeclarativeEnvironmentRecord::delete_binding_rel(
                a.declarative_record,
                b.declarative_record,
                name,
                r,
            ),
            Environment::Global(a) => post matches Environment::Global(b)
                && GlobalEnvironmentRecord::delete_binding_rel(a, b, name, r),
        }
    }

    /// Create a mutable binding in this record.
    pub fn create_mutable_binding(
        &mut self,
        name: String,
        deletion: bool,
        allow_name_reuse: bool,
    ) -> (r: JsResult<()>)
        requires
            old(self).local_wf(),
        ensures
            final(self).local_wf(),
            Self::create_mutable_binding_rel(
                *old(self),
                *final(self),
                name@,
                deletion,
                allow_name_reuse,
                r,
            ),
    {
        match self {
            Environment::Declarative(d) => d.create_mutable_binding(
                name,
                deletion,
                allow_name_reuse,
            ),
            Environment::Object(o) => o.create_mutable_binding(name, deletion),
            Environment::Function(f) => f.declarative_record.create_mutable_binding(
                name,
                deletion,
                allow_name_reuse,
            ),
            Environment::Global(g) => g.create_mutable_binding(name, deletion, allow_name_reuse),
        }
    }

    /// Create an immutable binding in this record; object records never
    /// take one.
    pub fn create_immutable_binding(&mut self, name: String, strict: bool) -> (r: JsResult<()>)
        requires
            old(self).local_wf(),
            !((*old(self)) matches Environment::Object(_)),
        ensures
            final(self).local_wf(),
            Self::create_immutable_binding_rel(*old(self), *final(self), name@, strict, r),
    {
        match self {
            Environment::Declarative(d) => d.create_immutable_binding(name, strict),
            Environment::Object(_) => {
                proof {
                    assert(false);
                }
                Ok(())
            },
            Environment::Function(f) => f.declarative_record.create_immutable_binding(
                name,
                strict,
            ),
            Environment::Global(g) => g.create_immutable_binding(name, strict),
        }
    }

    /// Initialize a binding in this record.
    pub fn initialize_binding(&mut self, name: &str, value: JsValue) -> (r: JsResult<()>)
        requires
            old(self).local_wf(),
            old(self).local_can_initialize(name@),
        ensures
            final(self).local_wf(),
            Self::initialize_binding_rel(*old(self), *final(self), name@, value, r),
    {
        match self {
            Environment::Declarative(d) => d.initialize_binding(name, value),
            Environment::Object(o) => o.initialize_binding(name, value),
            Environment::Function(f) => f.declarative_record.initialize_binding(name, value),
            Environment::Global(g) => g.initialize_binding(name, value),
        }
    }

    /// Write a binding in this record.
    pub fn set_mutable_binding(&mut self, name: &str, value: JsValue, strict: bool) -> (r:
        JsResult<()>)
        requires
            old(self).local_wf(),
        ensures
            final(self).local_wf(),
            Self::set_mutable_binding_rel(*old(self), *final(self), name@, value, strict, r),
    {
        match self {
            Environment::Declarative(d) => d.set_mutable_binding(name, value, strict),
            Environment::Object(o) => o.set_mutable_binding(name, value, strict),
            Environment::Function(f) => f.declarative_record.set_mutable_binding(
                name,
                value,
                strict,
            ),
            Environment::Global(g) => g.set_mutable_binding(name, value, strict),
        }
    }

    /// Read a binding in this record. A declarative binding must exist to
    /// be read.
    pub fn get_binding_value(&self, name: &str, strict: bool) -> (r: JsResult<JsValue>)
        requires
            self.local_wf(),
            self matches Environment::Declarative(d) ==> d.map().contains_key(name@),
            self matches Environment::Function(f) ==> f.declarative_record.map().contains_key(
                name@,
            ),
        ensures
            match (r, self.get_binding_value_spec(name@, strict)) {
                (Ok(v), Ok(w)) => v == w,
                (Err(e), Err(k)) => e.kind() == k,
                _ => false,
            },
    {
        match self {
            Environment::Declarative(d) => d.get_binding_value(name, strict),
            Environment::Object(o) => o.get_binding_value(name, strict),
            Environment::Function(f) => f.declarative_record.get_binding_value(name, strict),
            Environment::Global(g) => g.get_binding_value(name, strict),
        }
    }

    /// Delete a binding in this record. A declarative binding must exist
    /// to be deleted.
    pub fn delete_binding(&mut self, name: &str) -> (r: bool)
        requires
            old(self).local_wf(),
            (*old(self)) matches Environment::Declarative(d) ==> d.map().contains_key(name@),
            (*old(self)) matches Environment::Function(f) ==> f.declarative_record.map().contains_key(
                name@,
            ),
        ensures
            final(self).local_wf(),
            Self::delete_binding_rel(*old(self), *final(self), name@, r),
    {
        match self {
            Environment::Declarative(d) => d.delete_binding(name),
            Environment::Object(o) => o.delete_binding(name),
            Environment::Function(f) => f.declarative_record.delete_binding(name),
            Environment::Global(g) => g.delete_binding(name),
        }
    }

    /// Read the `this` binding of a record that provides one.
    pub fn get_this_binding(&self) -> (r: JsResult<JsValue>)
        requires
            match self {
                Environment::Function(f) => !(f.this_binding_status == BindingStatus::Lexical),
                Environment::Global(_) => true,
                _ => false,
            },
        ensures
            match self {
                Environment::Function(f) => match f.this_binding_status {
                    BindingStatus::Initialized => r matches Ok(v) && v == f.this_value,
                    BindingStatus::Uninitialized => r matches Err(e) && e.is_reference()
                        && e.message() == "Uninitialised binding for this function"@,
                    BindingStatus::Lexical => false,
                },
                Environment::Global(g) => r matches Ok(v) && v == JsValue::Object(
                    g.global_this_binding,
                ),
                _ => false,
            },
    {
        match self {
            Environment::Function(f) => f.get_this_binding(),
            Environment::Global(g) => g.get_this_binding(),
            _ => {
                proof {
                    assert(false);
                }
                Ok(JsValue::Undefined)
            },
        }
    }

    /// Whether the chain walk for initialization ends at a record that may
    /// be asked to initialize `name`.
    pub open spec fn chain_can_initialize(&self, name: Seq<char>) -> bool
        decreases self,
    {
        if self.local_has_binding(name) || self.outer_spec() is None {
            self.local_can_initialize(name)
        } else {
            match self {
                Environment::Declarative(d) => match d.outer_env {
                    Some(e) => e.chain_can_initialize(name),
                    None => false,
                },
                Environment::Object(o) => match o.outer_env {
                    Some(e) => e.chain_can_initialize(name),
                    None => false,
                },
                Environment::Function(f) => match f.declarative_record.outer_env {
                    Some(e) => e.chain_can_initialize(name),
                    None => false,
                },
                Environment::Global(_) => false,
            }
        }
    }

    /// What a chain walk that writes `name` does: the nearest record that
    /// binds it (or the outermost record) takes the write; everything on
    /// the way is untouched.
    pub open spec fn chain_set_rel(
        self,
        post: Environment,
        name: Seq<char>,
        value: JsValue,
        strict: bool,
        r: JsResult<()>,
    ) -> bool
        decreases self,
    {
        if self.local_has_binding(name) || self.outer_spec() is None {
            Self::set_mutable_binding_rel(self, post, name, value, strict, r)
        } else {
            &&& Self::locals_eq(self, post)
            &&& match self {
                Environment::Declarative(a) => match (a.outer_env, post.outer_spec()) {
                    (Some(x), Some(y)) => x.chain_set_rel(*y, name, value, strict, r),
                    _ => false,
                },
                Environment::Object(a) => match (a.outer_env, post.outer_spec()) {
                    (Some(x), Some(y)) => x.chain_set_rel(*y, name, value, strict, r),
                    _ => false,
                },
                Environment::Function(a) => match (
                    a.declarative_record.outer_env,
                    post.outer_spec(),
                ) {
                    (Some(x), Some(y)) => x.chain_set_rel(*y, name, value, strict, r),
                    _ => false,
                },
                Environment::Global(_) => false,
            }
        }
    }

    /// What a chain walk that initializes `name` does.
    pub open spec fn chain_initialize_rel(
        self,
        post: Environment,
        name: Seq<char>,
        value: JsValue,
        r: JsResult<()>,
    ) -> bool
        decreases self,
    {
        if self.local_has_binding(name) || self.outer_spec() is None {
            Self::initialize_binding_rel(self, post, name, value, r)
        } else {
            &&& Self::locals_eq(self, post)
            &&& match self {
                Environment::Declarative(a) => match (a.outer_env, post.outer_spec()) {
                    (Some(x), Some(y)) => x.chain_initialize_rel(*y, name, value, r),
                    _ => false,
                },
                Environment::Object(a) => match (a.outer_env, post.outer_spec()) {
                    (Some(x), Some(y)) => x.chain_initialize_rel(*y, name, value, r),
                    _ => false,
                },
                Environment::Function(a) => match (
                    a.declarative_record.outer_env,
                    post.outer_spec(),
                ) {
                    (Some(x), Some(y)) => x.chain_initialize_rel(*y, name, value, r),
                    _ => false,
                },
                Environment::Global(_) => false,
            }
        }
    }

    /// What a chain walk that deletes `name` does: the nearest record that
    /// binds it deletes; a name bound nowhere answers true with nothing
    /// changed.
    pub open spec fn chain_delete_rel(self, post: Environment, name: Seq<char>, r: bool) -> bool
        decreases self,
    {
        if self.local_has_binding(name) {
            Self::delete_binding_rel(self, post, name, r)
        } else if self.outer_spec() is None {
            post == self && r == true
        } else {
            &&& Self::locals_eq(self, post)
            &&& match self {
                Environment::Declarative(a) => match (a.outer_env, post.outer_spec()) {
                    (Some(x), Some(y)) => x.chain_delete_rel(*y, name, r),
                    _ => false,
                },
                Environment::Object(a) => match (a.outer_env, post.outer_spec()) {
                    (Some(x), Some(y)) => x.chain_delete_rel(*y, name, r),
                    _ => false,
                },
                Environment::Function(a) => match (
                    a.declarative_record.outer_env,
                    post.outer_spec(),
                ) {
                    (Some(x), Some(y)) => x.chain_delete_rel(*y, name, r),
                    _ => false,
                },
                Environment::Global(_) => false,
            }
        }
    }

    /// What a chain walk that creates a mutable binding does: a
    /// block-level creation acts here; a function-level one acts at the
    /// nearest function or global record.
    pub open spec fn chain_create_mutable_rel(
        self,
        post: Environment,
        name: Seq<char>,
        deletion: bool,
        scope: VariableScope,
        r: JsResult<()>,
    ) -> bool
        decreases self,
    {
        if scope == VariableScope::Block || self matches Environment::Function(_)
            || self matches Environment::Global(_) {
            Self::create_mutable_binding_rel(self, post, name, deletion, false, r)
        } else {
            &&& Self::locals_eq(self, post)
            &&& match self {
                Environment::Declarative(a) => match (a.outer_env, post.outer_spec()) {
                    (Some(x), Some(y)) => x.chain_create_mutable_rel(
                        *y,
                        name,
                        deletion,
                        scope,
                        r,
                    ),
                    _ => false,
                },
                Environment::Object(a) => match (a.outer_env, post.outer_spec()) {
                    (Some(x), Some(y)) => x.chain_create_mutable_rel(
                        *y,
                        name,
                        deletion,
                        scope,
                        r,
                    ),
                    _ => false,
                },
                _ => false,
            }
        }
    }

    /// What a chain walk that creates an immutable binding does.
    pub open spec fn chain_create_immutable_rel(
        self,
        post: Environment,
        name: Seq<char>,
        strict: bool,
        scope: VariableScope,
        r: JsResult<()>,
    ) -> bool
        decreases self,
    {
        if scope == VariableScope::Block || self matches Environment::Function(_)
            || self matches Environment::Global(_) {
            Self::create_immutable_binding_rel(self, post, name, strict, r)
        } else {
            &&& Self::locals_eq(self, post)
            &&& match self {
                Environment::Declarative(a) => match (a.outer_env, post.outer_spec()) {
                    (Some(x), Some(y)) => x.chain_create_immutable_rel(*y, name, strict, scope, r),
                    _ => false,
                },
                Environment::Object(a) => match (a.outer_env, post.outer_spec()) {
                    (Some(x), Some(y)) => x.chain_create_immutable_rel(*y, name, strict, scope, r),
                    _ => false,
                },
                _ => false,
            }
        }
    }

    /// Walk outward and report whether any record binds `name`.
    pub fn recursive_has_binding(&self, name: &str) -> (r: bool)
        requires
            self.wf(),
        ensures
            r == self.chain_has_binding(name@),
        decreases *self,
    {
        if self.has_binding(name) {
            return true;
        }
        match self {
            Environment::Declarative(d) => match &d.outer_env {
                Some(e) => e.recursive_has_binding(name),
                None => false,
            },
            Environment::Object(o) => match &o.outer_env {
                Some(e) => e.recursive_has_binding(name),
                None => false,
            },
            Environment::Function(f) => match &f.declarative_record.outer_env {
                Some(e) => e.recursive_has_binding(name),
                None => false,
            },
            Environment::Global(_) => false,
        }
    }

    /// Walk outward to the nearest record binding `name` and read it; an
    /// unresolvable name is a `ReferenceError`.
    pub fn recursive_get_binding_value(&self, name: &str, strict: bool) -> (r: JsResult<JsValue>)
        requires
            self.wf(),
        ensures
            match (r, self.chain_get_binding_value_spec(name@, strict)) {
                (Ok(v), Ok(w)) => v == w,
                (Err(e), Err(k)) => e.kind() == k,
                _ => false,
            },
        decreases *self,
    {
        if self.has_binding(name) {
            return self.get_binding_value(name, strict);
        }
        match self {
            Environment::Declarative(d) => match &d.outer_env {
                Some(e) => e.recursive_get_binding_value(name, strict),
                None => Err(JsError::Reference(not_defined_message(name))),
            },
            Environment::Object(o) => match &o.outer_env {
                Some(e) => e.recursive_get_binding_value(name, strict),
                None => Err(JsError::Reference(not_defined_message(name))),
            },
            Environment::Function(f) => match &f.declarative_record.outer_env {
                Some(e) => e.recursive_get_binding_value(name, strict),
                None => Err(JsError::Reference(not_defined_message(name))),
            },
            Environment::Global(_) => Err(JsError::Reference(not_defined_message(name))),
        }
    }

    /// Walk outward to the nearest record binding `name` (or the
    /// outermost record) and write it there.
    pub fn recursive_set_mutable_binding(&mut self, name: &str, value: JsValue, strict: bool) -> (r:
        JsResult<()>)
        requires
            old(self).wf(),
        ensures
            final(self).wf(),
            old(self).chain_set_rel(*final(self), name@, value, strict, r),
        decreases *old(self),
    {
        let resolve_here = self.has_binding(name) || self.is_outermost();
        if resolve_here {
            return self.set_mutable_binding(name, value, strict);
        }
        let mut cur = Environment::Declarative(DeclarativeEnvironmentRecord::new(None));
        core::mem::swap(self, &mut cur);
        match cur {
            Environment::Declarative(d) => {
                let DeclarativeEnvironmentRecord { bindings, outer_env } = d;
                match outer_env {
                    Some(mut b) => {
                        let r = (&mut *b).recursive_set_mutable_binding(name, value, strict);
                        *self = Environment::Declarative(
                            DeclarativeEnvironmentRecord { bindings, outer_env: Some(b) },
                        );
                        proof {
                            assert(self.wf());
                            assert(old(self).chain_set_rel(*self, name@, value, strict, r));
                        }
                        r
                    },
                    None => vstd::pervasive::unreached(),
                }
            },
            Environment::Object(o) => {
                let ObjectEnvironmentRecord { bindings, with_environment, outer_env } = o;
                match outer_env {
                    Some(mut b) => {
                        let r = (&mut *b).recursive_set_mutable_binding(name, value, strict);
                        *self = Environment::Object(
                            ObjectEnvironmentRecord { bindings, with_environment, outer_env: Some(b) },
                        );
                        proof {
                            assert(self.wf());
                            assert(old(self).chain_set_rel(*self, name@, value, strict, r));
                        }
                        r
                    },
                    None => vstd::pervasive::unreached(),
                }
            },
            Environment::Function(func) => {
                let FunctionEnvironmentRecord {
                    declarative_record,
                    this_value,
                    this_binding_status,
                    function,
                    home_object,
                    new_target,
                } = func;
                let DeclarativeEnvironmentRecord { bindings, outer_env } = declarative_record;
                match outer_env {
                    Some(mut b) => {
                        let r = (&mut *b).recursive_set_mutable_binding(name, value, strict);
                        *self = Environment::Function(
                            FunctionEnvironmentRecord {
                                declarative_record: DeclarativeEnvironmentRecord {
                                    bindings,
                                    outer_env: Some(b),
                                },
                                this_value,
                                this_binding_status,
                                function,
                                home_object,
                                new_target,
                            },
                        );
                        proof {
                            assert(self.wf());
                            assert(old(self).chain_set_rel(*self, name@, value, strict, r));
                        }
                        r
                    },
                    None => vstd::pervasive::unreached(),
                }
            },
            Environment::Global(_) => vstd::pervasive::unreached(),
        }
    }

    /// Walk outward to the nearest record binding `name` (or the
    /// outermost record) and initialize it there.
    pub fn recursive_initialize_binding(&mut self, name: &str, value: JsValue) -> (r: JsResult<()>)
        requires
            old(self).wf(),
            old(self).chain_can_initialize(name@),
        ensures
            final(self).wf(),
            old(self).chain_initialize_rel(*final(self), name@, value, r),
        decreases *old(self),
    {
        let resolve_here = self.has_binding(name) || self.is_outermost();
        if resolve_here {
            return self.initialize_binding(name, value);
        }
        let mut cur = Environment::Declarative(DeclarativeEnvironmentRecord::new(None));
        core::mem::swap(self, &mut cur);
        match cur {
            Environment::Declarative(d) => {
                let DeclarativeEnvironmentRecord { bindings, outer_env } = d;
                match outer_env {
                    Some(mut b) => {
                        let r = (&mut *b).recursive_initialize_binding(name, value);
                        *self = Environment::Declarative(
                            DeclarativeEnvironmentRecord { bindings, outer_env: Some(b) },
                        );
                        proof {
                            assert(self.wf());
                            assert(old(self).chain_initialize_rel(*self, name@, value, r));
                        }
                        r
                    },
                    None => vstd::pervasive::unreached(),
                }
            },
            Environment::Object(o) => {
                let ObjectEnvironmentRecord { bindings, with_environment, outer_env } = o;
                match outer_env {
                    Some(mut b) => {
                        let r = (&mut *b).recursive_initialize_binding(name, value);
                        *self = Environment::Object(
                            ObjectEnvironmentRecord { bindings, with_environment, outer_env: Some(b) },
                        );
                        proof {
                            assert(self.wf());
                            assert(old(self).chain_initialize_rel(*self, name@, value, r));
                        }
                        r
                    },
                    None => vstd::pervasive::unreached(),
                }
            },
            Environment::Function(func) => {
                let FunctionEnvironmentRecord {
                    declarative_record,
                    this_value,
                    this_binding_status,
                    function,
                    home_object,
                    new_target,
                } = func;
                let DeclarativeEnvironmentRecord { bindings, outer_env } = declarative_record;
                match outer_env {
                    Some(mut b) => {
                        let r = (&mut *b).recursive_initialize_binding(name, value);
                        *self = Environment::Function(
                            FunctionEnvironmentRecord {
                                declarative_record: DeclarativeEnvironmentRecord {
                                    bindings,
                                    outer_env: Some(b),
                                },
                                this_value,
                                this_binding_status,
                                function,
                                home_object,
                                new_target,
                            },
                        );
                        proof {
                            assert(self.wf());
                            assert(old(self).chain_initialize_rel(*self, name@, value, r));
                        }
                        r
                    },
                    None => vstd::pervasive::unreached(),
                }
            },
            Environment::Global(_) => vstd::pervasive::unreached(),
        }
    }

    /// Walk outward to the nearest record binding `name` and delete it
    /// there; a name bound nowhere counts as deleted.
    pub fn recursive_delete_binding(&mut self, name: &str) -> (r: bool)
        requires
            old(self).wf(),
        ensures
            final(self).wf(),
            old(self).chain_delete_rel(*final(self), name@, r),
        decreases *old(self),
    {
        if self.has_binding(name) {
            return self.delete_binding(name);
        }
        if self.is_outermost() {
            return true;
        }
        let mut cur = Environment::Declarative(DeclarativeEnvironmentRecord::new(None));
        core::mem::swap(self, &mut cur);
        match cur {
            Environment::Declarative(d) => {
                let DeclarativeEnvironmentRecord { bindings, outer_env } = d;
                match outer_env {
                    Some(mut b) => {
                        let r = (&mut *b).recursive_delete_binding(name);
                        *self = Environment::Declarative(
                            DeclarativeEnvironmentRecord { bindings, outer_env: Some(b) },
                        );
                        proof {
                            assert(self.wf());
                            assert(old(self).chain_delete_rel(*self, name@, r));
                        }
                        r
                    },
                    None => vstd::pervasive::unreached(),
                }
            },
            Environment::Object(o) => {
                let ObjectEnvironmentRecord { bindings, with_environment, outer_env } = o;
                match outer_env {
                    Some(mut b) => {
                        let r = (&mut *b).recursive_delete_binding(name);
                        *self = Environment::Object(
                            ObjectEnvironmentRecord { bindings, with_environment, outer_env: Some(b) },
                        );
                        proof {
                            assert(self.wf());
                            assert(old(self).chain_delete_rel(*self, name@, r));
                        }
                        r
                    },
                    None => vstd::pervasive::unreached(),
                }
            },
            Environment::Function(func) => {
                let FunctionEnvironmentRecord {
                    declarative_record,
                    this_value,
                    this_binding_status,
                    function,
                    home_object,
                    new_target,
                } = func;
                let DeclarativeEnvironmentRecord { bindings, outer_env } = declarative_record;
                match outer_env {
                    Some(mut b) => {
                        let r = (&mut *b).recursive_delete_binding(name);
                        *self = Environment::Function(
                            FunctionEnvironmentRecord {
                                declarative_record: DeclarativeEnvironmentRecord {
                                    bindings,
                                    outer_env: Some(b),
                                },
                                this_value,
                                this_binding_status,
                                function,
                                home_object,
                                new_target,
                            },
                        );
                        proof {
                            assert(self.wf());
                            assert(old(self).chain_delete_rel(*self, name@, r));
                        }
                        r
                    },
                    None => vstd::pervasive::unreached(),
                }
            },
            Environment::Global(_) => vstd::pervasive::unreached(),
        }
    }

    /// Create a mutable binding at the scope the caller names: here for a
    /// block-level declaration, at the nearest function or global record
    /// for a function-level one.
    pub fn recursive_create_mutable_binding(
        &mut self,
        name: String,
        deletion: bool,
        scope: VariableScope,
    ) -> (r: JsResult<()>)
        requires
            old(self).wf(),
            scope == VariableScope::Function ==> old(self).reaches_var_scope(),
        ensures
            final(self).wf(),
            old(self).chain_create_mutable_rel(*final(self), name@, deletion, scope, r),
        decreases *old(self),
    {
        let here = match scope {
            VariableScope::Block => true,
            VariableScope::Function => matches!(
                self,
                Environment::Function(_) | Environment::Global(_)
            ),
        };
        if here {
            return self.create_mutable_binding(name, deletion, false);
        }
        let mut cur = Environment::Declarative(DeclarativeEnvironmentRecord::new(None));
        core::mem::swap(self, &mut cur);
        match cur {
            Environment::Declarative(d) => {
                let DeclarativeEnvironmentRecord { bindings, outer_env } = d;
                match outer_env {
                    Some(mut b) => {
                        let r = (&mut *b).recursive_create_mutable_binding(name, deletion, scope);
                        *self = Environment::Declarative(
                            DeclarativeEnvironmentRecord { bindings, outer_env: Some(b) },
                        );
                        proof {
                            assert(self.wf());
                            assert(old(self).chain_create_mutable_rel(*self, name@, deletion, scope, r));
                        }
                        r
                    },
                    None => vstd::pervasive::unreached(),
                }
            },
            Environment::Object(o) => {
                let ObjectEnvironmentRecord { bindings, with_environment, outer_env } = o;
                match outer_env {
                    Some(mut b) => {
                        let r = (&mut *b).recursive_create_mutable_binding(name, deletion, scope);
                        *self = Environment::Object(
                            ObjectEnvironmentRecord { bindings, with_environment, outer_env: Some(b) },
                        );
                        proof {
                            assert(self.wf());
                            assert(old(self).chain_create_mutable_rel(*self, name@, deletion, scope, r));
                        }
                        r
                    },
                    None => vstd::pervasive::unreached(),
                }
            },
            _ => vstd::pervasive::unreached(),
        }
    }

    /// Create an immutable binding at the scope the caller names.
    pub fn recursive_create_immutable_binding(
        &mut self,
        name: String,
        strict: bool,
        scope: VariableScope,
    ) -> (r: JsResult<()>)
        requires
            old(self).wf(),
            scope == VariableScope::Function ==> old(self).reaches_var_scope(),
            scope == VariableScope::Block ==> !((*old(self)) matches Environment::Object(_)),
        ensures
            final(self).wf(),
            old(self).chain_create_immutable_rel(*final(self), name@, strict, scope, r),
        decreases *old(self),
    {
        let here = match scope {
            VariableScope::Block => true,
            VariableScope::Function => matches!(
                self,
                Environment::Function(_) | Environment::Global(_)
            ),
        };
        if here {
            return self.create_immutable_binding(name, strict);
        }
        let mut cur = Environment::Declarative(DeclarativeEnvironmentRecord::new(None));
        core::mem::swap(self, &mut cur);
        match cur {
            Environment::Declarative(d) => {
                let DeclarativeEnvironmentRecord { bindings, outer_env } = d;
                match outer_env {
                    Some(mut b) => {
                        let r = (&mut *b).recursive_create_immutable_binding(name, strict, scope);
                        *self = Environment::Declarative(
                            DeclarativeEnvironmentRecord { bindings, outer_env: Some(b) },
                        );
                        proof {
                            assert(self.wf());
                            assert(old(self).chain_create_immutable_rel(*self, name@, strict, scope, r));
                        }
                        r
                    },
                    None => vstd::pervasive::unreached(),
                }
            },
            Environment::Object(o) => {
                let ObjectEnvironmentRecord { bindings, with_environment, outer_env } = o;
                match outer_env {
                    Some(mut b) => {
                        let r = (&mut *b).recursive_create_immutable_binding(name, strict, scope);
                        *self = Environment::Object(
                            ObjectEnvironmentRecord { bindings, with_environment, outer_env: Some(b) },
                        );
                        proof {
                            assert(self.wf());
                            assert(old(self).chain_create_immutable_rel(*self, name@, strict, scope, r));
                        }
                        r
                    },
                    None => vstd::pervasive::unreached(),
                }
            },
            _ => vstd::pervasive::unreached(),
        }
    }

    /// The bindings object of a `with` environment, else none.
    pub fn with_base_object(&self) -> (r: Option<&JsObject>)
        ensures
            match self {
                Environment::Object(o) => match r {
                    Some(obj) => o.with_environment && *obj == o.bindings,
                    None => !o.with_environment,
                },
                _ => r is None,
            },
    {
        match self {
            Environment::Object(o) => o.with_base_object(),
            _ => None,
        }
    }
}


impl From<FunctionEnvironmentRecord> for Environment {
    /// Wrap a function record as a chain environment.
    fn from(env: FunctionEnvironmentRecord) -> (r: Environment)
        ensures
            r == Environment::Function(env),
    {
        Environment::Function(env)
    }
}

impl vstd::std_specs::convert::FromSpecImpl<FunctionEnvironmentRecord> for Environment {
    open spec fn obeys_from_spec() -> bool {
        true
    }

    open spec fn from_spec(env: FunctionEnvironmentRecord) -> Environment {
        Environment::Function(env)
    }
}

impl From<GlobalEnvironmentRecord> for Environment {
    /// Wrap the global record as a chain environment.
    fn from(env: GlobalEnvironmentRecord) -> (r: Environment)
        ensures
            r == Environment::Global(env),
    {
        Environment::Global(env)
    }
}

impl vstd::std_specs::convert::FromSpecImpl<GlobalEnvironmentRecord> for Environment {
    open spec fn obeys_from_spec() -> bool {
        true
    }

    open spec fn from_spec(env: GlobalEnvironmentRecord) -> Environment {
        Environment::Global(env)
    }
}

} // verus!
