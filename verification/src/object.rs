//! A minimal heap object: named data properties, an extensibility flag and
//! a prototype.
//!
//! The engine host owns the full object machinery; the records in this
//! crate need only what their contracts read: property lookup along the
//! prototype chain, data-property definition, ordinary set with
//! writable/strict semantics, deletion of configurable properties, and
//! extensibility. Accessor properties and symbol keys stay outside the
//! core.

use std::rc::Rc;

use vstd::prelude::*;

use crate::name_map::NameMap;
use crate::value::JsError;
use crate::value::JsResult;
use crate::value::JsValue;

verus! {

/// A data property: a value with its three attributes.
pub struct PropertyDescriptor {
    /// The stored value.
    pub value: JsValue,
    /// May ordinary set replace the value.
    pub writable: bool,
    /// Does enumeration see the property.
    pub enumerable: bool,
    /// May the property be deleted or redefined.
    pub configurable: bool,
}

impl Clone for PropertyDescriptor {
    /// Copy the descriptor; a held object handle is shared.
    fn clone(&self) -> (r: Self)
        ensures
            r == *self,
    {
        PropertyDescriptor {
            value: self.value.clone(),
            writable: self.writable,
            enumerable: self.enumerable,
            configurable: self.configurable,
        }
    }
}

/// A heap object: own properties, an extensibility flag, a prototype.
pub struct JsObject {
    properties: NameMap<PropertyDescriptor>,
    extensible: bool,
    prototype: Option<Rc<JsObject>>,
}

impl JsObject {
    /// The own-property tables along the whole prototype chain are
    /// well-formed.
    pub closed spec fn wf(&self) -> bool
        decreases self,
    {
        &&& self.properties.wf()
        &&& match self.prototype {
            Some(p) => p.wf(),
            None => true,
        }
    }

    /// The own properties, by name.
    pub closed spec fn props(&self) -> Map<Seq<char>, PropertyDescriptor> {
        self.properties.map()
    }

    /// Whether the object can gain new own properties.
    pub closed spec fn is_extensible_spec(&self) -> bool {
        self.extensible
    }

    /// The prototype, if any.
    pub closed spec fn proto(&self) -> Option<Rc<JsObject>> {
        self.prototype
    }

    /// Whether `name` is a property of the object or of anything on its
    /// prototype chain.
    pub open spec fn has_field_spec(&self, name: Seq<char>) -> bool
        decreases self,
    {
        ||| self.props().contains_key(name)
        ||| match self.proto() {
            Some(p) => p.has_field_spec(name),
            None => false,
        }
    }

    /// The value of the named property, found on the object itself or on
    /// the nearest prototype that has it; `None` when nowhere.
    pub open spec fn get_field_spec(&self, name: Seq<char>) -> Option<JsValue>
        decreases self,
    {
        if self.props().contains_key(name) {
            Some(self.props()[name].value)
        } else {
            match self.proto() {
                Some(p) => p.get_field_spec(name),
                None => None,
            }
        }
    }

    /// A fresh ordinary object: no properties, extensible, no prototype.
    pub fn new() -> (r: Self)
        ensures
            r.wf(),
            r.props() == Map::<Seq<char>, PropertyDescriptor>::empty(),
            r.is_extensible_spec(),
            r.proto() is None,
    {
        JsObject { properties: NameMap::new(), extensible: true, prototype: None }
    }

    /// A fresh ordinary object with the given prototype.
    pub fn with_prototype(proto: Rc<JsObject>) -> (r: Self)
        requires
            proto.wf(),
        ensures
            r.wf(),
            r.props() == Map::<Seq<char>, PropertyDescriptor>::empty(),
            r.is_extensible_spec(),
            r.proto() == Some(proto),
    {
        JsObject { properties: NameMap::new(), extensible: true, prototype: Some(proto) }
    }

    /// Forbid new own properties from now on.
    pub fn prevent_extensions(&mut self)
        ensures
            final(self).props() == old(self).props(),
            final(self).proto() == old(self).proto(),
            !final(self).is_extensible_spec(),
            old(self).wf() ==> final(self).wf(),
    {
        self.extensible = false;
    }

    /// Whether the object can gain new own properties.
    pub fn is_extensible(&self) -> (r: bool)
        ensures
            r == self.is_extensible_spec(),
    {
        self.extensible
    }

    /// The own property named `name`, if any.
    pub fn get_own_property(&self, name: &str) -> (r: Option<&PropertyDescriptor>)
        requires
            self.wf(),
        ensures
            match r {
                Some(d) => self.props().contains_key(name@) && *d == self.props()[name@],
                None => !self.props().contains_key(name@),
            },
    {
        self.properties.get(name)
    }

    /// True iff the object itself has a property named `name`.
    pub fn has_own_property(&self, name: &str) -> (r: bool)
        requires
            self.wf(),
        ensures
            r == self.props().contains_key(name@),
    {
        self.properties.contains_key(name)
    }

    /// True iff `name` resolves on the object or its prototype chain.
    pub fn has_field(&self, name: &str) -> (r: bool)
        requires
            self.wf(),
        ensures
            r == self.has_field_spec(name@),
        decreases *self,
    {
        if self.properties.contains_key(name) {
            true
        } else {
            match &self.prototype {
                Some(p) => p.has_field(name),
                None => false,
            }
        }
    }

    /// The value of `name` on the object or its prototype chain;
    /// `undefined` when absent everywhere.
    pub fn get_field(&self, name: &str) -> (r: JsValue)
        requires
            self.wf(),
        ensures
            match self.get_field_spec(name@) {
                Some(v) => r == v,
                None => r == JsValue::Undefined,
            },
        decreases *self,
    {
        match self.properties.get(name) {
            Some(d) => d.value.clone(),
            None => match &self.prototype {
                Some(p) => p.get_field(name),
                None => JsValue::Undefined,
            },
        }
    }

    /// The prototype as a value: the shared object, or `null` when there is
    /// none.
    pub fn prototype_instance(&self) -> (r: JsValue)
        ensures
            match self.proto() {
                Some(p) => r == JsValue::Object(p),
                None => r == JsValue::Null,
            },
    {
        match &self.prototype {
            Some(p) => JsValue::Object(p.clone()),
            None => JsValue::Null,
        }
    }

    /// Install `desc` as the own property `name`: an existing property is
    /// replaced; a new one is created only on an extensible object. Returns
    /// whether the property was installed.
    ///
    /// The full validity rules of the property-descriptor algebra are the
    /// host's business, not the core's.
    pub fn define_own_property(&mut self, name: String, desc: PropertyDescriptor) -> (r: bool)
        requires
            old(self).wf(),
        ensures
            final(self).wf(),
            final(self).proto() == old(self).proto(),
            final(self).is_extensible_spec() == old(self).is_extensible_spec(),
            r == (old(self).props().contains_key(name@) || old(self).is_extensible_spec()),
            r ==> final(self).props() == old(self).props().insert(name@, desc),
            !r ==> final(self).props() == old(self).props(),
    {
        if self.properties.contains_key(name.as_str()) || self.extensible {
            self.properties.insert(name, desc);
            true
        } else {
            false
        }
    }

    /// Install `desc` as the own property `name` unconditionally, as the
    /// engine's raw property insertion does. Callers guard the installation
    /// themselves where the declaration rules require it.
    pub fn insert_property(&mut self, name: String, desc: PropertyDescriptor)
        requires
            old(self).wf(),
        ensures
            final(self).wf(),
            final(self).proto() == old(self).proto(),
            final(self).is_extensible_spec() == old(self).is_extensible_spec(),
            final(self).props() == old(self).props().insert(name@, desc),
    {
        self.properties.insert(name, desc);
    }

    /// Ordinary set of a data property: replace the value of a writable own
    /// property; create the property on an extensible object; otherwise do
    /// nothing, and in strict mode fail with a `TypeError`.
    pub fn set_property(&mut self, name: &str, value: JsValue, strict: bool) -> (r: JsResult<()>)
        requires
            old(self).wf(),
        ensures
            final(self).wf(),
            final(self).proto() == old(self).proto(),
            final(self).is_extensible_spec() == old(self).is_extensible_spec(),
            ({
                let m = old(self).props();
                if m.contains_key(name@) {
                    if m[name@].writable {
                        r is Ok && final(self).props() == m.insert(
                            name@,
                            PropertyDescriptor { value, ..m[name@] },
                        )
                    } else {
                        final(self).props() == m && (if strict {
                            r matches Err(e) && e.is_type()
                        } else {
                            r is Ok
                        })
                    }
                } else {
                    if old(self).is_extensible_spec() {
                        r is Ok && final(self).props() == m.insert(
                            name@,
                            PropertyDescriptor {
                                value,
                                writable: true,
                                enumerable: true,
                                configurable: true,
                            },
                        )
                    } else {
                        final(self).props() == m && (if strict {
                            r matches Err(e) && e.is_type()
                        } else {
                            r is Ok
                        })
                    }
                }
            }),
    {
        let existing = self.properties.get(name);
        match existing {
            Some(d) => {
                if d.writable {
                    let desc = PropertyDescriptor {
                        value,
                        writable: d.writable,
                        enumerable: d.enumerable,
                        configurable: d.configurable,
                    };
                    self.properties.insert(name.to_owned(), desc);
                    Ok(())
                } else if strict {
                    Err(
                        JsError::Type(
                            "Cannot assign to read only property".to_owned().concat(" ").concat(
                                name,
                            ),
                        ),
                    )
                } else {
                    Ok(())
                }
            },
            None => {
                if self.extensible {
                    self.properties.insert(
                        name.to_owned(),
                        PropertyDescriptor {
                            value,
                            writable: true,
                            enumerable: true,
                            configurable: true,
                        },
                    );
                    Ok(())
                } else if strict {
                    Err(JsError::Type("Cannot add property to non-extensible object".to_owned()))
                } else {
                    Ok(())
                }
            },
        }
    }

    /// Delete the own property `name`: a configurable property is removed
    /// and the call answers true; a non-configurable one stays and the call
    /// answers false; an absent name answers true.
    pub fn delete_own_property(&mut self, name: &str) -> (r: bool)
        requires
            old(self).wf(),
        ensures
            final(self).wf(),
            final(self).proto() == old(self).proto(),
            final(self).is_extensible_spec() == old(self).is_extensible_spec(),
            ({
                let m = old(self).props();
                if m.contains_key(name@) {
                    if m[name@].configurable {
                        r && final(self).props() == m.remove(name@)
                    } else {
                        !r && final(self).props() == m
                    }
                } else {
                    r && final(self).props() == m
                }
            }),
    {
        let existing = self.properties.get(name);
        match existing {
            Some(d) => {
                if d.configurable {
                    self.properties.remove(name);
                    proof {
                        assert(self.props() =~= old(self).props().remove(name@));
                    }
                    true
                } else {
                    false
                }
            },
            None => {
                proof {
                    assert(self.props() =~= old(self).props().remove(name@));
                }
                true
            },
        }
    }
}

} // verus!
