//! Tests for the environment records: declarative binding rules, the
//! function record's `this` machinery, the global record's two halves, and
//! resolution along a chain.

use std::rc::Rc;

use boa::builtins::error::Error;
use boa::builtins::error::ReferenceError;
use boa::environment::declarative_environment_record::DeclarativeEnvironmentRecord;
use boa::environment::function_environment_record::BindingStatus;
use boa::environment::function_environment_record::FunctionEnvironmentRecord;
use boa::environment::global_environment_record::GlobalEnvironmentRecord;
use boa::environment::lexical_environment::Environment;
use boa::environment::lexical_environment::EnvironmentType;
use boa::environment::lexical_environment::VariableScope;
use boa::object::JsObject;
use boa::object::PropertyDescriptor;
use boa::string::JsString;
use boa::value::JsError;
use boa::value::JsValue;

fn descriptor(value: JsValue, writable: bool, enumerable: bool, configurable: bool) -> PropertyDescriptor {
    PropertyDescriptor { value, writable, enumerable, configurable }
}

#[test]
fn duplicate_binding_rejected() {
    let mut rec = DeclarativeEnvironmentRecord::new(None);
    assert!(rec.create_mutable_binding("n".to_string(), true, false).is_ok());

    let again = rec.create_mutable_binding("n".to_string(), true, false);
    match again {
        Err(JsError::Type(msg)) => assert_eq!(msg, "Binding already exists for n"),
        other => panic!("expected a TypeError, got {:?}", other.is_ok()),
    }

    let immutable = rec.create_immutable_binding("n".to_string(), true);
    assert!(matches!(immutable, Err(JsError::Type(_))));

    // with reuse allowed the same name may be declared again
    assert!(rec.create_mutable_binding("n".to_string(), true, true).is_ok());
}

#[test]
fn read_before_initialize_fails() {
    let mut rec = DeclarativeEnvironmentRecord::new(None);
    rec.create_mutable_binding("n".to_string(), true, false).unwrap();
    let read = rec.get_binding_value("n", false);
    match read {
        Err(e) => assert_eq!(e.kind_name(), "ReferenceError"),
        Ok(_) => panic!("an uninitialized binding must not be readable"),
    }

    rec.initialize_binding("n", JsValue::Integer(3)).unwrap();
    assert!(matches!(rec.get_binding_value("n", false), Ok(JsValue::Integer(3))));
}

#[test]
fn immutable_binding_keeps_value() {
    let mut rec = DeclarativeEnvironmentRecord::new(None);
    rec.create_immutable_binding("n".to_string(), true).unwrap();
    rec.initialize_binding("n", JsValue::Integer(1)).unwrap();

    let write = rec.set_mutable_binding("n", JsValue::Integer(2), true);
    match write {
        Err(e) => assert_eq!(e.kind_name(), "TypeError"),
        Ok(_) => panic!("a strict write to a constant must fail"),
    }
    assert!(matches!(rec.get_binding_value("n", true), Ok(JsValue::Integer(1))));

    // a strict constant also refuses sloppy writes
    assert!(matches!(
        rec.set_mutable_binding("n", JsValue::Integer(2), false),
        Err(JsError::Type(_))
    ));
    assert!(matches!(rec.get_binding_value("n", false), Ok(JsValue::Integer(1))));

    // a sloppy constant drops a sloppy write silently and refuses a strict
    // one
    let mut sloppy = DeclarativeEnvironmentRecord::new(None);
    sloppy.create_immutable_binding("m".to_string(), false).unwrap();
    sloppy.initialize_binding("m", JsValue::Integer(4)).unwrap();
    assert!(sloppy.set_mutable_binding("m", JsValue::Integer(5), false).is_ok());
    assert!(matches!(sloppy.get_binding_value("m", false), Ok(JsValue::Integer(4))));
    assert!(matches!(
        sloppy.set_mutable_binding("m", JsValue::Integer(5), true),
        Err(JsError::Type(_))
    ));
}

#[test]
fn delete_binding_respects_deletability() {
    let mut rec = DeclarativeEnvironmentRecord::new(None);
    rec.create_mutable_binding("keep".to_string(), false, false).unwrap();
    rec.create_mutable_binding("go".to_string(), true, false).unwrap();

    assert!(!rec.delete_binding("keep"));
    assert!(rec.has_binding("keep"));

    assert!(rec.delete_binding("go"));
    assert!(!rec.has_binding("go"));
}

#[test]
fn bind_this_value_once() {
    let mut rec = FunctionEnvironmentRecord::new(
        JsObject::new(),
        None,
        None,
        BindingStatus::Uninitialized,
        JsValue::Undefined,
    );
    assert!(!matches!(rec.get_this_binding(), Ok(_)));

    assert!(matches!(rec.bind_this_value(JsValue::Integer(7)), Ok(JsValue::Integer(7))));

    let again = rec.bind_this_value(JsValue::Integer(8));
    match again {
        Err(JsError::Reference(msg)) => {
            assert_eq!(msg, "Cannot bind to an initialised function")
        },
        _ => panic!("a second bind must raise a reference error"),
    }
    assert!(matches!(rec.get_this_binding(), Ok(JsValue::Integer(7))));
}

#[test]
fn constructed_this_starts_initialized() {
    let rec = FunctionEnvironmentRecord::new(
        JsObject::new(),
        Some(JsValue::Integer(5)),
        None,
        BindingStatus::Uninitialized,
        JsValue::Undefined,
    );
    assert!(rec.has_this_binding());
    assert!(matches!(rec.get_this_binding(), Ok(JsValue::Integer(5))));
}

#[test]
fn lexical_record_has_no_this_or_super() {
    let mut rec = FunctionEnvironmentRecord::new(
        JsObject::new(),
        None,
        None,
        BindingStatus::Lexical,
        JsValue::Undefined,
    );
    rec.set_home_object(Rc::new(JsObject::new()));
    assert!(!rec.has_this_binding());
    assert!(!rec.has_super_binding());
}

#[test]
fn super_binding_and_base() {
    let mut proto = JsObject::new();
    proto.insert_property("tag".to_string(), descriptor(JsValue::Integer(1), true, true, true));
    let proto = Rc::new(proto);
    let home = Rc::new(JsObject::with_prototype(proto));

    let mut rec = FunctionEnvironmentRecord::new(
        JsObject::new(),
        None,
        None,
        BindingStatus::Uninitialized,
        JsValue::Undefined,
    );
    assert!(!rec.has_super_binding());
    assert!(matches!(rec.get_super_base(), JsValue::Undefined));

    rec.set_home_object(home);
    assert!(rec.has_super_binding());
    match rec.get_super_base() {
        JsValue::Object(base) => assert!(base.has_own_property("tag")),
        _ => panic!("the super base must be the home object's prototype"),
    }
}

#[test]
fn lexical_shadows_global_var() {
    let mut global = GlobalEnvironmentRecord::new(JsObject::new(), JsObject::new());
    global.create_global_var_binding("x".to_string(), false).unwrap();
    assert!(global.has_var_declaration("x"));
    assert!(matches!(global.get_binding_value("x", false), Ok(JsValue::Undefined)));

    global.create_mutable_binding("x".to_string(), true, false).unwrap();
    global.initialize_binding("x", JsValue::Integer(9)).unwrap();
    assert!(global.has_lexical_declaration("x"));
    assert!(matches!(global.get_binding_value("x", false), Ok(JsValue::Integer(9))));
    assert!(global.has_var_declaration("x"));
}

#[test]
fn restricted_global_property() {
    let mut obj = JsObject::new();
    obj.insert_property("locked".to_string(), descriptor(JsValue::Integer(1), true, true, false));
    obj.insert_property("open".to_string(), descriptor(JsValue::Integer(2), true, true, true));
    let global = GlobalEnvironmentRecord::new(obj, JsObject::new());

    assert!(global.has_restricted_global_property("locked"));
    assert!(!global.has_restricted_global_property("open"));
    assert!(!global.has_restricted_global_property("absent"));
}

#[test]
fn can_declare_global_bindings() {
    let mut obj = JsObject::new();
    obj.insert_property(
        "frozen".to_string(),
        descriptor(JsValue::Integer(1), false, false, false),
    );
    obj.insert_property(
        "plain".to_string(),
        descriptor(JsValue::Integer(2), true, true, false),
    );
    let global = GlobalEnvironmentRecord::new(obj, JsObject::new());

    assert!(global.can_declare_global_var("fresh"));
    assert!(global.can_declare_global_var("frozen"));

    // a non-configurable, non-writable, non-enumerable property refuses a
    // function declaration; a writable and enumerable one accepts it
    assert!(!global.can_declare_global_function("frozen"));
    assert!(global.can_declare_global_function("plain"));
    assert!(global.can_declare_global_function("fresh"));

    let mut sealed = JsObject::new();
    sealed.prevent_extensions();
    let sealed_global = GlobalEnvironmentRecord::new(sealed, JsObject::new());
    assert!(!sealed_global.can_declare_global_var("fresh"));
    assert!(!sealed_global.can_declare_global_function("fresh"));
}

#[test]
fn global_delete_prunes_var_names() {
    let mut global = GlobalEnvironmentRecord::new(JsObject::new(), JsObject::new());
    global.create_global_var_binding("gone".to_string(), true).unwrap();
    global.create_global_var_binding("stays".to_string(), false).unwrap();

    assert!(global.delete_binding("gone"));
    assert!(!global.has_var_declaration("gone"));
    assert!(!global.has_binding("gone"));

    // a non-configurable property survives deletion, yet the call still
    // answers true, and the var-name set keeps the name
    assert!(global.delete_binding("stays"));
    assert!(global.has_var_declaration("stays"));
    assert!(global.has_binding("stays"));

    // deleting what was never there is also true
    assert!(global.delete_binding("phantom"));
}

#[test]
fn global_function_binding_descriptors() {
    let mut global = GlobalEnvironmentRecord::new(JsObject::new(), JsObject::new());
    global.create_global_function_binding("f", JsValue::Integer(1), false);
    assert!(global.has_binding("f"));
    assert!(global.has_var_declaration("f"));
    assert!(global.has_restricted_global_property("f"));

    // over the now non-configurable property the descriptor is forced
    // writable and enumerable
    global.create_global_function_binding("f", JsValue::Integer(2), false);
    assert!(global.can_declare_global_function("f"));
    assert!(matches!(global.get_binding_value("f", false), Ok(JsValue::Integer(2))));
}

fn build_chain() -> Environment {
    let global = GlobalEnvironmentRecord::new(JsObject::new(), JsObject::new());
    let function = FunctionEnvironmentRecord::new(
        JsObject::new(),
        None,
        Some(Environment::from(global)),
        BindingStatus::Uninitialized,
        JsValue::Undefined,
    );
    let inner = DeclarativeEnvironmentRecord::new(Some(Environment::Function(function)));
    Environment::Declarative(inner)
}

#[test]
fn chain_resolution_and_deletion() {
    let mut env = build_chain();
    assert!(matches!(env.get_environment_type(), EnvironmentType::Declarative));

    env.recursive_create_mutable_binding("y".to_string(), true, VariableScope::Block).unwrap();
    env.recursive_set_mutable_binding("y", JsValue::Integer(7), false).unwrap();
    assert!(matches!(env.recursive_get_binding_value("y", false), Ok(JsValue::Integer(7))));

    assert!(env.recursive_delete_binding("y"));
    match env.recursive_get_binding_value("y", false) {
        Err(JsError::Reference(msg)) => assert_eq!(msg, "y is not defined"),
        _ => panic!("a deleted binding must not resolve"),
    }
}

#[test]
fn chain_function_scope_creation() {
    let mut env = build_chain();
    env.recursive_create_mutable_binding("v".to_string(), true, VariableScope::Function).unwrap();

    // the binding was created at the function record, not the innermost one
    assert!(!env.has_binding("v"));
    assert!(env.recursive_has_binding("v"));
    assert!(matches!(env.recursive_get_binding_value("v", false), Err(_)));

    env.recursive_initialize_binding("v", JsValue::Integer(4)).unwrap();
    assert!(matches!(env.recursive_get_binding_value("v", false), Ok(JsValue::Integer(4))));
}

#[test]
fn chain_immutable_creation_and_write() {
    let mut env = build_chain();
    env.recursive_create_immutable_binding("k".to_string(), true, VariableScope::Block).unwrap();
    env.recursive_initialize_binding("k", JsValue::Integer(1)).unwrap();
    assert!(matches!(
        env.recursive_set_mutable_binding("k", JsValue::Integer(2), true),
        Err(JsError::Type(_))
    ));
    assert!(matches!(env.recursive_get_binding_value("k", true), Ok(JsValue::Integer(1))));
}

#[test]
fn chain_set_reaches_global_object() {
    let mut env = build_chain();
    // a sloppy write to an undeclared name lands on the global record
    env.recursive_set_mutable_binding("loose", JsValue::Integer(11), false).unwrap();
    assert!(!env.has_binding("loose"));
    assert!(matches!(env.recursive_get_binding_value("loose", false), Ok(JsValue::Integer(11))));
}

#[test]
fn with_environment_exposes_base_object() {
    let mut obj = JsObject::new();
    obj.insert_property("field".to_string(), descriptor(JsValue::Integer(1), true, true, true));
    let with_env = Environment::Object(
        boa::environment::object_environment_record::ObjectEnvironmentRecord::new(obj, true, None),
    );
    assert!(with_env.with_base_object().is_some());
    assert!(with_env.has_binding("field"));
    assert!(!with_env.has_this_binding());

    let plain = Environment::Object(
        boa::environment::object_environment_record::ObjectEnvironmentRecord::new(
            JsObject::new(),
            false,
            None,
        ),
    );
    assert!(plain.with_base_object().is_none());
}

#[test]
fn error_constructor_and_to_string() {
    let obj = Error::constructor(None, Some(JsString::new("boom")));
    let this = JsValue::Object(Rc::new(obj));
    let rendered = Error::to_string(&this).unwrap();
    assert_eq!(rendered.as_str(), "Error: boom");

    let silent = Error::constructor(None, None);
    let rendered = Error::to_string(&JsValue::Object(Rc::new(silent))).unwrap();
    assert_eq!(rendered.as_str(), "Error");

    assert!(matches!(
        Error::to_string(&JsValue::Integer(3)),
        Err(JsError::Type(_))
    ));
}

#[test]
fn reference_error_inherits_name() {
    let mut proto = JsObject::new();
    proto.insert_property(
        "name".to_string(),
        descriptor(JsValue::Str(JsString::new("ReferenceError")), true, false, true),
    );
    let obj = ReferenceError::constructor(Some(Rc::new(proto)), Some(JsString::new("x is gone")));
    let rendered = Error::to_string(&JsValue::Object(Rc::new(obj))).unwrap();
    assert_eq!(rendered.as_str(), "ReferenceError: x is gone");
}

#[test]
fn global_this_binding_is_fixed() {
    let mut this_obj = JsObject::new();
    this_obj.insert_property("mark".to_string(), descriptor(JsValue::Integer(1), true, true, true));
    let global = GlobalEnvironmentRecord::new(JsObject::new(), this_obj);
    assert!(global.has_this_binding());
    assert!(!global.has_super_binding());
    match global.get_this_binding() {
        Ok(JsValue::Object(o)) => assert!(o.has_own_property("mark")),
        _ => panic!("globalThis must be the fixed object"),
    }
}
