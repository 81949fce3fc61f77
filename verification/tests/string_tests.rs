//! Tests for the primitive string type: handle semantics, reference
//! counts, code-unit search, and the string-to-number front end.

use std::collections::hash_map::DefaultHasher;
use std::hash::Hash;
use std::hash::Hasher;
use std::mem::size_of;

use boa::number::NumberClass;
use boa::string::JsString;

#[test]
fn empty() {
    let _ = JsString::new("");
}

#[test]
fn pointer_size() {
    assert_eq!(size_of::<JsString>(), size_of::<&u8>());
    assert_eq!(size_of::<Option<JsString>>(), size_of::<&u8>());
}

#[test]
fn refcount() {
    let x = JsString::new("Hello wrold");
    assert_eq!(JsString::refcount(&x), 1);

    {
        let y = x.clone();
        assert_eq!(JsString::refcount(&x), 2);
        assert_eq!(JsString::refcount(&y), 2);

        {
            let z = y.clone();
            assert_eq!(JsString::refcount(&x), 3);
            assert_eq!(JsString::refcount(&y), 3);
            assert_eq!(JsString::refcount(&z), 3);
        }

        assert_eq!(JsString::refcount(&x), 2);
        assert_eq!(JsString::refcount(&y), 2);
    }

    assert_eq!(JsString::refcount(&x), 1);
}

#[test]
fn ptr_eq() {
    let x = JsString::new("Hello");
    let y = x.clone();

    assert!(JsString::ptr_eq(&x, &y));

    let z = JsString::new("Hello");
    assert!(!JsString::ptr_eq(&x, &z));
    assert!(!JsString::ptr_eq(&y, &z));
}

#[test]
fn as_str() {
    let s = "Hello";
    let x = JsString::new(s);

    assert_eq!(x.as_str(), s);
}

#[test]
fn hash() {
    let s = "Hello, world!";
    let x = JsString::new(s);

    assert_eq!(x.as_str(), s);

    let mut hasher = DefaultHasher::new();
    s.hash(&mut hasher);
    let s_hash = hasher.finish();
    let mut hasher = DefaultHasher::new();
    x.hash(&mut hasher);
    let x_hash = hasher.finish();

    assert_eq!(s_hash, x_hash);
}

#[test]
fn concat() {
    let x = JsString::new("hello");
    let y = ", ";
    let z = JsString::new("world");
    let w = String::from("!");

    let xy = JsString::concat(x.as_str(), y);
    assert_eq!(xy.as_str(), "hello, ");
    assert_eq!(JsString::refcount(&xy), 1);

    let xyz = JsString::concat(xy.as_str(), z.as_str());
    assert_eq!(xyz.as_str(), "hello, world");
    assert_eq!(JsString::refcount(&xyz), 1);

    let xyzw = JsString::concat(xyz.as_str(), w.as_str());
    assert_eq!(xyzw.as_str(), "hello, world!");
    assert_eq!(JsString::refcount(&xyzw), 1);
}

#[test]
fn new_reads_back_and_measures_bytes() {
    for s in ["", "a", "héllo", "𝌆x", "hello, world"] {
        let x = JsString::new(s);
        assert_eq!(x.as_str(), s);
        assert_eq!(x.len(), s.len());
        assert_eq!(x.is_empty(), s.is_empty());
    }
}

#[test]
fn concat_joins_and_starts_fresh() {
    let a = JsString::new("foo");
    let b = JsString::new("𝌆bar");
    let joined = JsString::concat(a.as_str(), b.as_str());
    assert_eq!(joined.as_str(), "foo𝌆bar");
    assert_eq!(JsString::refcount(&joined), 1);
}

#[test]
fn equals_ignores_allocation() {
    let x = JsString::new("same text");
    let c = x.clone();
    assert!(JsString::ptr_eq(&c, &x));
    assert!(JsString::equals(&c, &x));

    let y = JsString::new("same text");
    assert!(!JsString::ptr_eq(&x, &y));
    assert!(JsString::equals(&x, &y));
    assert!(x == y);

    let z = JsString::new("other text");
    assert!(!JsString::equals(&x, &z));
    assert!(x != z);
}

#[test]
fn refcount_trajectory() {
    let a = JsString::new("hello");
    assert_eq!(JsString::refcount(&a), 1);
    let b = a.clone();
    assert_eq!(JsString::refcount(&a), 2);
    let c = a.clone();
    assert_eq!(JsString::refcount(&a), 3);
    drop(c);
    assert_eq!(JsString::refcount(&a), 2);
    drop(b);
    assert_eq!(JsString::refcount(&a), 1);
}

#[test]
fn concat_chain() {
    let joined = JsString::concat(
        JsString::concat(JsString::new("hello").as_str(), ", ").as_str(),
        JsString::new("world").as_str(),
    );
    assert_eq!(joined.as_str(), "hello, world");
    assert_eq!(JsString::refcount(&joined), 1);
}

#[test]
fn index_of_edge_cases() {
    assert_eq!(JsString::new("").index_of(&JsString::new(""), 0), Some(0));
    assert_eq!(JsString::new("abc").index_of(&JsString::new(""), 5), None);
    assert_eq!(JsString::new("aaa").index_of(&JsString::new("aa"), 0), Some(0));
    // the index is counted in UTF-16 code units: the first character is a
    // surrogate pair
    assert_eq!(JsString::new("𝌆x").index_of(&JsString::new("x"), 0), Some(2));
}

#[test]
fn index_of_from_index() {
    let h = JsString::new("ababab");
    let n = JsString::new("bab");
    assert_eq!(h.index_of(&n, 0), Some(1));
    assert_eq!(h.index_of(&n, 2), Some(3));
    assert_eq!(h.index_of(&n, 4), None);
    assert_eq!(h.index_of(&JsString::new("zzz"), 0), None);
}

fn to_number(s: &str) -> f64 {
    match JsString::new(s).string_to_number_class() {
        NumberClass::Zero => 0.0,
        NumberClass::PosInfinity => f64::INFINITY,
        NumberClass::NegInfinity => f64::NEG_INFINITY,
        NumberClass::Nan => f64::NAN,
        NumberClass::Hex(digits) => {
            let mut value: f64 = 0.0;
            for c in digits.chars() {
                value = value * 16.0 + c.to_digit(16).unwrap_or(0) as f64;
            }
            value
        },
        NumberClass::Parse(text) => fast_float::parse(text.as_str()).unwrap_or(f64::NAN),
    }
}

#[test]
fn string_to_number_dispatch() {
    assert!(matches!(
        JsString::new("").string_to_number_class(),
        NumberClass::Zero
    ));
    assert!(matches!(
        JsString::new("  \t ").string_to_number_class(),
        NumberClass::Zero
    ));
    assert!(matches!(
        JsString::new("Infinity").string_to_number_class(),
        NumberClass::PosInfinity
    ));
    assert!(matches!(
        JsString::new("+Infinity").string_to_number_class(),
        NumberClass::PosInfinity
    ));
    assert!(matches!(
        JsString::new("-Infinity").string_to_number_class(),
        NumberClass::NegInfinity
    ));
    for guarded in ["inf", "+inf", "-inf", "nan", "+nan", "-nan", "INF", "+NaN", "NAN"] {
        assert!(
            matches!(
                JsString::new(guarded).string_to_number_class(),
                NumberClass::Nan
            ),
            "{guarded} must be guarded"
        );
    }
    match JsString::new("  42 ").string_to_number_class() {
        NumberClass::Parse(text) => assert_eq!(text, "42"),
        other => panic!("expected Parse, got {other:?}"),
    }
    match JsString::new("0xFF").string_to_number_class() {
        NumberClass::Hex(digits) => assert_eq!(digits, "FF"),
        other => panic!("expected Hex, got {other:?}"),
    }
    // a bare marker or a stray character is no hexadecimal literal
    for not_hex in ["0x", "0xG", "x10", "00x1"] {
        assert!(
            matches!(
                JsString::new(not_hex).string_to_number_class(),
                NumberClass::Parse(_)
            ),
            "{not_hex} must fall through to the parser"
        );
    }
}

#[test]
fn string_to_number_values() {
    assert_eq!(to_number(""), 0.0);
    assert_eq!(to_number("  42 "), 42.0);
    assert_eq!(to_number("Infinity"), f64::INFINITY);
    assert_eq!(to_number("-Infinity"), f64::NEG_INFINITY);
    assert!(to_number("inf").is_nan());
    assert_eq!(to_number("0xFF"), 255.0);
    assert_eq!(to_number(" 0X1a "), 26.0);
    assert!(to_number("0x").is_nan());
    assert!(to_number("0xG").is_nan());
    assert!(to_number("abc").is_nan());
    assert_eq!(to_number("\u{FEFF} 1.5e2 \u{2028}"), 150.0);
}
