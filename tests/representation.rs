use debug_everything::{debug_string, Debuggable, Opaque, Repr, PLACEHOLDER};

struct Dummy;

struct Point {
    x: i32,
    y: i32,
}

#[test]
fn integer_shows_its_digits() {
    assert_eq!(debug_string(&42), "42");
}

#[test]
fn type_without_representation_shows_placeholder() {
    assert_eq!(debug_string(&Opaque(Dummy)), "<no Debug impl>");
}

#[test]
fn string_slice_is_quoted() {
    assert_eq!(debug_string(&"hello"), "\"hello\"");
}

#[test]
fn distinct_values_without_representation_share_placeholder() {
    let a = Opaque(Point { x: 1, y: 2 });
    let b = Opaque(Point { x: -5, y: 9 });
    assert_eq!(a.0.x + a.0.y + b.0.x + b.0.y, 7);
    assert_eq!(debug_string(&a), "<no Debug impl>");
    assert_eq!(debug_string(&b), "<no Debug impl>");
    assert_eq!(debug_string(&a), debug_string(&b));
}

#[test]
fn placeholder_constant_text() {
    assert_eq!(PLACEHOLDER, "<no Debug impl>");
}

#[test]
fn dispatcher_hands_back_the_value_itself() {
    let v: u32 = 7;
    match v.debug() {
        Repr::Value(r) => assert!(std::ptr::eq(r, &v)),
        Repr::Placeholder => panic!("expected the value"),
    }
}

#[test]
fn dispatcher_hands_back_placeholder_without_representation() {
    let v = Opaque(Dummy);
    assert!(matches!(v.debug(), Repr::Placeholder));
}

#[test]
fn value_text_matches_direct_representation() {
    let s = String::from("tab\there");
    assert_eq!(debug_string(&s), s.repr());
    assert_eq!(debug_string(&s), format!("{:?}", s));
    let n: i64 = -123;
    assert_eq!(debug_string(&n), n.repr());
    assert_eq!(debug_string(&n), format!("{:?}", n));
}

#[test]
fn repeated_dispatch_gives_same_text() {
    let v: i16 = -300;
    let first = v.debug().text();
    let second = v.debug().text();
    assert_eq!(first, "-300");
    assert_eq!(first, second);
    let o = Opaque(3u8);
    assert_eq!(o.debug().text(), o.debug().text());
    assert_eq!(o.debug().text(), "<no Debug impl>");
}

#[test]
fn branch_is_fixed_by_type() {
    assert!(<u8 as Debuggable>::represented());
    assert!(<&str as Debuggable>::represented());
    assert!(!<Opaque<u8> as Debuggable>::represented());
    for v in [0u8, 1, 255] {
        assert!(matches!(v.debug(), Repr::Value(_)));
        assert!(matches!(Opaque(v).debug(), Repr::Placeholder));
    }
}

#[test]
fn unsigned_extremes() {
    assert_eq!(debug_string(&0u8), "0");
    assert_eq!(debug_string(&255u8), "255");
    assert_eq!(debug_string(&65535u16), "65535");
    assert_eq!(debug_string(&u32::MAX), "4294967295");
    assert_eq!(debug_string(&u64::MAX), "18446744073709551615");
    assert_eq!(debug_string(&10usize), "10");
}

#[test]
fn signed_extremes() {
    assert_eq!(debug_string(&i8::MIN), "-128");
    assert_eq!(debug_string(&i32::MIN), "-2147483648");
    assert_eq!(debug_string(&i64::MIN), "-9223372036854775808");
    assert_eq!(debug_string(&i64::MAX), "9223372036854775807");
    assert_eq!(debug_string(&(-1isize)), "-1");
    assert_eq!(debug_string(&0i32), "0");
}

#[test]
fn booleans() {
    assert_eq!(debug_string(&true), "true");
    assert_eq!(debug_string(&false), "false");
}

#[test]
fn strings_are_escaped() {
    assert_eq!(debug_string(&String::from("a\"b\n")), "\"a\\\"b\\n\"");
    assert_eq!(debug_string(&""), "\"\"");
    assert_eq!(debug_string(&String::new()), "\"\"");
}
