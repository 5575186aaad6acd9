use yaml_value::number::float_bits_eq;
use yaml_value::{Mapping, Number, Yaml};

fn integer(n: i64) -> Yaml {
    Yaml::Number(Number::Int(n))
}

fn float(f: f64) -> Yaml {
    Yaml::Number(Number::Float(f.to_bits()))
}

fn text(s: &str) -> Yaml {
    Yaml::String(s.to_string())
}

fn seq(items: Vec<Yaml>) -> Yaml {
    Yaml::Sequence(items)
}

fn map(pairs: Vec<(Yaml, Yaml)>) -> Yaml {
    let mut m = Mapping::new();
    for (k, v) in pairs {
        m.insert(k, v);
    }
    Yaml::Mapping(m)
}

fn sample() -> Yaml {
    map(vec![
        (text("x"), seq(vec![integer(1), integer(2), Yaml::Null])),
        (text("y"), Yaml::Bool(true)),
        (integer(3), float(1.5)),
    ])
}

#[test]
fn every_value_equals_itself() {
    let values = vec![
        Yaml::Null,
        Yaml::Bool(false),
        integer(-7),
        float(2.25),
        float(f64::NAN),
        text(""),
        seq(vec![]),
        seq(vec![integer(1), text("a")]),
        map(vec![]),
        sample(),
    ];
    for v in &values {
        assert!(v == v);
        assert!(v.equals(v));
    }
}

#[test]
fn equality_is_symmetric() {
    let a = sample();
    let b = map(vec![(integer(3), float(1.5)), (text("x"), seq(vec![integer(1), integer(2), Yaml::Null]))]);
    assert_eq!(a == b, b == a);
    assert!(a != b);
    let c = seq(vec![integer(1)]);
    let d = seq(vec![integer(1), integer(2)]);
    assert_eq!(c == d, d == c);
    assert!(c != d);
}

#[test]
fn different_variants_are_unequal() {
    assert!(Yaml::Null != Yaml::Bool(false));
    assert!(Yaml::Bool(false) != Yaml::Null);
    assert!(integer(0) != text(""));
    assert!(text("") != integer(0));
    assert!(integer(1) != Yaml::Bool(true));
    assert!(seq(vec![]) != map(vec![]));
    assert!(Yaml::Null != seq(vec![]));
}

#[test]
fn null_equals_null() {
    assert!(Yaml::Null == Yaml::Null);
}

#[test]
fn sequences_compare_in_order() {
    assert!(seq(vec![integer(1), integer(2)]) != seq(vec![integer(2), integer(1)]));
    assert!(seq(vec![integer(1), integer(2)]) == seq(vec![integer(1), integer(2)]));
    assert!(seq(vec![integer(1), integer(1)]) != seq(vec![integer(1)]));
}

#[test]
fn mappings_ignore_order() {
    let a = map(vec![(text("a"), integer(1)), (text("b"), integer(2))]);
    let b = map(vec![(text("b"), integer(2)), (text("a"), integer(1))]);
    assert!(a == b);
    assert!(b == a);
    let c = map(vec![(text("a"), integer(1)), (text("b"), integer(3))]);
    assert!(a != c);
    let d = map(vec![(text("a"), integer(1))]);
    assert!(a != d);
    assert!(d != a);
}

#[test]
fn numbers_compare_with_every_integer_width() {
    let five = integer(5);
    assert!(five == 5i8);
    assert!(five == 5i16);
    assert!(five == 5i32);
    assert!(five == 5i64);
    assert!(five == 5isize);
    assert!(five == 5u8);
    assert!(five == 5u16);
    assert!(five == 5u32);
    assert!(five == 5usize);
    assert!(5i8 == five);
    assert!(5u32 == five);
    assert!(5usize == five);
    assert!(five != 6i32);
    assert!(6u8 != five);
    assert!(&five == 5i64);
    let mut m = integer(5);
    let r = &mut m;
    assert!(r == 5u16);
    assert!(integer(-1) == -1i8);
    assert!(integer(i64::MIN) == i64::MIN);
}

#[test]
fn large_unsigned_values_are_not_truncated() {
    assert!(integer(-1) != usize::MAX);
    assert!(usize::MAX != integer(-1));
    assert!(integer(i64::MAX) == i64::MAX as usize);
}

#[test]
fn floats_do_not_equal_integers() {
    assert!(float(5.0) != 5i64);
    assert!(float(5.0) != integer(5));
    assert!(float(5.0) == float(5.0));
}

#[test]
fn numbers_never_equal_text() {
    assert!(integer(5) != "5");
    assert!("5" != integer(5));
    assert!(integer(5) != "5".to_string());
    assert!(integer(5) != text("5"));
}

#[test]
fn text_compares_owned_and_borrowed() {
    let v = text("lorem");
    assert!(v == *"lorem");
    assert!(v == "lorem");
    assert!(v == "lorem".to_string());
    assert!(*"lorem" == v);
    assert!("lorem" == v);
    assert!("lorem".to_string() == v);
    assert!(v != "ipsum");
    assert!("ipsum" != v);
    assert!(v != "ipsum".to_string());
    assert!(Yaml::Null != "");
    assert!(text("") == "");
}

#[test]
fn booleans_compare_with_bool() {
    assert!(Yaml::Bool(true) == true);
    assert!(false == Yaml::Bool(false));
    assert!(Yaml::Bool(true) != false);
    assert!(integer(1) != true);
    assert!(Yaml::Null != false);
}

#[test]
fn nan_follows_float_equality() {
    let nan = f64::NAN.to_bits();
    assert!(!float_bits_eq(nan, nan));
    assert!(!float_bits_eq(nan, 1.0f64.to_bits()));
    assert!(!float_bits_eq(1.0f64.to_bits(), nan));
    assert!(!float_bits_eq(f64::INFINITY.to_bits(), nan));
    assert!(float_bits_eq(0.0f64.to_bits(), (-0.0f64).to_bits()));
    assert!(float_bits_eq(f64::INFINITY.to_bits(), f64::INFINITY.to_bits()));
    assert!(!float_bits_eq(1.0f64.to_bits(), 2.0f64.to_bits()));
    assert_eq!(float_bits_eq(2.5f64.to_bits(), 2.5f64.to_bits()), 2.5f64 == 2.5f64);
}

#[test]
fn stored_nan_numbers_are_equal_as_values() {
    assert!(float(f64::NAN) == float(f64::NAN));
    assert!(float(f64::NAN) != float(1.0));
    assert!(float(0.0) == float(-0.0));
    assert!(Number::Float(f64::NAN.to_bits()) == Number::Float(f64::NAN.to_bits()));
    assert!(Number::Int(3) != Number::Float(3.0f64.to_bits()));
}

#[test]
fn equal_keys_collapse_to_one_entry() {
    let mut m = Mapping::new();
    m.insert(text("k"), integer(1));
    m.insert(text("k"), integer(2));
    assert_eq!(m.len(), 1);
    let expected = map(vec![(text("k"), integer(2))]);
    assert!(Yaml::Mapping(m) == expected);

    let mut n = Mapping::new();
    n.insert(seq(vec![integer(1)]), Yaml::Null);
    n.insert(seq(vec![integer(1)]), Yaml::Bool(true));
    n.insert(seq(vec![integer(2)]), Yaml::Null);
    assert_eq!(n.len(), 2);
}

#[test]
fn nested_document_equality() {
    let a = map(vec![(text("x"), seq(vec![integer(1), integer(2), Yaml::Null]))]);
    let b = map(vec![(text("x"), seq(vec![integer(1), integer(2), Yaml::Null]))]);
    assert!(a == b);
    let c = map(vec![(text("x"), seq(vec![integer(1), integer(2), Yaml::Bool(false)]))]);
    assert!(a != c);
    assert!(c != a);
}

#[test]
fn accessors_report_the_variant() {
    assert_eq!(text("a").as_str(), Some("a"));
    assert_eq!(integer(1).as_str(), None);
    assert_eq!(integer(-4).as_i64(), Some(-4));
    assert_eq!(float(1.0).as_i64(), None);
    assert_eq!(float(1.0).as_float_bits(), Some(1.0f64.to_bits()));
    assert_eq!(integer(1).as_float_bits(), None);
    assert_eq!(Yaml::Bool(true).as_bool(), Some(true));
    assert_eq!(Yaml::Null.as_bool(), None);
}

#[test]
fn integer_helper_compares_exactly() {
    assert!(integer(7).eq_integer(7));
    assert!(!integer(7).eq_integer(8));
    assert!(!integer(-1).eq_integer(u64::MAX as i128));
    assert!(!text("7").eq_integer(7));
    assert!(text("7").eq_text("7"));
    assert!(!text("7").eq_text("8"));
}
