use reformat::bridge::{from_document, to_document};
use reformat::form::{form_value, is_hex_digit, is_well_escaped};
use reformat::format::Format;
use reformat::value::{GenericValue, Mapping};

fn num(n: i64) -> GenericValue {
    GenericValue::Number(serde_json::Number::from(n))
}

fn string(s: &str) -> GenericValue {
    GenericValue::String(s.to_string())
}

#[test]
fn new_mapping_is_empty() {
    let m = Mapping::new();
    assert_eq!(m.len(), 0);
    assert_eq!(m.entry(0), None);
    assert_eq!(m.find("a"), None);
    assert_eq!(m.get("a"), None);
}

#[test]
fn insert_appends_new_keys_in_order() {
    let mut m = Mapping::new();
    m.insert("b".to_string(), num(1));
    m.insert("a".to_string(), num(2));
    assert_eq!(m.len(), 2);
    assert_eq!(m.entry(0), Some((&"b".to_string(), &num(1))));
    assert_eq!(m.entry(1), Some((&"a".to_string(), &num(2))));
    assert_eq!(m.entry(2), None);
    assert_eq!(m.find("a"), Some(1));
    assert_eq!(m.get("b"), Some(&num(1)));
}

#[test]
fn insert_replaces_the_value_of_a_bound_key_in_place() {
    let mut m = Mapping::new();
    m.insert("a".to_string(), num(1));
    m.insert("b".to_string(), num(2));
    m.insert("a".to_string(), num(3));
    assert_eq!(m.len(), 2);
    assert_eq!(m.entry(0), Some((&"a".to_string(), &num(3))));
    assert_eq!(m.entry(1), Some((&"b".to_string(), &num(2))));
    assert_eq!(m.get("a"), Some(&num(3)));
    assert_eq!(m.get("c"), None);
}

#[test]
fn shapes_are_classified() {
    let mut flat = Mapping::new();
    flat.insert("a".to_string(), string("1"));
    flat.insert("b".to_string(), GenericValue::Null);
    let flat = GenericValue::Mapping(flat);
    let mut nested = Mapping::new();
    nested.insert("a".to_string(), GenericValue::Sequence(vec![]));
    let nested = GenericValue::Mapping(nested);
    let list = GenericValue::Sequence(vec![num(1)]);

    assert!(flat.is_mapping() && flat.is_container() && flat.is_flat_mapping());
    assert!(nested.is_mapping() && nested.is_container() && !nested.is_flat_mapping());
    assert!(!list.is_mapping() && list.is_container() && !list.is_flat_mapping());
    assert!(!num(1).is_mapping() && !num(1).is_container() && !num(1).is_flat_mapping());
    assert!(!GenericValue::Null.is_container());
    assert!(!GenericValue::Bool(true).is_container());
    assert!(!string("x").is_container());
    assert!(GenericValue::Mapping(Mapping::new()).is_flat_mapping());
}

#[test]
fn formats_accept_the_shapes_they_can_hold() {
    let mut flat = Mapping::new();
    flat.insert("a".to_string(), string("1"));
    let flat = GenericValue::Mapping(flat);
    let mut nested = Mapping::new();
    nested.insert("a".to_string(), GenericValue::Mapping(Mapping::new()));
    let nested = GenericValue::Mapping(nested);
    let list = GenericValue::Sequence(vec![]);
    for format in [Format::Json, Format::Yaml, Format::Ron, Format::Xml] {
        assert!(format.accepts(&flat) && format.accepts(&nested) && format.accepts(&list));
        assert!(format.accepts(&GenericValue::Null));
    }
    assert!(Format::Toml.accepts(&flat) && Format::Toml.accepts(&nested));
    assert!(!Format::Toml.accepts(&list) && !Format::Toml.accepts(&string("x")));
    assert!(Format::Url.accepts(&flat));
    assert!(!Format::Url.accepts(&nested) && !Format::Url.accepts(&list));
    assert!(!Format::Url.accepts(&GenericValue::Null));
}

#[test]
fn hex_digits_are_recognised() {
    for c in "0123456789abcdefABCDEF".chars() {
        assert!(is_hex_digit(c), "{c}");
    }
    for c in "gG/:@`%zZ +".chars() {
        assert!(!is_hex_digit(c), "{c}");
    }
}

#[test]
fn percent_signs_need_two_hex_digits() {
    for ok in ["", "a=1", "%41", "a=%2F&b=%e9%AA", "x%00", "%25%25"] {
        assert!(is_well_escaped(ok), "{ok}");
    }
    for bad in ["%", "%4", "%4g", "%g4", "a=%", "a=%%", "%%41", "%41%", "%4%41", "é%é1"] {
        assert!(!is_well_escaped(bad), "{bad}");
    }
}

#[test]
fn form_pairs_become_string_entries() {
    let pairs = vec![
        ("a".to_string(), "1".to_string()),
        ("b".to_string(), "true".to_string()),
        ("a".to_string(), "2".to_string()),
    ];
    let mut expected = Mapping::new();
    expected.insert("a".to_string(), string("2"));
    expected.insert("b".to_string(), string("true"));
    assert_eq!(form_value(pairs), GenericValue::Mapping(expected));
    assert_eq!(form_value(vec![]), GenericValue::Mapping(Mapping::new()));
}

#[test]
fn documents_become_values() {
    let doc: serde_json::Value =
        serde_json::from_str("{\"z\":[1,\"s\",null,{\"k\":false}],\"a\":-2}").unwrap();
    let mut inner = Mapping::new();
    inner.insert("k".to_string(), GenericValue::Bool(false));
    let mut expected = Mapping::new();
    expected.insert(
        "z".to_string(),
        GenericValue::Sequence(vec![
            num(1),
            string("s"),
            GenericValue::Null,
            GenericValue::Mapping(inner),
        ]),
    );
    expected.insert("a".to_string(), num(-2));
    assert_eq!(from_document(doc), GenericValue::Mapping(expected));
}

#[test]
fn values_become_documents() {
    let mut inner = Mapping::new();
    inner.insert("k".to_string(), GenericValue::Bool(false));
    let mut m = Mapping::new();
    m.insert(
        "z".to_string(),
        GenericValue::Sequence(vec![num(1), string("s"), GenericValue::Null, GenericValue::Mapping(inner)]),
    );
    m.insert("a".to_string(), num(-2));
    let doc = to_document(&GenericValue::Mapping(m));
    let expected: serde_json::Value =
        serde_json::from_str("{\"z\":[1,\"s\",null,{\"k\":false}],\"a\":-2}").unwrap();
    assert_eq!(doc, expected);
    assert_eq!(serde_json::to_string(&doc).unwrap(), "{\"z\":[1,\"s\",null,{\"k\":false}],\"a\":-2}");
    assert_eq!(to_document(&GenericValue::Null), serde_json::Value::Null);
}

#[test]
fn documents_and_values_round_trip() {
    let text = "{\"b\":{\"y\":[[],{}],\"x\":1.5},\"a\":\"t\"}";
    let doc: serde_json::Value = serde_json::from_str(text).unwrap();
    let back = to_document(&from_document(doc.clone()));
    assert_eq!(back, doc);
    assert_eq!(serde_json::to_string(&back).unwrap(), text);
}
