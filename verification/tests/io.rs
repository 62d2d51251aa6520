use chain_ext::io::{DeExt, StrMap};

#[test]
fn test_de_json() {
    let json_string = r###"{"name": "fake", "type": "real"}"###;
    let m = json_string.as_bytes().de_json().unwrap();

    let mut expected = StrMap::new();
    expected.insert("name".to_owned(), "fake".to_owned());
    expected.insert("type".to_owned(), "real".to_owned());
    assert!(m.equals(&expected));
}

#[test]
fn test_de_yaml() {
    let yaml_string = r###"name: fake
type: real"###;
    let m = yaml_string.as_bytes().de_yaml().unwrap();

    let mut expected = StrMap::new();
    expected.insert("name".to_owned(), "fake".to_owned());
    expected.insert("type".to_owned(), "real".to_owned());
    assert!(m.equals(&expected));
}

#[test]
fn test_de_json_from_vec() {
    let bytes = r###"{"key": "value"}"###.as_bytes().to_vec();
    let m = bytes.de_json().unwrap();
    assert_eq!(m.len(), 1);
    assert_eq!(m.get(&"key".to_owned()), Some("value".to_owned()));
}

#[test]
fn test_de_json_malformed() {
    let json_string = r###"{"name": "fake""###;
    assert!(json_string.as_bytes().de_json().is_err());
}

#[test]
fn test_de_json_wrong_shape() {
    let json_string = "[1, 2, 3]";
    assert!(json_string.as_bytes().de_json().is_err());
}

#[test]
fn test_de_yaml_wrong_shape() {
    let yaml_string = "- 1\n- 2";
    assert!(yaml_string.as_bytes().de_yaml().is_err());
}

#[test]
fn test_str_map_insert_get() {
    let mut m = StrMap::new();
    assert_eq!(m.len(), 0);
    assert_eq!(m.get(&"name".to_owned()), None);

    m.insert("name".to_owned(), "fake".to_owned());
    assert_eq!(m.len(), 1);
    assert_eq!(m.get(&"name".to_owned()), Some("fake".to_owned()));

    m.insert("name".to_owned(), "real".to_owned());
    assert_eq!(m.len(), 1);
    assert_eq!(m.get(&"name".to_owned()), Some("real".to_owned()));
}

#[test]
fn test_str_map_equals() {
    let mut a = StrMap::new();
    a.insert("name".to_owned(), "fake".to_owned());
    a.insert("type".to_owned(), "real".to_owned());

    let mut b = StrMap::new();
    b.insert("type".to_owned(), "real".to_owned());
    b.insert("name".to_owned(), "fake".to_owned());
    assert!(a.equals(&b));
    assert!(b.equals(&a));

    b.insert("name".to_owned(), "other".to_owned());
    assert!(!a.equals(&b));

    let mut c = StrMap::new();
    c.insert("name".to_owned(), "fake".to_owned());
    assert!(!a.equals(&c));
    assert!(!c.equals(&a));
}

#[test]
fn test_de_json_round_trip() {
    let mut original = std::collections::HashMap::new();
    original.insert("name".to_owned(), "fake".to_owned());
    original.insert("type".to_owned(), "real".to_owned());
    let text = serde_json::to_string(&original).unwrap();

    let m = text.as_bytes().de_json().unwrap();

    let mut expected = StrMap::new();
    expected.insert("name".to_owned(), "fake".to_owned());
    expected.insert("type".to_owned(), "real".to_owned());
    assert!(m.equals(&expected));
}

#[test]
fn test_de_yaml_round_trip() {
    let mut original = std::collections::HashMap::new();
    original.insert("name".to_owned(), "fake".to_owned());
    original.insert("type".to_owned(), "real".to_owned());
    let text = serde_yaml::to_string(&original).unwrap();

    let m = text.as_bytes().de_yaml().unwrap();

    let mut expected = StrMap::new();
    expected.insert("name".to_owned(), "fake".to_owned());
    expected.insert("type".to_owned(), "real".to_owned());
    assert!(m.equals(&expected));
}
