use libplist::plist_sys::plist_type;
use libplist::strings::RawString;
use libplist::{FromPlistNode, OwnedNode, PlistError, ToPlistNode};

#[test]
fn test_bool_roundtrip() {
    let given = true;
    let n = given.to_plist_node();
    let b: bool = FromPlistNode::from_plist_node(&n).unwrap();
    let m = b.to_plist_node();
    assert_eq!(b, given);
    assert_eq!(n, m);
    assert_eq!(n, OwnedNode::new_bool(true));
}

#[test]
fn test_u16_roundtrip() {
    let given = 31u16;
    let n = given.to_plist_node();
    let b: u16 = FromPlistNode::from_plist_node(&n).unwrap();
    let m = b.to_plist_node();
    assert_eq!(b, given);
    assert_eq!(n, m);
    assert_eq!(n, OwnedNode::new_uint(31));
}

#[test]
fn test_i16_roundtrip() {
    let given = -22i16;
    let n = given.to_plist_node();
    let b: i16 = FromPlistNode::from_plist_node(&n).unwrap();
    let m = b.to_plist_node();
    assert_eq!(b, given);
    assert_eq!(n, m);
    assert_eq!(n, OwnedNode::new_uint(18446744073709551594));
}

#[test]
fn test_u32_roundtrip() {
    let given = 1238031u32;
    let n = given.to_plist_node();
    let b: u32 = FromPlistNode::from_plist_node(&n).unwrap();
    let m = b.to_plist_node();
    assert_eq!(b, given);
    assert_eq!(n, m);
}

#[test]
fn test_i64_roundtrip() {
    let given = -0x1234_5678_abcd_efaa_i64;
    let n = given.to_plist_node();
    let b: i64 = FromPlistNode::from_plist_node(&n).unwrap();
    let m = b.to_plist_node();
    assert_eq!(b, given);
    assert_eq!(n, m);
    assert_eq!(n, OwnedNode::new_uint(0xEDCB_A987_5432_1056));
}

#[test]
fn test_integer_limits_roundtrip() {
    assert_eq!(u64::from_plist_node(&u64::MAX.to_plist_node()).unwrap(), u64::MAX);
    assert_eq!(i64::from_plist_node(&i64::MIN.to_plist_node()).unwrap(), i64::MIN);
    assert_eq!(i32::from_plist_node(&i32::MIN.to_plist_node()).unwrap(), i32::MIN);
    assert_eq!(i32::from_plist_node(&(-1i32).to_plist_node()).unwrap(), -1);
    assert_eq!(u32::from_plist_node(&u32::MAX.to_plist_node()).unwrap(), u32::MAX);
    assert_eq!(i16::from_plist_node(&i16::MAX.to_plist_node()).unwrap(), i16::MAX);
    assert_eq!(usize::from_plist_node(&usize::MAX.to_plist_node()).unwrap(), usize::MAX);
    assert_eq!(isize::from_plist_node(&isize::MIN.to_plist_node()).unwrap(), isize::MIN);
    assert_eq!((-1i64).to_plist_node(), OwnedNode::new_uint(u64::MAX));
    assert_eq!((-1i16).to_plist_node(), OwnedNode::new_uint(u64::MAX));
}

#[test]
fn test_integers_too_large_are_cut_to_the_width() {
    let n = OwnedNode::new_uint(0x1_0000_0001);
    assert_eq!(u16::from_plist_node(&n).unwrap(), 1);
    assert_eq!(u32::from_plist_node(&n).unwrap(), 1);
    assert_eq!(u64::from_plist_node(&n).unwrap(), 0x1_0000_0001);
    let n = OwnedNode::new_uint(0xFFFF);
    assert_eq!(i16::from_plist_node(&n).unwrap(), -1);
    assert_eq!(u16::from_plist_node(&n).unwrap(), 0xFFFF);
    assert_eq!(i32::from_plist_node(&n).unwrap(), 0xFFFF);
}

#[test]
fn test_str_roundtrip() {
    let given = "helloworld";
    let n = given.to_plist_node();
    let b: String = FromPlistNode::from_plist_node(&n).unwrap();
    let m = b.to_plist_node();
    assert_eq!(b, given);
    assert_eq!(n, m);
    assert_eq!(n, OwnedNode::new_str(b"helloworld"));
}

#[test]
fn test_string_beyond_ascii_roundtrip() {
    let given = "abc\u{dddef}gh\u{e9}".to_owned();
    let n = given.to_plist_node();
    assert_eq!(n.get_string_val(), Some(given.as_bytes()));
    assert_eq!(String::from_plist_node(&n).unwrap(), given);
    assert_eq!(String::from_plist_node(&"".to_plist_node()).unwrap(), "");
}

#[test]
fn test_string_that_is_not_utf8() {
    let n = OwnedNode::new_str(b"ab\xffcd");
    match String::from_plist_node(&n) {
        Err(PlistError::Utf8(e)) => assert_eq!(e.valid_up_to(), 2),
        other => panic!("unexpected result {:?}", other),
    }
    let raw = RawString::from_plist_node(&n).unwrap();
    assert_eq!(raw.bytes, b"ab\xffcd".to_vec());
    assert_eq!(raw.to_plist_node(), n);
}

#[test]
fn test_type_mismatch() {
    let dict = OwnedNode::new_dict();
    match u16::from_plist_node(&dict) {
        Err(PlistError::UnsupportedType(t)) => assert_eq!(t, plist_type::Dict),
        other => panic!("unexpected result {:?}", other),
    }
    match i64::from_plist_node(&dict) {
        Err(PlistError::UnsupportedType(t)) => assert_eq!(t, plist_type::Dict),
        other => panic!("unexpected result {:?}", other),
    }
    match bool::from_plist_node(&OwnedNode::new_uint(1)) {
        Err(PlistError::UnsupportedType(t)) => assert_eq!(t, plist_type::UInt),
        other => panic!("unexpected result {:?}", other),
    }
    match String::from_plist_node(&OwnedNode::new_data(b"abc")) {
        Err(PlistError::UnsupportedType(t)) => assert_eq!(t, plist_type::Data),
        other => panic!("unexpected result {:?}", other),
    }
    match RawString::from_plist_node(&OwnedNode::new_bool(false)) {
        Err(PlistError::UnsupportedType(t)) => assert_eq!(t, plist_type::Boolean),
        other => panic!("unexpected result {:?}", other),
    }
    match Vec::<u8>::from_plist_node(&OwnedNode::new_str(b"abc")) {
        Err(PlistError::UnsupportedType(t)) => assert_eq!(t, plist_type::String),
        other => panic!("unexpected result {:?}", other),
    }
    match Vec::<u16>::from_plist_node(&OwnedNode::new_real(0)) {
        Err(PlistError::UnsupportedType(t)) => assert_eq!(t, plist_type::Real),
        other => panic!("unexpected result {:?}", other),
    }
    match Vec::<(String, u16)>::from_plist_node(&OwnedNode::new_array()) {
        Err(PlistError::UnsupportedType(t)) => assert_eq!(t, plist_type::Array),
        other => panic!("unexpected result {:?}", other),
    }
}

#[test]
fn test_array_of_bool_roundtrip() {
    let given: &[bool] = &[true, false];
    let n = given.to_plist_node();
    let b: Vec<bool> = FromPlistNode::from_plist_node(&n).unwrap();
    let m = b.to_plist_node();
    assert_eq!(b, given);
    assert_eq!(n, m);
    assert_eq!(n, OwnedNode::from_iter(vec![OwnedNode::new_bool(true), OwnedNode::new_bool(false)]));
}

#[test]
fn test_array_of_string_roundtrip() {
    let given: &[&'static str] = &["a", "b", "c"];
    let n = given.to_plist_node();
    let b: Vec<String> = FromPlistNode::from_plist_node(&n).unwrap();
    let m = b.to_plist_node();
    assert_eq!(b, given);
    assert_eq!(n, m);
}

#[test]
fn test_empty_array_roundtrip() {
    let given = Vec::<u64>::new();
    let n = given.to_plist_node();
    let b: Vec<u64> = FromPlistNode::from_plist_node(&n).unwrap();
    let m = b.to_plist_node();
    assert_eq!(b, given);
    assert_eq!(n, m);
    assert_eq!(n, OwnedNode::new_array());
}

#[test]
fn test_nested_array_roundtrip() {
    let given = vec![vec![1u16, 2], vec![], vec![3]];
    let n = given.to_plist_node();
    let b: Vec<Vec<u16>> = FromPlistNode::from_plist_node(&n).unwrap();
    assert_eq!(b, given);
}

#[test]
fn test_array_of_integers_to_native() {
    let node = OwnedNode::from_iter(vec![
        OwnedNode::new_uint(1),
        OwnedNode::new_uint(2),
        OwnedNode::new_uint(3),
    ]);
    let decoded = Vec::<u16>::from_plist_node(&node).unwrap();
    assert_eq!(decoded, vec![1u16, 2u16, 3u16]);
}

#[test]
fn test_array_fails_with_the_error_of_its_first_unreadable_item() {
    let node = OwnedNode::from_iter(vec![
        OwnedNode::new_str(b"fine"),
        OwnedNode::new_str(b"\xff"),
        OwnedNode::new_uint(3),
    ]);
    match Vec::<String>::from_plist_node(&node) {
        Err(PlistError::Utf8(_)) => {},
        other => panic!("unexpected result {:?}", other),
    }
    let node = OwnedNode::from_iter(vec![
        OwnedNode::new_str(b"fine"),
        OwnedNode::new_uint(3),
        OwnedNode::new_str(b"\xff"),
    ]);
    match Vec::<String>::from_plist_node(&node) {
        Err(PlistError::UnsupportedType(t)) => assert_eq!(t, plist_type::UInt),
        other => panic!("unexpected result {:?}", other),
    }
}

#[test]
fn test_data_roundtrip() {
    let given: &[u8] = b"\x01\x02\x03\x04";
    let n = given.to_plist_node();
    let b: Vec<u8> = FromPlistNode::from_plist_node(&n).unwrap();
    let m = b.to_plist_node();
    assert_eq!(b, given);
    assert_eq!(n, m);
    assert_eq!(n, OwnedNode::new_data(b"\x01\x02\x03\x04"));
    let with_zeros = b"\x01\x23\0\0\xff".to_vec();
    assert_eq!(Vec::<u8>::from_plist_node(&with_zeros.to_plist_node()).unwrap(), with_zeros);
}

#[test]
fn test_btree_map_roundtrip() {
    let given: Vec<(String, Vec<u16>)> = vec![
        ("a".to_owned(), vec![123, 456]),
        ("abc".to_owned(), vec![2235, 19, 20]),
        ("b".to_owned(), vec![]),
    ];
    let n = given.to_plist_node();
    let b: Vec<(String, Vec<u16>)> = FromPlistNode::from_plist_node(&n).unwrap();
    let m = b.to_plist_node();
    assert_eq!(b, given);
    assert_eq!(n, m);
}

#[test]
fn test_empty_map_roundtrip() {
    let given: Vec<(String, u64)> = Vec::new();
    let n = given.to_plist_node();
    let b: Vec<(String, u64)> = FromPlistNode::from_plist_node(&n).unwrap();
    let m = b.to_plist_node();
    assert_eq!(b, given);
    assert_eq!(n, m);
    assert_eq!(n, OwnedNode::new_dict());
}

#[test]
fn test_mapping_to_dictionary() {
    let options = vec![("ApplicationType", "Any")];
    let entries: Vec<(String, &str)> = options.iter().map(|e| (e.0.to_owned(), e.1)).collect();
    let node = entries.to_plist_node();
    let dict = node.dict().unwrap();
    assert_eq!(dict.len(), 1);
    assert_eq!(dict.get(b"ApplicationType"), Some(&*OwnedNode::new_str(b"Any")));
    let mut walk = dict.iter();
    let (key, value) = walk.next().unwrap();
    assert_eq!(key, b"ApplicationType".to_vec());
    assert_eq!(value.get_string_val(), Some(&b"Any"[..]));
    assert!(walk.next().is_none());
}

#[test]
fn test_mapping_is_written_in_its_own_order_and_a_later_entry_replaces() {
    let entries: Vec<(String, u16)> = vec![
        ("b".to_owned(), 1),
        ("a".to_owned(), 2),
        ("b".to_owned(), 3),
    ];
    let node = entries.to_plist_node();
    let back: Vec<(String, u16)> = FromPlistNode::from_plist_node(&node).unwrap();
    assert_eq!(back, vec![("b".to_owned(), 3), ("a".to_owned(), 2)]);
}

#[test]
fn test_mapping_fails_with_the_error_of_its_first_unreadable_entry() {
    let node = OwnedNode::from_entries(vec![
        (b"ok".to_vec(), OwnedNode::new_uint(1)),
        (b"\xff".to_vec(), OwnedNode::new_bool(true)),
        (b"late".to_vec(), OwnedNode::new_str(b"x")),
    ]);
    match Vec::<(String, u16)>::from_plist_node(&node) {
        Err(PlistError::Utf8(_)) => {},
        other => panic!("unexpected result {:?}", other),
    }
    let node = OwnedNode::from_entries(vec![
        (b"ok".to_vec(), OwnedNode::new_uint(1)),
        (b"late".to_vec(), OwnedNode::new_str(b"x")),
        (b"\xff".to_vec(), OwnedNode::new_bool(true)),
    ]);
    match Vec::<(String, u16)>::from_plist_node(&node) {
        Err(PlistError::UnsupportedType(t)) => assert_eq!(t, plist_type::String),
        other => panic!("unexpected result {:?}", other),
    }
}

#[test]
fn test_node_conversions_copy_the_tree() {
    let node = OwnedNode::from_iter(vec![OwnedNode::new_uint(1)]);
    let copy = OwnedNode::from_plist_node(&node).unwrap();
    assert_eq!(copy, node);
    let again = (*node).to_plist_node();
    assert_eq!(again, node);
}

#[test]
fn test_references_and_boxes_convert_as_what_they_hold() {
    let value = 7u32;
    assert_eq!((&value).to_plist_node(), OwnedNode::new_uint(7));
    assert_eq!(Box::new(value).to_plist_node(), OwnedNode::new_uint(7));
    let text: Box<str> = "hi".into();
    assert_eq!(text.to_plist_node(), OwnedNode::new_str(b"hi"));
}
