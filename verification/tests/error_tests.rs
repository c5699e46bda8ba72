use libplist::plist_sys::{plist_type, PLIST_NONE};
use libplist::{FromPlistNode, OwnedNode, PlistError};

#[test]
fn test_description() {
    assert_eq!(PlistError::UnsupportedType(plist_type::Real).description(), "unsupported plist type");
    let e = String::from_plist_node(&OwnedNode::new_str(b"\xc0")).unwrap_err();
    assert_eq!(e.description(), "string is not properly UTF-8-encoded");
}

#[test]
fn test_to_string() {
    assert_eq!(PlistError::UnsupportedType(plist_type::Dict).to_string(), "unsupported plist type Dict\n");
    assert_eq!(PlistError::UnsupportedType(plist_type::UInt).to_string(), "unsupported plist type UInt\n");
    assert_eq!(PlistError::UnsupportedType(PLIST_NONE).to_string(), "unsupported plist type None\n");
    let bytes = b"ab\xffcd";
    let e = String::from_plist_node(&OwnedNode::new_str(bytes)).unwrap_err();
    let expected = std::str::from_utf8(bytes).unwrap_err().to_string();
    assert_eq!(e.to_string(), expected);
}

#[test]
fn test_cause() {
    assert!(PlistError::UnsupportedType(plist_type::Dict).cause().is_none());
    let bytes = b"ab\xffcd";
    let e = String::from_plist_node(&OwnedNode::new_str(bytes)).unwrap_err();
    assert_eq!(e.cause(), Some(&std::str::from_utf8(bytes).unwrap_err()));
}

#[test]
fn test_from_decode_failure() {
    let failure = std::str::from_utf8(b"\xff").unwrap_err();
    match PlistError::from(failure) {
        PlistError::Utf8(e) => assert_eq!(e, failure),
        other => panic!("unexpected error {:?}", other),
    }
}

#[test]
fn test_type_names() {
    let names: Vec<&str> = (0..11).map(|c| plist_type::from_code(c).unwrap().name()).collect();
    assert_eq!(names, vec![
        "Boolean", "UInt", "Real", "String", "Array", "Dict", "Date", "Data", "Key", "Uid", "None",
    ]);
    assert_eq!(plist_type::from_code(11), None);
    assert_eq!(plist_type::Uid.code(), 9);
    assert_eq!(plist_type::Boolean.code(), 0);
}
