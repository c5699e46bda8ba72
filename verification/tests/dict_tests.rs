use libplist::{Node, OwnedNode, Step};

fn collect<'a>(dict: &'a libplist::DictNode) -> Vec<(Vec<u8>, &'a Node)> {
    let mut walk = dict.iter();
    let mut entries = Vec::new();
    loop {
        match walk.next() {
            Some(entry) => entries.push(entry),
            None => return entries,
        }
    }
}

#[test]
fn test_simple_dict() {
    let mut node = OwnedNode::new_dict();
    assert!(node.array().is_err());
    assert!(node.array_mut().is_err());

    let dict = node.dict_mut().unwrap();
    dict.insert(b"one", OwnedNode::new_uint(1));
    dict.insert(b"yes", OwnedNode::new_bool(false));
    dict.insert(b"yes", OwnedNode::new_bool(true));
    dict.insert(b"no", OwnedNode::new_bool(false));
    dict.remove(b"no");

    assert_eq!(dict.len(), 2);
    assert!(!dict.is_empty());

    assert_eq!(&dict[&b"one"[..]], &*OwnedNode::new_uint(1));
    assert_eq!(&dict[&b"yes"[..]], &*OwnedNode::new_bool(true));

    assert_eq!(dict.get(b"one"), Some(&*OwnedNode::new_uint(1)));
    assert_eq!(dict.get(b"no"), None);
}

#[test]
fn node_test_parent_and_index() {
    let mut node = OwnedNode::new_dict();
    {
        let dict = node.dict_mut().unwrap();
        dict.insert(b"first", OwnedNode::new_bool(false));
        dict.insert(b"second", OwnedNode::new_bool(true));
    }

    let a = OwnedNode::new_bool(true);
    let path = [Step::Key(b"second".to_vec())];
    let b = node.descendant(&path).unwrap();

    assert_eq!(&*a, b);
    assert_eq!(a.parent(&[]), None);
    assert_eq!(node.parent(&path), Some(&*node));
    assert_eq!(a.get_index_in_array(&[]), None);
    assert_eq!(node.get_index_in_array(&path), None);
    assert_eq!(a.get_key_in_dict(&[]), None);
    assert_eq!(node.get_key_in_dict(&path), Some(b"second".to_vec()));
}

#[test]
fn node_test_iter() {
    let mut node = OwnedNode::new_dict();
    let dict = node.dict_mut().unwrap();
    dict.insert(b"a", OwnedNode::new_real(7.0f64.to_bits()));
    dict.insert(b"b", OwnedNode::new_real(7.0f64.to_bits()));

    let actual = collect(dict).into_iter().collect::<std::collections::HashMap<_, _>>();

    assert_eq!(actual[&b"a"[..]], &*OwnedNode::new_real(7.0f64.to_bits()));
    assert_eq!(actual[&b"b"[..]], &*OwnedNode::new_real(7.0f64.to_bits()));
    assert_eq!(actual.len(), 2);
}

#[test]
fn node_test_from_iter() {
    let node = OwnedNode::from_entries(vec![
        (b"foo".to_vec(), OwnedNode::new_bool(false)),
        (b"bar".to_vec(), OwnedNode::new_bool(true)),
    ]);
    let dict = node.dict().unwrap();

    assert_eq!(dict.len(), 2);

    assert_eq!(&dict[&b"foo"[..]], &*OwnedNode::new_bool(false));
    assert_eq!(&dict[&b"bar"[..]], &*OwnedNode::new_bool(true));
}

#[test]
fn test_entries_are_walked_in_the_order_of_first_insertion() {
    let mut node = OwnedNode::new_dict();
    let dict = node.dict_mut().unwrap();
    dict.insert(b"z", OwnedNode::new_uint(1));
    dict.insert(b"a", OwnedNode::new_uint(2));
    dict.insert(b"m", OwnedNode::new_uint(3));
    dict.insert(b"z", OwnedNode::new_uint(4));
    dict.remove(b"a");
    dict.insert(b"a", OwnedNode::new_uint(5));

    let keys: Vec<Vec<u8>> = collect(dict).into_iter().map(|e| e.0).collect();
    assert_eq!(keys, vec![b"z".to_vec(), b"m".to_vec(), b"a".to_vec()]);
    assert_eq!(dict.get(b"z").unwrap().get_uint_val(), Some(4));
    assert_eq!(dict.get(b"a").unwrap().get_uint_val(), Some(5));
}

#[test]
fn test_dictionaries_are_compared_whatever_the_order() {
    let a = OwnedNode::from_entries(vec![
        (b"x".to_vec(), OwnedNode::new_uint(1)),
        (b"y".to_vec(), OwnedNode::new_uint(2)),
    ]);
    let b = OwnedNode::from_entries(vec![
        (b"y".to_vec(), OwnedNode::new_uint(2)),
        (b"x".to_vec(), OwnedNode::new_uint(1)),
    ]);
    let c = OwnedNode::from_entries(vec![
        (b"x".to_vec(), OwnedNode::new_uint(1)),
        (b"y".to_vec(), OwnedNode::new_uint(3)),
    ]);
    let d = OwnedNode::from_entries(vec![
        (b"x".to_vec(), OwnedNode::new_uint(1)),
        (b"z".to_vec(), OwnedNode::new_uint(2)),
    ]);
    let e = OwnedNode::from_entries(vec![(b"x".to_vec(), OwnedNode::new_uint(1))]);
    assert_eq!(a, b);
    assert_eq!(b, a);
    assert!(a != c);
    assert!(a != d);
    assert!(a != e);
    assert!(e != a);
}

#[test]
fn test_equality_is_deep() {
    let inner1 = OwnedNode::from_entries(vec![
        (b"p".to_vec(), OwnedNode::new_str(b"q")),
        (b"r".to_vec(), OwnedNode::from_iter(vec![OwnedNode::new_uint(1)])),
    ]);
    let inner2 = OwnedNode::from_entries(vec![
        (b"r".to_vec(), OwnedNode::from_iter(vec![OwnedNode::new_uint(1)])),
        (b"p".to_vec(), OwnedNode::new_str(b"q")),
    ]);
    let inner3 = OwnedNode::from_entries(vec![
        (b"r".to_vec(), OwnedNode::from_iter(vec![OwnedNode::new_uint(2)])),
        (b"p".to_vec(), OwnedNode::new_str(b"q")),
    ]);
    let a = OwnedNode::from_iter(vec![inner1]);
    let b = OwnedNode::from_iter(vec![inner2]);
    let c = OwnedNode::from_iter(vec![inner3]);
    assert_eq!(a, b);
    assert!(a != c);
}

#[test]
fn test_get_mut_changes_the_dictionary() {
    let mut node = OwnedNode::from_entries(vec![
        (b"list".to_vec(), OwnedNode::new_array()),
        (b"n".to_vec(), OwnedNode::new_uint(1)),
    ]);
    {
        let dict = node.dict_mut().unwrap();
        assert!(dict.get_mut(b"nothing").is_none());
        let list = dict.get_mut(b"list").unwrap().array_mut().unwrap();
        list.push(OwnedNode::new_bool(true));
    }
    let expected = OwnedNode::from_entries(vec![
        (b"list".to_vec(), OwnedNode::from_iter(vec![OwnedNode::new_bool(true)])),
        (b"n".to_vec(), OwnedNode::new_uint(1)),
    ]);
    assert_eq!(node, expected);
}

#[test]
fn test_extend_replaces_and_appends() {
    let mut node = OwnedNode::from_entries(vec![(b"a".to_vec(), OwnedNode::new_uint(1))]);
    node.dict_mut().unwrap().extend(vec![
        (b"b".to_vec(), OwnedNode::new_uint(2)),
        (b"a".to_vec(), OwnedNode::new_uint(3)),
    ]);
    let dict = node.dict().unwrap();
    assert_eq!(dict.len(), 2);
    let entries = collect(dict);
    assert_eq!(entries[0].0, b"a".to_vec());
    assert_eq!(entries[0].1.get_uint_val(), Some(3));
    assert_eq!(entries[1].0, b"b".to_vec());
    assert_eq!(entries[1].1.get_uint_val(), Some(2));
}

#[test]
fn test_empty_dictionary() {
    let node = OwnedNode::new_dict();
    let dict = node.dict().unwrap();
    assert!(dict.is_empty());
    assert_eq!(dict.len(), 0);
    assert_eq!(dict.get(b""), None);
    assert!(dict.iter().next().is_none());
    assert_eq!(node, OwnedNode::from_entries(vec![]));
    assert!(node != OwnedNode::new_array());
}

#[test]
fn test_iter_mut() {
    let mut node = OwnedNode::from_entries(vec![
        (b"a".to_vec(), OwnedNode::new_array()),
        (b"b".to_vec(), OwnedNode::new_array()),
    ]);
    {
        let dict = node.dict_mut().unwrap();
        let mut walk = dict.iter_mut();
        let mut seen = Vec::new();
        while let Some((key, value)) = walk.next() {
            value.array_mut().unwrap().push(OwnedNode::new_str(&key));
            seen.push(key);
        }
        assert_eq!(seen, vec![b"a".to_vec(), b"b".to_vec()]);
        assert!(walk.next().is_none());
        assert_eq!(walk.index, 2);
    }
    let expected = OwnedNode::from_entries(vec![
        (b"a".to_vec(), OwnedNode::from_iter(vec![OwnedNode::new_str(b"a")])),
        (b"b".to_vec(), OwnedNode::from_iter(vec![OwnedNode::new_str(b"b")])),
    ]);
    assert_eq!(node, expected);
}
