use entry_transactions::name::{sort_names, EntryName, FsPath};

fn name(s: &str) -> EntryName {
    EntryName::try_new(s.as_bytes().to_vec()).expect("valid name")
}

#[test]
fn names_accept_ordinary_segments() {
    assert!(EntryName::try_new(b"report.txt".to_vec()).is_some());
    assert!(EntryName::try_new(b"a".to_vec()).is_some());
    assert!(EntryName::try_new(b"...".to_vec()).is_some());
    assert!(EntryName::try_new(vec![b'x'; 255]).is_some());
}

#[test]
fn names_reject_empty_and_oversized() {
    assert!(EntryName::try_new(Vec::new()).is_none());
    assert!(EntryName::try_new(vec![b'x'; 256]).is_none());
}

#[test]
fn names_reject_slash_and_nul() {
    assert!(EntryName::try_new(b"a/b".to_vec()).is_none());
    assert!(EntryName::try_new(vec![b'a', 0, b'b']).is_none());
}

#[test]
fn names_reject_reserved_dot_names() {
    assert!(EntryName::try_new(b".".to_vec()).is_none());
    assert!(EntryName::try_new(b"..".to_vec()).is_none());
}

#[test]
fn name_equality_is_byte_wise() {
    assert!(name("abc").is_same(&name("abc")));
    assert!(!name("abc").is_same(&name("abd")));
    assert!(!name("abc").is_same(&name("ab")));
}

#[test]
fn sort_names_orders_byte_wise() {
    let input = vec![name("pear"), name("Apple"), name("apple"), name("app")];
    let sorted = sort_names(&input);
    let got: Vec<Vec<u8>> = sorted.iter().map(|n| n.as_bytes().to_vec()).collect();
    // capital letters sort before lower-case ones, prefixes before extensions
    assert_eq!(
        got,
        vec![b"Apple".to_vec(), b"app".to_vec(), b"apple".to_vec(), b"pear".to_vec()]
    );
}

#[test]
fn root_path_is_empty() {
    let root = FsPath::root();
    assert!(root.is_root());
    assert_eq!(root.parts.len(), 0);
    let path = FsPath::from_parts(vec![name("a")]);
    assert!(!path.is_root());
}
