use nft_registry::identity::{Identity, MAX_IDENTITY_BYTES};
use nft_registry::metadata::{clone_metadata, MetadataDesc, MetadataVal};

#[test]
fn identities_are_short() {
    assert_eq!(MAX_IDENTITY_BYTES, 29);
    assert!(Identity::new(vec![]).is_some());
    assert!(Identity::new(vec![7; 29]).is_some());
    assert!(Identity::new(vec![7; 30]).is_none());
    assert_eq!(Identity::new(vec![1, 2]).unwrap().as_bytes(), &vec![1, 2]);
}

#[test]
fn management_is_the_empty_identity() {
    let nobody = Identity::management();
    assert!(nobody.is_management());
    assert!(nobody.as_bytes().is_empty());
    assert!(!Identity::new(vec![0]).unwrap().is_management());
    assert_eq!(Identity::new(vec![]).unwrap(), nobody);
}

#[test]
fn same_compares_the_bytes() {
    let a = Identity::new(vec![1, 2, 3]).unwrap();
    assert!(a.same(&Identity::new(vec![1, 2, 3]).unwrap()));
    assert!(!a.same(&Identity::new(vec![1, 2, 4]).unwrap()));
    assert!(!a.same(&Identity::new(vec![1, 2]).unwrap()));
    assert!(!a.same(&Identity::new(vec![1, 2, 3, 0]).unwrap()));
    assert!(a.same(&a.clone()));
    assert_eq!(a.clone(), a);
}

fn nested() -> MetadataDesc {
    vec![
        ("name".to_string(), MetadataVal::TextContent("first".to_string())),
        ("picture".to_string(), MetadataVal::BlobContent(vec![0, 255, 7])),
        (
            "issuer".to_string(),
            MetadataVal::PrincipalContent(Identity::new(vec![4]).unwrap()),
        ),
        (
            "traits".to_string(),
            MetadataVal::NestedContent(vec![
                ("colour".to_string(), MetadataVal::TextContent("red".to_string())),
                ("inner".to_string(), MetadataVal::NestedContent(vec![])),
            ]),
        ),
        ("name".to_string(), MetadataVal::TextContent("second".to_string())),
    ]
}

#[test]
fn metadata_copies_are_equal_and_keep_order() {
    let entries = nested();
    let copy = clone_metadata(&entries);
    assert_eq!(copy, entries);
    assert_eq!(copy[0].1, MetadataVal::TextContent("first".to_string()));
    assert_eq!(copy[4].1, MetadataVal::TextContent("second".to_string()));
    assert_eq!(entries[3].1.clone(), entries[3].1);
    assert_ne!(entries[0].1.clone(), entries[4].1);
}
