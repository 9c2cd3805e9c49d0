use neural_pathway::PathwayStore;

#[test]
fn test_sanity() {
    assert!(true);
}

#[test]
fn lib_test_sanity() {
    assert!(true);
    assert_eq!(PathwayStore::new().len(), 0);
}
