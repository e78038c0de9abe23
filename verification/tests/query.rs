use serde_valid::Query;

#[test]
fn query_wraps_and_hands_out_its_data() {
    let query = Query::from(String::from("page=1"));
    assert_eq!(query.len(), 6);
    assert_eq!(*query, "page=1");
    assert_eq!(query.0, "page=1");
    assert_eq!(query.into_inner(), "page=1");
    let query: Query<u8> = 7.into();
    assert_eq!(*query, 7);
}
