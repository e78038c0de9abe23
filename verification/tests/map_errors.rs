use serde_valid::validation::{ArrayErrors, Error, Errors, MapErrors, ObjectErrors, VecErrors};

fn custom(text: &str) -> Error {
    Error::Custom(text.to_owned())
}

fn texts(list: &VecErrors) -> Vec<String> {
    list.iter().map(|error| error.message().unwrap().to_owned()).collect()
}

#[test]
fn map_errors_keeps_the_order_of_first_report() {
    let mut map = MapErrors::new();
    assert!(map.is_empty());
    map.push("b", custom("b1"));
    map.push("a", custom("a1"));
    map.push("b", custom("b2"));
    assert_eq!(map.len(), 2);
    assert!(!map.is_empty());
    assert_eq!(map.position("b"), Some(0));
    assert_eq!(map.position("a"), Some(1));
    assert_eq!(map.position("c"), None);
    assert_eq!(texts(map.get("b").unwrap()), ["b1", "b2"]);
    assert_eq!(texts(map.get("a").unwrap()), ["a1"]);
    assert!(map.get("c").is_none());
}

#[test]
fn map_errors_extend_adds_a_list() {
    let mut map = MapErrors::new();
    map.extend("a", vec![]);
    assert!(map.is_empty());
    map.extend("a", vec![custom("a1"), custom("a2")]);
    map.extend("b", vec![custom("b1")]);
    map.extend("a", vec![custom("a3")]);
    map.extend("b", vec![]);
    assert_eq!(map.len(), 2);
    assert_eq!(texts(map.get("a").unwrap()), ["a1", "a2", "a3"]);
    assert_eq!(texts(map.get("b").unwrap()), ["b1"]);
}

#[test]
fn map_errors_remove_puts_the_last_entry_in_the_place() {
    let mut map = MapErrors::new();
    map.push("a", custom("a1"));
    map.push("b", custom("b1"));
    map.push("c", custom("c1"));
    map.push("d", custom("d1"));
    assert_eq!(texts(&map.remove("a").unwrap()), ["a1"]);
    assert!(map.remove("a").is_none());
    assert_eq!(map.len(), 3);
    assert_eq!(map.position("d"), Some(0));
    assert_eq!(map.position("b"), Some(1));
    assert_eq!(map.position("c"), Some(2));
    assert_eq!(texts(&map.remove("c").unwrap()), ["c1"]);
    assert_eq!(map.position("d"), Some(0));
    assert_eq!(map.position("b"), Some(1));
    assert!(map.is_well_formed());
}

#[test]
fn map_errors_remove_agrees_with_the_index_map() {
    let mut map = MapErrors::new();
    let mut index_map: indexmap::IndexMap<&'static str, usize> = indexmap::IndexMap::new();
    for (at, key) in ["a", "b", "c", "d", "e"].into_iter().enumerate() {
        map.push(key, custom(key));
        index_map.insert(key, at);
    }
    for key in ["b", "e", "a"] {
        assert!(map.remove(key).is_some());
        assert!(index_map.remove(key).is_some());
        let kept: Vec<&str> = map.entries.iter().map(|entry| entry.0).collect();
        let expected: Vec<&str> = index_map.keys().copied().collect();
        assert_eq!(kept, expected);
    }
}

#[test]
fn aggregates_know_when_they_are_empty() {
    assert!(ArrayErrors::new(vec![], vec![]).is_empty());
    assert!(!ArrayErrors::new(vec![custom("a")], vec![]).is_empty());
    assert!(!ArrayErrors::new(vec![], vec![(0, Errors::NewType(vec![]))]).is_empty());
    assert!(ObjectErrors::new(vec![], MapErrors::new()).is_empty());
    assert!(!ObjectErrors::new(vec![custom("a")], MapErrors::new()).is_empty());
    assert!(Errors::NewType(vec![]).is_empty());
    assert!(!Errors::NewType(vec![custom("a")]).is_empty());
    assert!(Errors::Array(ArrayErrors::new(vec![], vec![])).is_empty());
    assert!(Errors::Object(ObjectErrors::new(vec![], MapErrors::new())).is_empty());
}

#[test]
fn into_slot_keeps_a_list_and_wraps_an_aggregate() {
    assert_eq!(texts(&Errors::NewType(vec![custom("a"), custom("b")]).into_slot()), ["a", "b"]);
    let slot = Errors::Array(ArrayErrors::new(vec![custom("a")], vec![])).into_slot();
    assert_eq!(slot.len(), 1);
    assert!(matches!(&slot[0], Error::Items(array) if array.errors.len() == 1));
    assert!(slot[0].message().is_none());
    let slot = Errors::Object(ObjectErrors::new(vec![custom("a")], MapErrors::new())).into_slot();
    assert_eq!(slot.len(), 1);
    assert!(matches!(&slot[0], Error::Properties(object) if object.errors.len() == 1));
}

#[test]
fn well_formed_results_have_each_index_and_name_once() {
    let list = |text: &str| Errors::NewType(vec![custom(text)]);
    assert!(Errors::NewType(vec![]).is_well_formed());
    assert!(list("a").is_well_formed());
    let good = ArrayErrors::new(vec![custom("w")], vec![(2, list("x")), (0, list("y"))]);
    assert!(good.is_well_formed());
    let twice = ArrayErrors::new(vec![], vec![(2, list("x")), (0, list("y")), (2, list("z"))]);
    assert!(!twice.is_well_formed());
    let empty_entry = ArrayErrors::new(vec![], vec![(2, Errors::NewType(vec![]))]);
    assert!(!empty_entry.is_well_formed());
    let nested_twice = Errors::Array(ArrayErrors::new(
        vec![],
        vec![(1, Errors::Array(ArrayErrors::new(vec![], vec![(0, list("x")), (0, list("y"))])))],
    ));
    assert!(!nested_twice.is_well_formed());
    assert!(!Errors::NewType(vec![Error::Items(twice)]).is_well_formed());
    assert!(Error::Items(good).is_well_formed());
    assert!(custom("a").is_well_formed());

    let mut map = MapErrors::new();
    map.push("a", custom("a1"));
    map.push("b", custom("b1"));
    map.push("a", custom("a2"));
    assert!(map.is_well_formed());
    assert!(ObjectErrors::new(vec![custom("w")], map).is_well_formed());
    let repeated = MapErrors {
        entries: vec![("a", vec![custom("a1")]), ("b", vec![custom("b1")]), ("a", vec![])],
    };
    assert!(!repeated.is_well_formed());
    let unfilled = MapErrors { entries: vec![("a", vec![])] };
    assert!(!unfilled.is_well_formed());
    assert!(!Errors::Object(ObjectErrors::new(vec![], unfilled)).is_well_formed());
}
