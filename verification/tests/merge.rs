use serde_valid::error::{Message, Number, ToDefaultMessage};
use serde_valid::validation::{
    ArrayErrors, Error, Errors, MapErrors, MergeFault, ObjectErrors, VecErrors,
};
use serde_valid::{MinItemsErrorParams, MinLengthErrorParams, MinimumErrorParams};

fn custom(text: &str) -> Error {
    Error::Custom(text.to_owned())
}

fn texts(list: &VecErrors) -> Vec<String> {
    list.iter().map(|error| error.message().unwrap().to_owned()).collect()
}

fn list_of(errors: &Errors) -> &VecErrors {
    match errors {
        Errors::NewType(list) => list,
        _ => panic!("a bare list was expected"),
    }
}

fn array_of(errors: &Errors) -> &ArrayErrors {
    match errors {
        Errors::Array(array) => array,
        _ => panic!("an array result was expected"),
    }
}

#[test]
fn merge_of_two_lists_keeps_the_order() {
    let mut errors = Errors::NewType(vec![custom("a"), custom("b")]);
    errors.merge(Errors::NewType(vec![custom("c"), custom("a")]));
    assert_eq!(texts(list_of(&errors)), ["a", "b", "c", "a"]);
}

#[test]
fn merge_of_two_lists_is_not_commutative() {
    let mut errors = Errors::NewType(vec![custom("c")]);
    errors.merge(Errors::NewType(vec![custom("a"), custom("b")]));
    assert_eq!(texts(list_of(&errors)), ["c", "a", "b"]);
}

#[test]
fn merge_of_an_empty_list_changes_nothing() {
    let mut errors = Errors::NewType(vec![custom("a")]);
    errors.merge(Errors::NewType(vec![]));
    assert_eq!(texts(list_of(&errors)), ["a"]);

    let mut errors = Errors::NewType(vec![]);
    errors.merge(Errors::NewType(vec![]));
    assert!(list_of(&errors).is_empty());
    assert!(errors.is_empty());

    let mut errors = Errors::Array(ArrayErrors::new(
        vec![custom("whole")],
        vec![(2, Errors::NewType(vec![custom("x")]))],
    ));
    errors.merge(Errors::NewType(vec![]));
    let array = array_of(&errors);
    assert_eq!(texts(&array.errors), ["whole"]);
    assert_eq!(array.items.len(), 1);
    assert_eq!(array.items[0].0, 2);
    assert_eq!(texts(list_of(&array.items[0].1)), ["x"]);
}

#[test]
fn merge_into_an_empty_list_gives_the_other() {
    let mut errors = Errors::NewType(vec![]);
    errors.merge(Errors::NewType(vec![custom("a")]));
    assert_eq!(texts(list_of(&errors)), ["a"]);

    let mut errors = Errors::NewType(vec![]);
    errors.merge(Errors::Array(ArrayErrors::new(
        vec![],
        vec![(0, Errors::NewType(vec![custom("x")]))],
    )));
    let array = array_of(&errors);
    assert!(array.errors.is_empty());
    assert_eq!(array.items[0].0, 0);
}

#[test]
fn merge_of_a_list_into_an_array() {
    let x = Error::MinLength(Message::new(
        MinLengthErrorParams::new(3),
        MinLengthErrorParams::to_default_message,
    ));
    let y = Error::MinItems(Message::new(
        MinItemsErrorParams::new(2),
        MinItemsErrorParams::to_default_message,
    ));
    let mut errors = Errors::Array(ArrayErrors::new(vec![], vec![(0, Errors::NewType(vec![x]))]));
    errors.merge(Errors::NewType(vec![y]));
    let array = array_of(&errors);
    assert_eq!(array.errors.len(), 1);
    assert!(matches!(&array.errors[0], Error::MinItems(message) if message.error().min_items() == 2));
    assert_eq!(array.items.len(), 1);
    assert_eq!(array.items[0].0, 0);
    let element = list_of(&array.items[0].1);
    assert_eq!(element.len(), 1);
    assert!(matches!(&element[0], Error::MinLength(message) if message.error().min_length() == 3));
}

#[test]
fn merge_of_an_array_into_a_list() {
    let mut errors = Errors::NewType(vec![custom("a")]);
    errors.merge(Errors::Array(ArrayErrors::new(
        vec![custom("b")],
        vec![(3, Errors::NewType(vec![custom("x")])), (1, Errors::NewType(vec![custom("y")]))],
    )));
    let array = array_of(&errors);
    assert_eq!(texts(&array.errors), ["a", "b"]);
    assert_eq!(array.items.len(), 2);
    assert_eq!(array.items[0].0, 3);
    assert_eq!(array.items[1].0, 1);
    assert_eq!(texts(list_of(&array.items[1].1)), ["y"]);
}

#[test]
fn merge_of_two_arrays_unites_the_indices() {
    let mut errors = Errors::Array(ArrayErrors::new(
        vec![custom("a")],
        vec![(0, Errors::NewType(vec![custom("x0")])), (2, Errors::NewType(vec![custom("x2")]))],
    ));
    errors.merge(Errors::Array(ArrayErrors::new(
        vec![custom("b")],
        vec![
            (2, Errors::NewType(vec![custom("y2")])),
            (1, Errors::NewType(vec![custom("y1")])),
            (0, Errors::NewType(vec![])),
        ],
    )));
    let array = array_of(&errors);
    assert_eq!(texts(&array.errors), ["a", "b"]);
    let indices: Vec<usize> = array.items.iter().map(|item| item.0).collect();
    assert_eq!(indices, [0, 2, 1]);
    assert_eq!(texts(list_of(&array.items[0].1)), ["x0"]);
    assert_eq!(texts(list_of(&array.items[1].1)), ["x2", "y2"]);
    assert_eq!(texts(list_of(&array.items[2].1)), ["y1"]);
}

#[test]
fn merge_of_two_arrays_merges_nested_arrays() {
    let inner = |text: &str| {
        Errors::Array(ArrayErrors::new(vec![], vec![(5, Errors::NewType(vec![custom(text)]))]))
    };
    let mut errors = Errors::Array(ArrayErrors::new(vec![], vec![(1, inner("x"))]));
    errors.merge(Errors::Array(ArrayErrors::new(vec![], vec![(1, inner("y"))])));
    let array = array_of(&errors);
    assert_eq!(array.items.len(), 1);
    let nested = array_of(&array.items[0].1);
    assert_eq!(nested.items.len(), 1);
    assert_eq!(nested.items[0].0, 5);
    assert_eq!(texts(list_of(&nested.items[0].1)), ["x", "y"]);
}

#[test]
fn merge_keeps_the_payload_of_a_message() {
    let minimum = Error::Minimum(Message::new(
        MinimumErrorParams::new(Number::I32(18)),
        MinimumErrorParams::to_default_message,
    ));
    let mut errors = Errors::NewType(vec![]);
    errors.merge(Errors::NewType(vec![minimum]));
    let list = list_of(&errors);
    assert!(matches!(&list[0], Error::Minimum(message)
        if message.error().minimum() == Number::I32(18)
            && message.text() == "The number must be `>= 18`."));
}

#[test]
fn copy_of_a_result_holds_the_same() {
    let minimum = Error::Minimum(Message::new(
        MinimumErrorParams::new(Number::I32(18)),
        MinimumErrorParams::to_default_message,
    ));
    let errors = Errors::Array(ArrayErrors::new(
        vec![custom("whole"), minimum],
        vec![
            (0, Errors::NewType(vec![custom("x")])),
            (4, Errors::Array(ArrayErrors::new(vec![], vec![(1, Errors::NewType(vec![custom("y")]))]))),
        ],
    ));
    let copy = errors.clone();
    assert_eq!(copy.to_text(), errors.to_text());
    assert_eq!(errors.duplicate().to_text(), errors.to_text());
    let mut merged = errors.clone();
    merged.merge(copy);
    let array = array_of(&merged);
    assert_eq!(array.errors.len(), 4);
    assert_eq!(array.items.len(), 2);
    assert_eq!(texts(list_of(&array.items[0].1)), ["x", "x"]);
    assert_eq!(array_of(&errors).errors.len(), 2);
}

fn object() -> Errors {
    let mut map = MapErrors::new();
    map.push("a", custom("x"));
    Errors::Object(ObjectErrors::new(vec![], map))
}

#[test]
fn merge_with_an_object_is_a_fault() {
    let list = || Errors::NewType(vec![custom("a")]);
    let array = || Errors::Array(ArrayErrors::new(vec![], vec![(0, Errors::NewType(vec![custom("x")]))]));
    assert_eq!(list().merge_fault_of(&object()), Some(MergeFault::NotSupported));
    assert_eq!(array().merge_fault_of(&object()), Some(MergeFault::Conflict));
    assert_eq!(object().merge_fault_of(&list()), Some(MergeFault::NotSupported));
    assert_eq!(object().merge_fault_of(&array()), Some(MergeFault::NotSupported));
    assert_eq!(object().merge_fault_of(&object()), Some(MergeFault::NotSupported));
    assert_eq!(list().merge_fault_of(&list()), None);
    assert_eq!(list().merge_fault_of(&array()), None);
    assert_eq!(array().merge_fault_of(&list()), None);
    assert_eq!(array().merge_fault_of(&array()), None);
}

#[test]
fn merge_fault_is_found_among_the_elements() {
    let mine = Errors::Array(ArrayErrors::new(
        vec![],
        vec![(0, Errors::NewType(vec![custom("x")])), (1, object())],
    ));
    let unsupported_list = Errors::Array(ArrayErrors::new(vec![], vec![(0, object())]));
    assert_eq!(mine.merge_fault_of(&unsupported_list), Some(MergeFault::NotSupported));
    let nested = || {
        Errors::Array(ArrayErrors::new(vec![], vec![(3, Errors::Array(ArrayErrors::new(vec![], vec![])))]))
    };
    let conflict = Errors::Array(ArrayErrors::new(vec![], vec![(3, object())]));
    assert_eq!(nested().merge_fault_of(&conflict), Some(MergeFault::Conflict));
    let unsupported =
        Errors::Array(ArrayErrors::new(vec![], vec![(1, Errors::NewType(vec![custom("y")]))]));
    assert_eq!(mine.merge_fault_of(&unsupported), Some(MergeFault::NotSupported));
    let first_of_two = Errors::Array(ArrayErrors::new(
        vec![],
        vec![(1, Errors::NewType(vec![])), (0, object())],
    ));
    assert_eq!(mine.merge_fault_of(&first_of_two), Some(MergeFault::NotSupported));
    let added = Errors::Array(ArrayErrors::new(
        vec![],
        vec![(5, object()), (5, Errors::NewType(vec![custom("z")]))],
    ));
    assert_eq!(mine.merge_fault_of(&added), Some(MergeFault::NotSupported));
    let fine = Errors::Array(ArrayErrors::new(vec![], vec![(7, object())]));
    assert_eq!(mine.merge_fault_of(&fine), None);
}

#[test]
fn try_merge_merges_or_leaves_alone() {
    let mut errors = Errors::NewType(vec![custom("a")]);
    assert_eq!(errors.try_merge(Errors::NewType(vec![custom("b")])), Ok(()));
    assert_eq!(texts(list_of(&errors)), ["a", "b"]);
    assert_eq!(errors.try_merge(object()), Err(MergeFault::NotSupported));
    assert_eq!(texts(list_of(&errors)), ["a", "b"]);
    let mut array = Errors::Array(ArrayErrors::new(vec![custom("w")], vec![]));
    assert_eq!(array.try_merge(object()), Err(MergeFault::Conflict));
    assert_eq!(array.to_text(), r#"{"items":["w"]}"#);
    let mut errors = object();
    assert_eq!(errors.try_merge(Errors::NewType(vec![])), Err(MergeFault::NotSupported));
    assert_eq!(errors.to_text(), r#"{"a":["x"]}"#);
}

fn count(errors: &Errors) -> usize {
    match errors {
        Errors::NewType(list) => list.iter().map(count_one).sum(),
        Errors::Array(array) => count_array(array),
        Errors::Object(object) => {
            object.errors.iter().map(count_one).sum::<usize>()
                + object
                    .properties
                    .entries
                    .iter()
                    .map(|(_, list)| list.iter().map(count_one).sum::<usize>())
                    .sum::<usize>()
        }
    }
}

fn count_array(array: &ArrayErrors) -> usize {
    array.errors.iter().map(count_one).sum::<usize>()
        + array.items.iter().map(|(_, errors)| count(errors)).sum::<usize>()
}

fn count_one(error: &Error) -> usize {
    match error {
        Error::Items(array) => count_array(array),
        Error::Properties(object) => count(&Errors::Object(object.clone())),
        _ => 1,
    }
}

#[test]
fn merge_drops_nothing() {
    let mine = || {
        Errors::Array(ArrayErrors::new(
            vec![custom("a"), Error::Items(ArrayErrors::new(vec![custom("deep")], vec![]))],
            vec![
                (0, Errors::NewType(vec![custom("x0")])),
                (2, Errors::Array(ArrayErrors::new(vec![], vec![(1, Errors::NewType(vec![custom("n")]))]))),
            ],
        ))
    };
    let other = || {
        Errors::Array(ArrayErrors::new(
            vec![custom("b")],
            vec![
                (2, Errors::NewType(vec![custom("y2"), custom("z2")])),
                (1, Errors::NewType(vec![custom("y1")])),
            ],
        ))
    };
    assert_eq!(count(&mine()), 4);
    assert_eq!(count(&other()), 4);
    let mut merged = mine();
    merged.merge(other());
    assert_eq!(count(&merged), 8);
    assert!(merged.is_well_formed());
    let mut list = Errors::NewType(vec![custom("l")]);
    list.merge(mine());
    assert_eq!(count(&list), 5);
}
