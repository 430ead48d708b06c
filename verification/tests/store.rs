use rustc_serialize::json::Json;
use todo_backend::encode::encode_todos;
use todo_backend::store::TodoStore;
use todo_backend::todo::TodoError;

#[test]
fn create_with_order_returns_populated_todo() {
    let mut store = TodoStore::new();
    let todo = store.create_from_json("{\"title\":\"a todo\",\"order\":100}").unwrap();
    assert_eq!("a todo", todo.title);
    assert_eq!(Some(100), todo.order);
    assert!(!todo.completed);
    assert_eq!(1, store.len());
}

#[test]
fn create_without_order_leaves_it_unset() {
    let mut store = TodoStore::new();
    let todo = store.create_from_json("{\"title\":\"a todo\"}").unwrap();
    assert_eq!(None, todo.order);
}

#[test]
fn create_on_empty_object_fails_and_leaves_store_unchanged() {
    let mut store = TodoStore::new();
    store.create_from_json("{\"title\":\"kept\"}").unwrap();
    let err = store.create_from_json("{}").err().unwrap();
    match err {
        TodoError::Validation(msg) => assert_eq!("title is required", msg),
        _ => panic!("expected a validation error"),
    }
    assert_eq!(1, store.len());
    assert_eq!("kept", store.list()[0].title);
}

#[test]
fn create_on_malformed_json_fails_with_parse_error() {
    let mut store = TodoStore::new();
    let err = store.create_from_json("not json").err().unwrap();
    match err {
        TodoError::Parse(msg) => assert!(msg.starts_with("Failed to parse JSON: ")),
        _ => panic!("expected a parse error"),
    }
    assert_eq!(0, store.len());
}

#[test]
fn list_keeps_insertion_order() {
    let mut store = TodoStore::new();
    store.create_from_json("{\"title\":\"A\"}").unwrap();
    store.create_from_json("{\"title\":\"B\"}").unwrap();
    store.create_from_json("{\"title\":\"C\"}").unwrap();
    let titles: Vec<String> = store.list().iter().map(|t| t.title.clone()).collect();
    assert_eq!(vec!["A".to_string(), "B".to_string(), "C".to_string()], titles);
}

#[test]
fn get_finds_by_identifier() {
    let mut store = TodoStore::new();
    let a = store.create_from_json("{\"title\":\"A\"}").unwrap();
    let b = store.create_from_json("{\"title\":\"B\"}").unwrap();
    assert_eq!("A", store.get(&a.id).unwrap().title);
    assert_eq!("B", store.get(&b.id).unwrap().title);
    assert!(store.get("no-such-id").is_none());
}

#[test]
fn identifiers_are_unique_across_creates() {
    let mut store = TodoStore::new();
    for _ in 0..5 {
        store.create_from_json("{\"title\":\"same title\"}").unwrap();
    }
    let mut ids: Vec<String> = store.list().iter().map(|t| t.id.clone()).collect();
    ids.sort();
    ids.dedup();
    assert_eq!(5, ids.len());
}

#[test]
fn update_sets_completed_and_keeps_the_rest() {
    let mut store = TodoStore::new();
    let created = store.create_from_json("{\"title\":\"a todo\",\"order\":100}").unwrap();
    let updated = store.update(&created.id, "{\"completed\":true}").unwrap();
    assert_eq!("a todo", updated.title);
    assert_eq!(Some(100), updated.order);
    assert!(updated.completed);
    let stored = store.get(&created.id).unwrap();
    assert!(stored.completed);
    assert_eq!("a todo", stored.title);
}

#[test]
fn update_missing_identifier_fails_with_not_found() {
    let mut store = TodoStore::new();
    let err = store.update("no-such-id", "{\"completed\":true}").err().unwrap();
    assert!(matches!(err, TodoError::NotFound));
    assert_eq!("not found", err.message());
}

#[test]
fn update_on_malformed_json_leaves_store_unchanged() {
    let mut store = TodoStore::new();
    let created = store.create_from_json("{\"title\":\"a todo\"}").unwrap();
    let err = store.update(&created.id, "{\"completed\":").err().unwrap();
    assert!(matches!(err, TodoError::Parse(_)));
    let stored = store.get(&created.id).unwrap();
    assert_eq!("a todo", stored.title);
    assert!(!stored.completed);
}

#[test]
fn delete_is_idempotent() {
    let mut store = TodoStore::new();
    let a = store.create_from_json("{\"title\":\"A\"}").unwrap();
    store.create_from_json("{\"title\":\"B\"}").unwrap();
    store.delete(&a.id);
    let after_first = store.len();
    store.delete(&a.id);
    assert_eq!(after_first, store.len());
    assert_eq!(1, store.len());
    assert!(store.get(&a.id).is_none());
}

#[test]
fn delete_of_missing_identifier_is_a_silent_no_op() {
    let mut store = TodoStore::new();
    store.create_from_json("{\"title\":\"A\"}").unwrap();
    store.delete("no-such-id");
    assert_eq!(1, store.len());
}

#[test]
fn clear_empties_a_non_empty_store() {
    let mut store = TodoStore::new();
    store.create_from_json("{\"title\":\"A\"}").unwrap();
    store.create_from_json("{\"title\":\"B\"}").unwrap();
    store.clear();
    assert_eq!(0, store.len());
    assert!(store.list().is_empty());
}

#[test]
fn listing_round_trips_through_a_json_parser() {
    let mut store = TodoStore::new();
    store.create_from_json("{\"title\":\"plain\",\"order\":100}").unwrap();
    store.create_from_json("{\"title\":\"quo\\\"te and back\\\\slash\"}").unwrap();
    let encoded = encode_todos(store.list());
    let parsed = Json::from_str(&encoded).unwrap();
    let array = parsed.as_array().unwrap();
    assert_eq!(2, array.len());
    for (element, stored) in array.iter().zip(store.list().iter()) {
        assert_eq!(
            stored.title.as_str(),
            element.find("title").unwrap().as_string().unwrap()
        );
        match stored.order {
            Some(n) => assert_eq!(n, element.find("order").unwrap().as_i64().unwrap()),
            None => assert!(element.find("order").unwrap().is_null()),
        }
        assert_eq!(
            stored.completed,
            element.find("completed").unwrap().as_boolean().unwrap()
        );
        assert_eq!(stored.id.as_str(), element.find("id").unwrap().as_string().unwrap());
        assert_eq!(stored.url.as_str(), element.find("url").unwrap().as_string().unwrap());
    }
}

#[test]
fn encoding_renders_negative_orders_and_control_characters() {
    let mut store = TodoStore::new();
    store.create_from_json("{\"title\":\"tab\\there\",\"order\":-42}").unwrap();
    let encoded = encode_todos(store.list());
    let parsed = Json::from_str(&encoded).unwrap();
    let element = &parsed.as_array().unwrap()[0];
    assert_eq!("tab\there", element.find("title").unwrap().as_string().unwrap());
    assert_eq!(-42, element.find("order").unwrap().as_i64().unwrap());
}
