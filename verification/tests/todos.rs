use todo_backend::todo::Todo;

#[test]
fn parses_todo_with_order() {
    let todo = Todo::new_from_json_str("{\"title\": \"a todo\", \"order\":100}").unwrap();
    assert_eq!("a todo".to_string(), todo.title);
    assert_eq!(100, todo.order.unwrap());
}

#[test]
fn parses_todo_with_only_title() {
    let todo = Todo::new_from_json_str("{\"title\": \"a todo\"}").unwrap();
    assert_eq!("a todo".to_string(), todo.title);
    assert_eq!(None, todo.order);
}

#[test]
fn errs_with_details_on_missing_title() {
    assert_eq!("title is required".to_string(), Todo::new_from_json_str("{}").err().unwrap());
}

#[test]
fn errs_with_details_on_malformed_json() {
    assert_eq!(
        "Failed to parse JSON: SyntaxError(EOF While parsing value, 1, 10)".to_string(),
        Todo::new_from_json_str("{\"title\":").err().unwrap()
    );
}

#[test]
fn errs_on_non_string_title() {
    assert_eq!(
        "title must be a string".to_string(),
        Todo::new_from_json_str("{\"title\": 5}").err().unwrap()
    );
}

#[test]
fn errs_on_non_numeric_order() {
    assert_eq!(
        "order must be a number".to_string(),
        Todo::new_from_json_str("{\"title\": \"a todo\", \"order\": \"high\"}").err().unwrap()
    );
    assert_eq!(
        "order must be a number".to_string(),
        Todo::new_from_json_str("{\"title\": \"a todo\", \"order\": true}").err().unwrap()
    );
    assert_eq!(
        "order must be a number".to_string(),
        Todo::new_from_json_str("{\"title\": \"a todo\", \"order\": {}}").err().unwrap()
    );
}

#[test]
fn created_todo_has_fresh_identifier_and_url() {
    let a = Todo::new_from_json_str("{\"title\": \"a\"}").unwrap();
    let b = Todo::new_from_json_str("{\"title\": \"b\"}").unwrap();
    assert_eq!(36, a.id.chars().count());
    assert_eq!(36, b.id.chars().count());
    assert_ne!(a.id, b.id);
    assert_eq!(format!("http://localhost:3000/{}", a.id), a.url);
    assert!(!a.completed);
}

#[test]
fn update_overwrites_only_mentioned_fields() {
    let mut todo = Todo::new_from_json_str("{\"title\": \"a todo\", \"order\": 7}").unwrap();
    let id = todo.id.clone();
    let url = todo.url.clone();
    todo.update_from_json_str("{\"completed\": true}").unwrap();
    assert_eq!("a todo", todo.title);
    assert_eq!(Some(7), todo.order);
    assert!(todo.completed);
    assert_eq!(id, todo.id);
    assert_eq!(url, todo.url);
    todo.update_from_json_str("{\"title\": \"renamed\", \"order\": 9}").unwrap();
    assert_eq!("renamed", todo.title);
    assert_eq!(Some(9), todo.order);
    assert!(todo.completed);
}

#[test]
fn update_with_non_numeric_order_clears_the_hint() {
    let mut todo = Todo::new_from_json_str("{\"title\": \"a todo\", \"order\": 7}").unwrap();
    todo.update_from_json_str("{\"order\": \"soon\"}").unwrap();
    assert_eq!(None, todo.order);
}

#[test]
fn update_on_malformed_json_leaves_todo_unmodified() {
    let mut todo = Todo::new_from_json_str("{\"title\": \"a todo\", \"order\": 7}").unwrap();
    let err = todo.update_from_json_str("{\"completed\":").err().unwrap();
    assert_eq!("Failed to parse JSON: SyntaxError(EOF While parsing value, 1, 14)", err);
    assert_eq!("a todo", todo.title);
    assert_eq!(Some(7), todo.order);
    assert!(!todo.completed);
}

#[test]
fn update_rejects_non_string_title_and_non_boolean_completed() {
    let mut todo = Todo::new_from_json_str("{\"title\": \"a todo\"}").unwrap();
    assert_eq!(
        "title must be a string".to_string(),
        todo.update_from_json_str("{\"title\": 3}").err().unwrap()
    );
    assert_eq!(
        "completed must be a boolean".to_string(),
        todo.update_from_json_str("{\"completed\": 3}").err().unwrap()
    );
    assert_eq!("a todo", todo.title);
    assert!(!todo.completed);
}
