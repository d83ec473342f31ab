use todo_service::error::AppError;
use todo_service::handlers::{contents, created_todo, found_todo};
use todo_service::ids::decimal_string;
use todo_service::render::{frame_todo, todos_to_json};
use todo_service::store::TodoStore;
use todo_service::todo::Todo;

fn text(s: &str) -> String {
    s.to_string()
}

#[test]
fn create_then_list_holds_one_todo() {
    let mut store = TodoStore::new();
    let created = store.create(text("buy milk")).unwrap();
    let todos = store.list();
    assert_eq!(todos.len(), 1);
    assert_eq!(todos[0].content, "buy milk");
    assert!(!todos[0].id.is_empty());
    assert_eq!(todos[0], created);
}

#[test]
fn update_known_id_changes_only_its_content() {
    let mut store = TodoStore::new();
    let first = store.create(text("buy milk")).unwrap();
    let second = store.create(text("walk dog")).unwrap();
    let updated = store.update(&first.id, text("buy bread")).unwrap();
    assert_eq!(updated.id, first.id);
    assert_eq!(updated.content, "buy bread");
    let todos = store.list();
    assert_eq!(todos.len(), 2);
    assert_eq!(todos[0], Todo::new(first.id.clone(), text("buy bread")));
    assert_eq!(todos[1], second);
}

#[test]
fn update_unknown_id_is_not_found() {
    let mut store = TodoStore::new();
    store.create(text("buy milk")).unwrap();
    let before = store.list();
    let result = store.update(&text("no-such-id"), text("buy bread"));
    assert!(matches!(result, Err(AppError::NotFound(_))));
    assert_eq!(store.list(), before);
}

#[test]
fn delete_removes_then_second_delete_is_not_found() {
    let mut store = TodoStore::new();
    let kept = store.create(text("walk dog")).unwrap();
    let gone = store.create(text("buy milk")).unwrap();
    let removed = store.delete(&gone.id).unwrap();
    assert_eq!(removed, gone);
    let todos = store.list();
    assert_eq!(todos, vec![kept]);
    assert!(todos.iter().all(|t| t.id != gone.id));
    let again = store.delete(&gone.id);
    assert!(matches!(again, Err(AppError::NotFound(_))));
}

#[test]
fn list_on_empty_store_is_empty() {
    let store = TodoStore::new();
    assert!(store.list().is_empty());
    assert_eq!(store.len(), 0);
}

#[test]
fn create_update_delete_round_trip_leaves_store_empty() {
    let mut store = TodoStore::new();
    let t = store.create(text("c")).unwrap();
    store.update(&t.id, text("c2")).unwrap();
    store.delete(&t.id).unwrap();
    assert!(store.list().is_empty());
}

#[test]
fn created_ids_are_distinct_numerals() {
    let mut store = TodoStore::new();
    let a = store.create(text("a")).unwrap();
    let b = store.create(text("b")).unwrap();
    store.delete(&a.id).unwrap();
    let c = store.create(text("c")).unwrap();
    assert_eq!(a.id, "0");
    assert_eq!(b.id, "1");
    assert_eq!(c.id, "2");
}

#[test]
fn decimal_string_writes_digits() {
    assert_eq!(decimal_string(0), "0");
    assert_eq!(decimal_string(7), "7");
    assert_eq!(decimal_string(10), "10");
    assert_eq!(decimal_string(9075), "9075");
    assert_eq!(decimal_string(u64::MAX), "18446744073709551615");
}

#[test]
fn error_status_codes() {
    assert_eq!(AppError::NotFound(text("x")).status(), 404);
    assert_eq!(AppError::StoreError(text("x")).status(), 500);
}

#[test]
fn error_body_embeds_message() {
    let e = AppError::NotFound(text("Todo item not found"));
    assert_eq!(e.body(), "{\"error\":\"Todo item not found\"}");
    assert_eq!(e.message(), "Todo item not found");
}

#[test]
fn error_body_escapes_message() {
    let e = AppError::StoreError(text("bad \"x\"\n"));
    assert_eq!(e.body(), "{\"error\":\"bad \\\"x\\\"\\n\"}");
}

#[test]
fn todo_json_object() {
    let t = Todo::new(text("todo:abc"), text("buy \"milk\""));
    assert_eq!(t.to_json(), "{\"content\":\"buy \\\"milk\\\"\",\"id\":\"todo:abc\"}");
    assert_eq!(frame_todo("\"a\"", "\"b\""), "{\"content\":\"a\",\"id\":\"b\"}");
}

#[test]
fn todos_json_array() {
    assert_eq!(todos_to_json(&vec![]), "[]");
    let todos = vec![Todo::new(text("1"), text("a")), Todo::new(text("2"), text("b"))];
    assert_eq!(
        todos_to_json(&todos),
        "[{\"content\":\"a\",\"id\":\"1\"},{\"content\":\"b\",\"id\":\"2\"}]"
    );
}

#[test]
fn created_todo_takes_first_record() {
    let a = Todo::new(text("todo:1"), text("a"));
    let b = Todo::new(text("todo:2"), text("b"));
    assert_eq!(created_todo(vec![a.clone(), b]), Ok(a));
    assert!(matches!(created_todo(vec![]), Err(AppError::StoreError(_))));
}

#[test]
fn found_todo_maps_absence_to_not_found() {
    let a = Todo::new(text("todo:1"), text("a"));
    assert_eq!(found_todo(Some(a.clone())), Ok(a));
    assert_eq!(
        found_todo(None),
        Err(AppError::NotFound(text("Todo item not found")))
    );
}

#[test]
fn contents_in_order() {
    let todos = vec![Todo::new(text("1"), text("a")), Todo::new(text("2"), text("b"))];
    assert_eq!(contents(&todos), vec![text("a"), text("b")]);
    assert!(contents(&vec![]).is_empty());
}
