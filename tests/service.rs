use todo_api::body::{absorb, ReadEvent, ReadStep};
use todo_api::handler::{handle, listed, plan, prepare, respond, written, Action, Response};
use todo_api::json::{request_title, todos_json};
use todo_api::route::{path_segments, route, same_text, Method, Route};
use todo_api::sanitize::clean_string;
use todo_api::store::{MemStore, Todo};

fn call(store: &mut MemStore, method: Method, path: &str, body: &str, id: &str) -> Response {
    respond(store, method, path, body.as_bytes(), id.to_string())
}

#[test]
fn create_then_list_gives_one_item() {
    let mut store = MemStore::new();
    let r = call(&mut store, Method::Post, "/todos", "{\"title\": \"buy milk\"}", "id-1");
    assert_eq!(r.status, 200);
    assert_eq!(r.body, "Task created");
    let items = store.list();
    assert_eq!(items.len(), 1);
    assert_eq!(items[0].id, "id-1");
    assert_eq!(items[0].title, "buy milk");
    let r = call(&mut store, Method::Get, "/todos", "", "unused");
    assert_eq!(r.status, 200);
    assert_eq!(r.body, "[{\"id\":\"id-1\",\"title\":\"buy milk\"}]");
}

#[test]
fn handle_creates_item_with_fresh_uuid() {
    let mut store = MemStore::new();
    let r = handle(&mut store, Method::Post, "/todos", b"{\"title\": \"buy milk\"}");
    assert_eq!(r.status, 200);
    let r2 = handle(&mut store, Method::Post, "/todos", b"{\"title\": \"buy milk\"}");
    assert_eq!(r2.status, 200);
    let items = store.list();
    assert_eq!(items.len(), 2);
    assert_ne!(items[0].id, items[1].id);
    for t in &items {
        assert_eq!(t.title, "buy milk");
        assert_eq!(t.id.len(), 36);
        for (i, c) in t.id.chars().enumerate() {
            if i == 8 || i == 13 || i == 18 || i == 23 {
                assert_eq!(c, '-');
            } else {
                assert!(c.is_ascii_digit() || ('a'..='f').contains(&c));
            }
        }
    }
}

#[test]
fn update_changes_only_the_title() {
    let mut store = MemStore::new();
    call(&mut store, Method::Post, "/todos", "{\"title\": \"one\"}", "a");
    call(&mut store, Method::Post, "/todos", "{\"title\": \"two\"}", "b");
    let r = call(&mut store, Method::Put, "/todos/a", "{\"title\": \"uno\"}", "unused");
    assert_eq!(r.status, 200);
    assert_eq!(r.body, "Task updated");
    let items = store.list();
    assert_eq!(items.len(), 2);
    assert_eq!((items[0].id.as_str(), items[0].title.as_str()), ("a", "uno"));
    assert_eq!((items[1].id.as_str(), items[1].title.as_str()), ("b", "two"));
}

#[test]
fn update_of_unknown_id_inserts() {
    let mut store = MemStore::new();
    let r = call(&mut store, Method::Put, "/todos/zz", "{\"title\": \"new\"}", "unused");
    assert_eq!(r.status, 200);
    let items = store.list();
    assert_eq!(items.len(), 1);
    assert_eq!(items[0].id, "zz");
    assert_eq!(items[0].title, "new");
}

#[test]
fn delete_twice_answers_200_both_times() {
    let mut store = MemStore::new();
    call(&mut store, Method::Post, "/todos", "{\"title\": \"one\"}", "a");
    call(&mut store, Method::Post, "/todos", "{\"title\": \"two\"}", "b");
    let r = call(&mut store, Method::Delete, "/todos/a", "", "unused");
    assert_eq!(r.status, 200);
    assert_eq!(r.body, "Task deleted");
    let r = call(&mut store, Method::Delete, "/todos/a", "", "unused");
    assert_eq!(r.status, 200);
    assert_eq!(r.body, "Task deleted");
    let r = call(&mut store, Method::Get, "/todos", "", "unused");
    assert_eq!(r.body, "[{\"id\":\"b\",\"title\":\"two\"}]");
}

#[test]
fn get_routes_on_second_segment() {
    assert!(matches!(route(Method::Get, "/todos"), Route::List));
    assert!(matches!(route(Method::Get, "/v1/other"), Route::NotFound));
    assert!(matches!(route(Method::Get, "x/todos/extra"), Route::List));
    assert!(matches!(route(Method::Get, "/todos?page=2"), Route::List));
    assert!(matches!(route(Method::Post, "/todos"), Route::Create));
    assert!(matches!(route(Method::Other, "/todos"), Route::NotFound));
}

#[test]
fn put_and_delete_take_the_third_segment() {
    match route(Method::Put, "/todos/abc/more") {
        Route::Update { id } => assert_eq!(id, "abc"),
        other => panic!("unexpected {:?}", other),
    }
    match route(Method::Delete, "/todos/abc?x=1") {
        Route::Delete { id } => assert_eq!(id, "abc"),
        other => panic!("unexpected {:?}", other),
    }
    match route(Method::Delete, "/todos/") {
        Route::Delete { id } => assert_eq!(id, ""),
        other => panic!("unexpected {:?}", other),
    }
    assert!(matches!(route(Method::Put, "/todos"), Route::NotFound));
    assert!(matches!(route(Method::Delete, "/todos"), Route::NotFound));
}

#[test]
fn unknown_route_is_404_with_empty_body() {
    let mut store = MemStore::new();
    let r = call(&mut store, Method::Get, "/v1/other", "", "unused");
    assert_eq!(r.status, 404);
    assert_eq!(r.body, "");
    let r = call(&mut store, Method::Put, "/todos", "{\"title\": \"x\"}", "unused");
    assert_eq!(r.status, 404);
    assert_eq!(store.list().len(), 0);
}

#[test]
fn title_round_trips_through_create_and_list() {
    let mut store = MemStore::new();
    call(&mut store, Method::Post, "/todos", "{\"title\": \"hello, world\"}", "k");
    let items = store.list();
    assert_eq!(items[0].title, "hello, world");
}

#[test]
fn escaped_quote_in_title_keeps_its_backslash() {
    let mut store = MemStore::new();
    let r = call(&mut store, Method::Post, "/todos", "{\"title\": \"a\\\"b\"}", "k");
    assert_eq!(r.status, 200);
    let items = store.list();
    assert_eq!(items[0].title, "a\\\"b");
}

#[test]
fn bad_bodies_are_400() {
    let mut store = MemStore::new();
    let r = call(&mut store, Method::Post, "/todos", "not json", "k");
    assert_eq!(r.status, 400);
    assert_eq!(r.body, "");
    let r = call(&mut store, Method::Post, "/todos", "{\"name\": \"x\"}", "k");
    assert_eq!(r.status, 400);
    let r = call(&mut store, Method::Put, "/todos/k", "", "unused");
    assert_eq!(r.status, 400);
    assert_eq!(store.list().len(), 0);
}

#[test]
fn non_string_title_keeps_its_json_text() {
    assert_eq!(request_title(b"{\"title\": 42}"), Some("42".to_string()));
    assert_eq!(request_title(b"{\"title\": null}"), Some("null".to_string()));
    assert_eq!(request_title(b"{\"title\": \"x\"}"), Some("x".to_string()));
    assert_eq!(request_title(b"[1]"), None);
}

#[test]
fn clean_string_strips_at_most_one_of_each() {
    assert_eq!(clean_string("\"buy milk\""), "buy milk");
    assert_eq!(clean_string("\\\"abc\\\""), "abc\\");
    assert_eq!(clean_string("\"\"x\"\""), "\"x\"");
    assert_eq!(clean_string("\\x\\"), "x");
    assert_eq!(clean_string("\""), "");
    assert_eq!(clean_string(""), "");
    assert_eq!(clean_string("plain"), "plain");
}

#[test]
fn path_segments_split_on_slash() {
    assert_eq!(path_segments("/v1/todos/7"), vec!["", "v1", "todos", "7"]);
    assert_eq!(path_segments(""), vec![""]);
    assert_eq!(path_segments("/a//b/?q=/x"), vec!["", "a", "", "b", ""]);
}

#[test]
fn same_text_compares_characters() {
    assert!(same_text("todos", "todos"));
    assert!(!same_text("todos", "todo"));
    assert!(!same_text("todos", "Todos"));
}

#[test]
fn todos_json_escapes_strings() {
    assert_eq!(todos_json(&vec![]), "[]");
    let items = vec![
        Todo::new("1".to_string(), "say \"hi\"".to_string()),
        Todo::new("2".to_string(), "x".to_string()),
    ];
    assert_eq!(
        todos_json(&items),
        "[{\"id\":\"1\",\"title\":\"say \\\"hi\\\"\"},{\"id\":\"2\",\"title\":\"x\"}]"
    );
}

#[test]
fn listed_fails_on_a_missing_value() {
    let r = listed(
        vec!["a".to_string(), "b".to_string()],
        vec![Some("one".to_string()), None],
    );
    assert_eq!(r.status, 500);
    assert_eq!(r.body, "");
    let r = listed(vec!["a".to_string()], vec![Some("one".to_string())]);
    assert_eq!(r.status, 200);
    assert_eq!(r.body, "[{\"id\":\"a\",\"title\":\"one\"}]");
}

#[test]
fn written_reports_store_failure() {
    let a = Action::Remove { key: "a".to_string() };
    assert_eq!(written(&a, false).status, 500);
    let w = Action::Write { key: "a".to_string(), title: "t".to_string(), created: true };
    assert_eq!(written(&w, true).body, "Task created");
    let u = Action::Write { key: "a".to_string(), title: "t".to_string(), created: false };
    assert_eq!(written(&u, true).body, "Task updated");
}

#[test]
fn plan_and_prepare() {
    match plan(Route::Create, b"{\"title\":\"t\"}", "id9".to_string()) {
        Action::Write { key, title, created } => {
            assert_eq!((key.as_str(), title.as_str(), created), ("id9", "t", true));
        }
        other => panic!("unexpected {:?}", other),
    }
    match prepare(Route::Create, b"{\"title\":\"t\"}") {
        Action::Write { key, .. } => assert_eq!(key.len(), 36),
        other => panic!("unexpected {:?}", other),
    }
    assert!(matches!(prepare(Route::List, b""), Action::List));
    match plan(Route::NotFound, b"", String::new()) {
        Action::Reply(r) => assert_eq!(r.status, 404),
        other => panic!("unexpected {:?}", other),
    }
}

#[test]
fn absorb_accumulates_until_close() {
    let mut buf = Vec::new();
    assert_eq!(absorb(&mut buf, ReadEvent::Chunk(vec![1, 2])), ReadStep::More);
    assert_eq!(absorb(&mut buf, ReadEvent::Chunk(vec![3])), ReadStep::More);
    assert_eq!(absorb(&mut buf, ReadEvent::Closed), ReadStep::Done);
    assert_eq!(buf, vec![1, 2, 3]);
    assert_eq!(absorb(&mut buf, ReadEvent::Failed), ReadStep::Abort);
    assert_eq!(buf, vec![1, 2, 3]);
}
