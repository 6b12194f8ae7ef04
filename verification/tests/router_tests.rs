use object_lambda::deps::{Env, Reqwest};
use object_lambda::router::Router;

fn get_handler(status_code: i64) -> Box<dyn Fn() -> i64> {
    Box::new(move || status_code)
}

#[test]
fn test_router_new() {
    let default_handler = get_handler(404);
    let router = Router::new(default_handler);

    let route = router.get("/non-existing", "anyMethod");

    assert_eq!(router.len(), 0);
    assert_eq!(route(), 404);
}

#[test]
fn test_router_set_and_get() {
    let default_handler = get_handler(404);
    let mut router = Router::new(default_handler);
    let path = "/test";
    let method = "GET";
    let handler = get_handler(200);
    router.set(path, method, handler);

    let route = router.get(path, method);

    assert_eq!(router.len(), 1);
    assert_eq!(route(), 200);
}

#[test]
fn router_tells_methods_apart() {
    let mut router = Router::new(404);
    router.set("/phonenumbers", "GET", 1);
    router.set("/phonenumbers", "POST", 2);
    router.set("/phonenumbers/{id}", "GET", 3);
    router.set("/phonenumbers/{id}", "DELETE", 4);
    assert_eq!(router.len(), 4);
    assert_eq!(*router.get("/phonenumbers", "GET"), 1);
    assert_eq!(*router.get("/phonenumbers", "POST"), 2);
    assert_eq!(*router.get("/phonenumbers/{id}", "GET"), 3);
    assert_eq!(*router.get("/phonenumbers/{id}", "DELETE"), 4);
    assert_eq!(*router.get("/phonenumbers", "DELETE"), 404);
    assert_eq!(*router.get("/phonenumbers/", "GET"), 404);
}

#[test]
fn router_replaces_a_route_set_twice() {
    let mut router = Router::new(0);
    router.set("/a", "GET", 1);
    router.set("/a", "GET", 2);
    assert_eq!(router.len(), 1);
    assert_eq!(*router.get("/a", "GET"), 2);
}

#[test]
fn router_keys_join_path_and_method_with_a_hyphen() {
    let mut router = Router::new(0);
    router.set("/a-b", "c", 1);
    assert_eq!(*router.get("/a-b", "c"), 1);
    assert_eq!(*router.get("/a", "b-c"), 1);
    assert_eq!(*router.get("", "/a-b-c"), 0);
    assert_eq!(*router.get("/a-b-c", ""), 0);
    assert_eq!(*router.get("/a-bc", ""), 0);
}

#[test]
fn handles_can_be_made() {
    let _env = Env::new();
    let _reqwest = Reqwest::new();
}
