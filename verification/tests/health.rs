use broadcast_relay::health::{say_hello, HELLO_WORLD};
use gotham::hyper::{Body, Method, Request, Uri};
use gotham::state::State;

fn state_for(uri: &str) -> State {
    let request = Request::builder().method(Method::GET).uri(uri).body(Body::empty()).unwrap();
    State::from_request(request, "127.0.0.1:10000".parse().unwrap())
}

#[test]
fn the_body_is_fixed() {
    assert_eq!(HELLO_WORLD, "Hello World!");
}

#[test]
fn say_hello_answers_with_the_fixed_body() {
    let (_, body) = say_hello(state_for("http://localhost/"));
    assert_eq!(body, "Hello World!");
}

#[test]
fn say_hello_answers_every_path_alike() {
    for uri in ["http://localhost/health", "http://localhost/a/b?c=d"] {
        let (_, body) = say_hello(state_for(uri));
        assert_eq!(body, "Hello World!");
    }
}

#[test]
fn say_hello_hands_the_state_back() {
    let (state, _) = say_hello(state_for("http://localhost/a/b?c=d"));
    assert_eq!(state.borrow::<Method>(), &Method::GET);
    assert_eq!(state.borrow::<Uri>().path(), "/a/b");
    assert_eq!(state.borrow::<Uri>().query(), Some("c=d"));
    assert!(state.has::<Body>());
}
