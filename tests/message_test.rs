use task::message::{dispatch, handle_add, handle_echo, Request, Response};

fn echoed(r: Response) -> String {
    match r {
        Response::Echo { content } => content,
        other => panic!("Expected EchoMessage, got {:?}", other),
    }
}

fn added(r: Response) -> i32 {
    match r {
        Response::AddResult { result } => result,
        other => panic!("Expected AddResponse, got {:?}", other),
    }
}

#[test]
fn echo_returns_the_same_content() {
    let r = dispatch(Request::Echo { content: "Hello, World!".to_string() });
    assert_eq!(echoed(r), "Hello, World!");
}

#[test]
fn echo_of_empty_content() {
    assert_eq!(echoed(dispatch(Request::Echo { content: String::new() })), "");
}

#[test]
fn echo_of_large_content() {
    let large = "x".repeat(10_000);
    assert_eq!(echoed(dispatch(Request::Echo { content: large.clone() })), large);
    assert_eq!(echoed(handle_echo("é ü".to_string())), "é ü");
}

#[test]
fn add_returns_the_sum() {
    assert_eq!(added(dispatch(Request::Add { a: 10, b: 20 })), 30);
    assert_eq!(added(dispatch(Request::Add { a: -7, b: 3 })), -4);
    assert_eq!(added(handle_add(0, 0)), 0);
}

#[test]
fn add_wraps_on_overflow() {
    assert_eq!(added(dispatch(Request::Add { a: i32::MAX, b: 1 })), i32::MIN);
    assert_eq!(added(dispatch(Request::Add { a: i32::MIN, b: -1 })), i32::MAX);
    assert_eq!(added(handle_add(i32::MAX, i32::MAX)), -2);
    assert_eq!(added(handle_add(i32::MIN, i32::MIN)), 0);
}
