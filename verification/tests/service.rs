use wasm_workshop::faas::{next_step, LineCommand};
use wasm_workshop::service::{echo_response, handle_health, handle_info, handle_not_found, handle_request};

#[test]
fn health_and_info() {
    let r = handle_health();
    assert_eq!(r.status, 200);
    assert_eq!(r.content_type, "application/json");
    assert_eq!(r.body, r#"{"status":"ok","runtime":"wasm"}"#);
    let r = handle_info();
    assert_eq!(r.status, 200);
    assert!(r.body.starts_with("{\n  \"name\": \"wasm-microservice\",\n"));
    assert!(r.body.ends_with("\"description\": \"Demo WASM HTTP microservice for cloud-native workshop\"\n}"));
}

#[test]
fn not_found() {
    let r = handle_not_found("/nope");
    assert_eq!(r.status, 404);
    assert_eq!(r.content_type, "application/json");
    assert_eq!(r.body, r#"{"error":"not found","path":"/nope"}"#);
}

#[test]
fn echo_with_fixed_clock() {
    let r = echo_response(br#"{"message": "Hello from WASM!"}"#, Some(1700000000));
    assert_eq!(r.status, 200);
    assert_eq!(r.body, r#"{"echo":{"message": "Hello from WASM!"},"timestamp":1700000000}"#);
    let r = echo_response(b"hi", None);
    assert_eq!(r.body, r#"{"echo":hi,"timestamp":0}"#);
    let r = echo_response(&[0xff, 0xfe], Some(5));
    assert_eq!(r.body, r#"{"echo":(invalid utf-8),"timestamp":5}"#);
    let r = echo_response("ünï".as_bytes(), Some(1));
    assert_eq!(r.body, r#"{"echo":ünï,"timestamp":1}"#);
}

#[test]
fn routing() {
    assert_eq!(handle_request("/health", b"").body, handle_health().body);
    assert_eq!(handle_request("/info", b"").body, handle_info().body);
    let r = handle_request("/missing", b"x");
    assert_eq!(r.status, 404);
    assert_eq!(r.body, r#"{"error":"not found","path":"/missing"}"#);
    let r = handle_request("/healthz", b"");
    assert_eq!(r.status, 404);
    let r = handle_request("/echo", b"abc");
    assert_eq!(r.status, 200);
    assert!(r.body.starts_with(r#"{"echo":abc,"timestamp":"#));
    assert!(r.body.ends_with('}'));
    let secs: u64 = r.body[r#"{"echo":abc,"timestamp":"#.len()..r.body.len() - 1].parse().unwrap();
    assert!(secs > 1_600_000_000);
}

#[test]
fn faas_lines() {
    let (n, c) = next_step(0, "  quit ");
    assert_eq!(n, 0);
    assert!(matches!(c, LineCommand::Stop));
    let (n, c) = next_step(3, "exit");
    assert_eq!(n, 3);
    assert!(matches!(c, LineCommand::Stop));
    let (n, c) = next_step(2, " \t ");
    assert_eq!(n, 2);
    assert!(matches!(c, LineCommand::Skip));
    let (n, c) = next_step(2, "  {\"event\": \"order.placed\"}\r");
    assert_eq!(n, 3);
    match c {
        LineCommand::Invoke(p) => assert_eq!(p, "{\"event\": \"order.placed\"}"),
        _ => panic!("expected an invocation"),
    }
    let (n, c) = next_step(u32::MAX, " quit");
    assert_eq!(n, u32::MAX);
    assert!(matches!(c, LineCommand::Stop));
    let (n, c) = next_step(0, "quitting");
    assert_eq!(n, 1);
    assert!(matches!(c, LineCommand::Invoke(_)));
}

#[test]
fn only_echo_depends_on_the_clock() {
    for path in ["/health", "/info", "/other"] {
        let r1 = handle_request(path, b"same");
        let r2 = handle_request(path, b"same");
        assert_eq!(r1.status, r2.status);
        assert_eq!(r1.body, r2.body);
        assert_eq!(r1.content_type, r2.content_type);
    }
}
