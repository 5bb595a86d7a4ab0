use wasm_workshop::abi::{pack_output, unpack_output};
use wasm_workshop::fib::fibonacci;
use wasm_workshop::guests::{action_name, classify_event, handle_event, transform, EventAction};
use wasm_workshop::text::{contains, count_words, push_decimal, trim};

#[test]
fn fibonacci_small_values() {
    assert_eq!(fibonacci(0), 0);
    assert_eq!(fibonacci(1), 1);
    assert_eq!(fibonacci(2), 1);
    assert_eq!(fibonacci(10), 55);
    assert_eq!(fibonacci(25), 75025);
}

#[test]
fn word_count_of_pipeline_inputs() {
    assert_eq!(transform("Hello from WebAssembly Cloud!"), "Word count: 4");
    assert_eq!(transform("!duolC ylbmessAbeW morf olleH"), "Word count: 4");
    assert_eq!(transform("HELLO FROM WEBASSEMBLY CLOUD!"), "Word count: 4");
}

#[test]
fn word_count_edges() {
    assert_eq!(count_words(""), 0);
    assert_eq!(count_words("   \t\n "), 0);
    assert_eq!(count_words("one"), 1);
    assert_eq!(count_words("  leading and trailing  "), 3);
    assert_eq!(count_words("a\u{3000}b\u{a0}c\u{2003}d"), 4);
    assert_eq!(count_words("tab\tnew\nline\r\nend"), 4);
    assert_eq!(transform(""), "Word count: 0");
    let long: String = "w ".repeat(1234);
    assert_eq!(transform(&long), "Word count: 1234");
}

#[test]
fn decimal_rendering() {
    let mut s = String::from("n=");
    push_decimal(&mut s, 0);
    assert_eq!(s, "n=0");
    let mut s = String::new();
    push_decimal(&mut s, u64::MAX);
    assert_eq!(s, u64::MAX.to_string());
    let mut s = String::new();
    push_decimal(&mut s, 1000);
    assert_eq!(s, "1000");
}

#[test]
fn substring_search() {
    assert!(contains("abc", ""));
    assert!(contains("abcabd", "abd"));
    assert!(!contains("ab", "abc"));
    assert!(!contains("order.plac", "order.placed"));
    assert!(contains("über order.placed", "order.placed"));
}

#[test]
fn trimming() {
    assert_eq!(trim("  quit \n"), "quit");
    assert_eq!(trim("\u{3000}x y\u{a0}"), "x y");
    assert_eq!(trim("   "), "");
    assert_eq!(trim(""), "");
}

#[test]
fn event_actions() {
    assert_eq!(classify_event(r#"{"event": "order.placed", "orderId": "abc123"}"#), EventAction::OrderAccepted);
    assert_eq!(classify_event(r#"{"event": "user.signup", "userId": "user456"}"#), EventAction::WelcomeEmailQueued);
    assert_eq!(classify_event(r#"{"event": "payment.failed", "orderId": "abc123"}"#), EventAction::RetryScheduled);
    assert_eq!(classify_event(r#"{"event": "refund"}"#), EventAction::UnknownEvent);
    // The first known name in the fixed order decides, wherever it appears.
    assert_eq!(classify_event("payment.failed user.signup order.placed"), EventAction::OrderAccepted);
    assert_eq!(classify_event("payment.failed then user.signup"), EventAction::WelcomeEmailQueued);
    assert_eq!(action_name(EventAction::RetryScheduled), "RETRY_SCHEDULED");
}

#[test]
fn event_reply_json() {
    let input = r#"{"event": "order.placed", "orderId": "abc123"}"#;
    assert_eq!(
        handle_event(input),
        format!(r#"{{"status":"processed","action":"ORDER_ACCEPTED","input_len":{}}}"#, input.len())
    );
    assert_eq!(handle_event(""), r#"{"status":"processed","action":"UNKNOWN_EVENT","input_len":0}"#);
    // The length is counted in bytes, not characters.
    assert_eq!(handle_event("é"), r#"{"status":"processed","action":"UNKNOWN_EVENT","input_len":2}"#);
}

#[test]
fn packing_round_trip() {
    let packed = pack_output(0x1000, 13);
    assert_eq!(packed, (0x1000i64 << 32) | 13);
    assert_eq!(unpack_output(packed), (0x1000, 13));
    assert_eq!(unpack_output(pack_output(i32::MAX, i32::MAX)), (i32::MAX as usize, i32::MAX as usize));
    assert_eq!(unpack_output(pack_output(0, 0)), (0, 0));
}

#[test]
fn packing_negative_values() {
    // A negative length fills the high half with sign bits.
    assert_eq!(pack_output(5, -1), -1);
    assert_eq!(unpack_output(-1), (usize::MAX, 0xFFFF_FFFF));
    // A negative address wraps when it is read back as a usize.
    let packed = pack_output(-2, 7);
    assert_eq!(packed, (-2i64 << 32) | 7);
    assert_eq!(unpack_output(packed), ((-2i64) as usize, 7));
}

#[test]
fn word_count_laws_on_examples() {
    let a = "Hello from";
    let b = "WebAssembly Cloud!";
    assert_eq!(count_words(&format!("{} {}", a, b)), count_words(a) + count_words(b));
    assert_eq!(count_words(&format!("{}\u{3000}{}", "x-", "-y")), 2);
    assert_eq!(count_words(&format!(" \t{}\n ", a)), count_words(a));
    assert_eq!(count_words("one \t\n two"), count_words("one two"));
    // Without white space at the seam the touching words fuse.
    assert_eq!(count_words(&format!("{}{}", a, b)), count_words(a) + count_words(b) - 1);
}
