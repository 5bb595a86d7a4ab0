use wasm_workshop::host::{
    call_binary, call_store, call_unary, guest_length, guest_output_text, instantiate, invoke, run_guest, HostError,
    GuestModule, GuestRuntime, Plugin,
};

/// A guest whose `alloc` always answers the address given as signed LEB128
/// in `alloc_leb`, and whose `transform` and `handle_event` hand the input
/// span straight back, so the host reads back what it wrote. With `memory`
/// (one 64 KiB page) exported when `with_memory` is set.
fn echo_guest_at(with_memory: bool, alloc_leb: &[u8]) -> Vec<u8> {
    let mut m = vec![0x00, 0x61, 0x73, 0x6d, 0x01, 0x00, 0x00, 0x00];
    // Types: (i32) -> i32 and (i32, i32) -> i64.
    m.extend_from_slice(&[0x01, 0x0c, 0x02, 0x60, 0x01, 0x7f, 0x01, 0x7f, 0x60, 0x02, 0x7f, 0x7f, 0x01, 0x7e]);
    // Functions.
    m.extend_from_slice(&[0x03, 0x03, 0x02, 0x00, 0x01]);
    // One memory of one page.
    m.extend_from_slice(&[0x05, 0x03, 0x01, 0x00, 0x01]);
    // Exports.
    let mut exports: Vec<u8> = Vec::new();
    let mut count = 0u8;
    if with_memory {
        exports.extend_from_slice(&[0x06, b'm', b'e', b'm', b'o', b'r', b'y', 0x02, 0x00]);
        count += 1;
    }
    exports.extend_from_slice(&[0x05, b'a', b'l', b'l', b'o', b'c', 0x00, 0x00]);
    exports.extend_from_slice(&[0x09, b't', b'r', b'a', b'n', b's', b'f', b'o', b'r', b'm', 0x00, 0x01]);
    exports.extend_from_slice(&[0x0c, b'h', b'a', b'n', b'd', b'l', b'e', b'_', b'e', b'v', b'e', b'n', b't', 0x00, 0x01]);
    count += 3;
    m.push(0x07);
    m.push((exports.len() + 1) as u8);
    m.push(count);
    m.extend_from_slice(&exports);
    // Code: alloc returns its constant; the span function packs (ptr << 32) | len.
    let mut alloc_body = vec![0x00, 0x41];
    alloc_body.extend_from_slice(alloc_leb);
    alloc_body.push(0x0b);
    let span_body = [0x00, 0x20, 0x00, 0xad, 0x42, 0x20, 0x86, 0x20, 0x01, 0xad, 0x84, 0x0b];
    let mut code = vec![0x02, alloc_body.len() as u8];
    code.extend_from_slice(&alloc_body);
    code.push(span_body.len() as u8);
    code.extend_from_slice(&span_body);
    m.push(0x0a);
    m.push(code.len() as u8);
    m.extend_from_slice(&code);
    m
}

/// The echo guest with its buffer at address 1024.
fn echo_guest(with_memory: bool) -> Vec<u8> {
    echo_guest_at(with_memory, &[0x80, 0x08])
}

/// A runtime that reserves only what a one-page memory needs.
fn small_runtime() -> GuestRuntime {
    match GuestRuntime::with_memory_limits(1 << 20, 0, 0) {
        Ok(r) => r,
        Err(_) => panic!("engine refused"),
    }
}

/// Compiles `wasm` for `runtime`.
fn compile(runtime: &GuestRuntime, wasm: Vec<u8>) -> GuestModule {
    match runtime.load_module(&wasm) {
        Ok(m) => m,
        Err(_) => panic!("module refused"),
    }
}

#[test]
fn invoke_reads_back_the_guest_output() {
    let runtime = small_runtime();
    let module = compile(&runtime, echo_guest(true));
    let mut guest = match instantiate(&runtime, &module) {
        Ok(p) => p,
        Err(HostError::Wasm(e)) => panic!("instantiation failed: {e:?}"),
        Err(_) => panic!("instantiation failed"),
    };
    match invoke(&mut guest, r#"{"event": "user.signup"}"#) {
        Ok(s) => assert_eq!(s, r#"{"event": "user.signup"}"#),
        Err(_) => panic!("invocation failed"),
    }
    match invoke(&mut guest, "héllo") {
        Ok(s) => assert_eq!(s, "héllo"),
        Err(_) => panic!("invocation failed"),
    }
}

#[test]
fn plugin_transform_round_trip() {
    let runtime = small_runtime();
    let module = compile(&runtime, echo_guest(true));
    let mut plugin = match Plugin::load(&runtime, "echo", &module) {
        Ok(p) => p,
        Err(_) => panic!("load failed"),
    };
    assert_eq!(plugin.name(), "echo");
    match plugin.transform("Hello from WebAssembly Cloud!") {
        Ok(s) => assert_eq!(s, "Hello from WebAssembly Cloud!"),
        Err(_) => panic!("transform failed"),
    }
    match plugin.transform("") {
        Ok(s) => assert_eq!(s, ""),
        Err(_) => panic!("transform failed"),
    }
}

#[test]
fn missing_memory_is_reported() {
    let runtime = small_runtime();
    let module = compile(&runtime, echo_guest(false));
    let mut guest = match instantiate(&runtime, &module) {
        Ok(p) => p,
        Err(_) => panic!("instantiation failed"),
    };
    assert!(matches!(invoke(&mut guest, "x"), Err(HostError::MissingMemory)));
}

#[test]
fn output_decoding_and_length() {
    match guest_output_text("Word count: 4".as_bytes()) {
        Ok(s) => assert_eq!(s, "Word count: 4"),
        Err(_) => panic!("valid text rejected"),
    }
    assert!(matches!(guest_output_text(&[0xc3, 0x28]), Err(HostError::InvalidUtf8)));
    assert_eq!(guest_length("héllo"), 6);
    assert_eq!(guest_length(""), 0);
}

#[test]
fn copy_outside_memory_is_reported() {
    let runtime = small_runtime();
    // alloc answers 70000, past the single 65536-byte page.
    let module = compile(&runtime, echo_guest_at(true, &[0xf0, 0xa2, 0x04]));
    let mut guest = match instantiate(&runtime, &module) {
        Ok(p) => p,
        Err(_) => panic!("instantiation failed"),
    };
    assert!(matches!(invoke(&mut guest, "payload"), Err(HostError::MemoryAccess)));
}

#[test]
fn missing_export_is_a_wasm_error() {
    let runtime = small_runtime();
    let module = compile(&runtime, echo_guest(true));
    let mut guest = match instantiate(&runtime, &module) {
        Ok(p) => p,
        Err(_) => panic!("instantiation failed"),
    };
    assert!(matches!(run_guest(&mut guest, "no_such_export", "x"), Err(HostError::Wasm(_))));
    match run_guest(&mut guest, "transform", "abc") {
        Ok(s) => assert_eq!(s, "abc"),
        Err(_) => panic!("transform failed"),
    }
}

/// Appends a section with its id and length.
fn section(m: &mut Vec<u8>, id: u8, content: &[u8]) {
    m.push(id);
    m.push(content.len() as u8);
    m.extend_from_slice(content);
}

/// A guest with `add(a, b)`, `write_i32(addr, val)` and `read_i32(addr)`
/// over one exported page of memory.
fn arithmetic_guest() -> Vec<u8> {
    let mut m = vec![0x00, 0x61, 0x73, 0x6d, 0x01, 0x00, 0x00, 0x00];
    section(
        &mut m,
        0x01,
        &[0x03, 0x60, 0x02, 0x7f, 0x7f, 0x01, 0x7f, 0x60, 0x02, 0x7f, 0x7f, 0x00, 0x60, 0x01, 0x7f, 0x01, 0x7f],
    );
    section(&mut m, 0x03, &[0x03, 0x00, 0x01, 0x02]);
    section(&mut m, 0x05, &[0x01, 0x00, 0x01]);
    let mut exports = vec![0x04];
    exports.extend_from_slice(&[0x03, b'a', b'd', b'd', 0x00, 0x00]);
    exports.extend_from_slice(&[0x09, b'w', b'r', b'i', b't', b'e', b'_', b'i', b'3', b'2', 0x00, 0x01]);
    exports.extend_from_slice(&[0x08, b'r', b'e', b'a', b'd', b'_', b'i', b'3', b'2', 0x00, 0x02]);
    exports.extend_from_slice(&[0x06, b'm', b'e', b'm', b'o', b'r', b'y', 0x02, 0x00]);
    section(&mut m, 0x07, &exports);
    let mut code = vec![0x03];
    let bodies: [&[u8]; 3] = [
        &[0x00, 0x20, 0x00, 0x20, 0x01, 0x6a, 0x0b],
        &[0x00, 0x20, 0x00, 0x20, 0x01, 0x36, 0x02, 0x00, 0x0b],
        &[0x00, 0x20, 0x00, 0x28, 0x02, 0x00, 0x0b],
    ];
    for b in bodies {
        code.push(b.len() as u8);
        code.extend_from_slice(b);
    }
    section(&mut m, 0x0a, &code);
    m
}

#[test]
fn arithmetic_exports() {
    let runtime = small_runtime();
    let module = compile(&runtime, arithmetic_guest());
    let mut guest = match instantiate(&runtime, &module) {
        Ok(g) => g,
        Err(_) => panic!("instantiation failed"),
    };
    assert!(matches!(call_binary(&mut guest, "add", 10, 32), Ok(42)));
    assert!(matches!(call_binary(&mut guest, "add", 100, 200), Ok(300)));
    assert!(matches!(call_binary(&mut guest, "multiply", 6, 7), Err(HostError::Wasm(_))));
    assert!(matches!(call_unary(&mut guest, "add", 1), Err(HostError::Wasm(_))));
}

#[test]
fn instances_do_not_share_memory() {
    let runtime = small_runtime();
    let module = compile(&runtime, arithmetic_guest());
    let mut a = match instantiate(&runtime, &module) {
        Ok(g) => g,
        Err(_) => panic!("instantiation failed"),
    };
    let mut b = match instantiate(&runtime, &module) {
        Ok(g) => g,
        Err(_) => panic!("instantiation failed"),
    };
    let secret: i32 = 0x53_45_43_52;
    assert!(call_store(&mut a, "write_i32", 0, secret).is_ok());
    assert!(matches!(call_unary(&mut a, "read_i32", 0), Ok(v) if v == secret));
    assert!(matches!(call_unary(&mut b, "read_i32", 0), Ok(0)));
    // A store past the single page traps.
    assert!(matches!(call_store(&mut a, "write_i32", 65534, 1), Err(HostError::Wasm(_))));
}

#[test]
fn modules_of_another_runtime_are_refused() {
    let a = small_runtime();
    let b = small_runtime();
    let module = compile(&a, arithmetic_guest());
    assert!(matches!(instantiate(&b, &module), Err(HostError::Wasm(_))));
    assert!(matches!(a.load_module(&[0x00, 0x61, 0x73]), Err(HostError::Wasm(_))));
}
