//! The embedding side: instantiating guest modules with Wasmtime and calling
//! a guest's text-to-text export through its linear memory.
//!
//! The host asks the guest's `alloc` export for room for the input, copies
//! the input's bytes there, calls the export with the address and length,
//! splits the returned `i64` into the output's address and length, copies
//! the output out and decodes it as UTF-8.
use vstd::prelude::*;
use vstd::string::*;
use vstd::utf8::{decode_utf8, valid_utf8};
use crate::abi::{law_unpack_inverts_pack, packed_output, unpack_output, unpacked_len, unpacked_ptr};
use crate::wasm::{
    call_binary_handle, call_effect_handle, call_span_handle, call_unary_handle, find_binary,
    find_effect, find_memory, find_span, find_unary, new_instance, new_store, read_memory,
    write_memory,
};
pub use crate::wasm::{same_instance, EngineSettings, GuestEvent, GuestInstance, GuestModule, GuestRuntime};

verus! {

broadcast use vstd::string::group_string_axioms;

/// Why a call into a guest failed.
pub enum HostError {
    /// Wasmtime refused: the engine or the module could not be built,
    /// instantiation failed, an export is missing or has another type, or the
    /// guest trapped.
    Wasm(anyhow::Error),
    /// The guest exports no linear memory named `memory`.
    MissingMemory,
    /// A copy into or out of the guest's memory fell outside it.
    MemoryAccess,
    /// The guest's output is not valid UTF-8.
    InvalidUtf8,
}

/// The text a guest's output bytes decode to, or `InvalidUtf8`.
pub fn guest_output_text(bytes: &[u8]) -> (r: Result<String, HostError>)
    ensures
        r is Ok <==> valid_utf8(bytes@),
        r matches Ok(s) ==> s@ == decode_utf8(bytes@),
        r matches Err(e) ==> e is InvalidUtf8,
{
    match crate::service::utf8_text(bytes) {
        Some(s) => Ok(s),
        None => Err(HostError::InvalidUtf8),
    }
}

/// The length that the host hands the guest for `input`: its byte length,
/// truncated to the guest's 32-bit integers as an `as` cast does.
pub fn guest_length(input: &str) -> (n: i32)
    ensures
        n == input.len() as i32,
{
    input.len() as i32
}

/// A buffer of `n` zero bytes.
fn zero_bytes(n: usize) -> (v: Vec<u8>)
    ensures
        v@ == Seq::new(n as nat, |i: int| 0u8),
{
    let mut v: Vec<u8> = Vec::new();
    let mut i: usize = 0;
    while i < n
        invariant
            i <= n,
            v@ == Seq::new(i as nat, |k: int| 0u8),
        decreases n - i,
    {
        v.push(0u8);
        assert(v@ =~= Seq::new((i + 1) as nat, |k: int| 0u8));
        i = i + 1;
    }
    v
}

/// The steps of one successful text call, in order: `alloc` is looked up and
/// found, then `export`; `alloc` with the input's length answers `ptr`; the
/// memory export `memory` is looked up and found; the input's bytes go to it
/// at `ptr`; `export` with `(ptr, len)` answers `packed`; `out` comes back
/// from the address that `packed` names.
pub open spec fn text_exchange(
    export: Seq<char>,
    len: i32,
    ptr: i32,
    input: Seq<u8>,
    packed: i64,
    out: Seq<u8>,
) -> Seq<GuestEvent> {
    seq![
        GuestEvent::Looked { export: "alloc"@, found: true },
        GuestEvent::Looked { export: export, found: true },
        GuestEvent::Called { export: "alloc"@, args: seq![len as int], results: seq![ptr as int] },
        GuestEvent::MemoryLooked { memory: "memory"@, found: true },
        GuestEvent::Wrote { memory: "memory"@, offset: (ptr as usize) as int, bytes: input },
        GuestEvent::Called {
            export: export,
            args: seq![ptr as int, len as int],
            results: seq![packed as int],
        },
        GuestEvent::Read { memory: "memory"@, offset: unpacked_ptr(packed), bytes: out },
    ]
}

/// How a text call of `export` on `input` went, from the guest's record
/// `before` and `after` it and its result `r`. The call stops at the first
/// step that fails and reports that step's error: a lookup or a call that
/// Wasmtime refuses gives `Wasm`, a missing memory export `MissingMemory`, a
/// copy that leaves the memory `MemoryAccess`, and output that is not UTF-8
/// `InvalidUtf8`. Every step before the failing one went as in
/// `text_exchange`; the length handed over is the input's byte length as an
/// `i32`.
pub open spec fn text_call(
    before: Seq<GuestEvent>,
    after: Seq<GuestEvent>,
    export: Seq<char>,
    input: &str,
    r: Result<String, HostError>,
) -> bool {
    let len = input.len() as i32;
    let bytes = input.spec_bytes();
    match r {
        Ok(s) => exists|ptr: i32, packed: i64, out: Seq<u8>|
            {
                &&& after == before + #[trigger] text_exchange(export, len, ptr, bytes, packed, out)
                &&& out.len() == unpacked_len(packed)
                &&& valid_utf8(out)
                &&& s@ == decode_utf8(out)
            },
        Err(HostError::InvalidUtf8) => exists|ptr: i32, packed: i64, out: Seq<u8>|
            {
                &&& after == before + #[trigger] text_exchange(export, len, ptr, bytes, packed, out)
                &&& out.len() == unpacked_len(packed)
                &&& !valid_utf8(out)
            },
        Err(HostError::MissingMemory) => exists|ptr: i32|
            after == before + #[trigger] text_exchange(export, len, ptr, bytes, 0, seq![]).take(
                3,
            ).push(GuestEvent::MemoryLooked { memory: "memory"@, found: false }),
        Err(HostError::MemoryAccess) => {
            ||| exists|ptr: i32|
                after == before + #[trigger] text_exchange(export, len, ptr, bytes, 0, seq![]).take(
                    4,
                ).push(
                    GuestEvent::WriteFailed {
                        memory: "memory"@,
                        offset: (ptr as usize) as int,
                        bytes: bytes,
                    },
                )
            ||| exists|ptr: i32, packed: i64|
                after == before + #[trigger] text_exchange(
                    export,
                    len,
                    ptr,
                    bytes,
                    packed,
                    seq![],
                ).take(6).push(
                    GuestEvent::ReadFailed {
                        memory: "memory"@,
                        offset: unpacked_ptr(packed),
                        len: unpacked_len(packed),
                    },
                )
        },
        Err(HostError::Wasm(_)) => {
            ||| after == before.push(GuestEvent::Looked { export: "alloc"@, found: false })
            ||| after == before + seq![
                GuestEvent::Looked { export: "alloc"@, found: true },
                GuestEvent::Looked { export: export, found: false },
            ]
            ||| after == before + text_exchange(export, len, 0, bytes, 0, seq![]).take(2).push(
                GuestEvent::CallFailed { export: "alloc"@, args: seq![len as int] },
            )
            ||| exists|ptr: i32|
                #![trigger text_exchange(export, len, ptr, bytes, 0, seq![])]
                after == before + text_exchange(export, len, ptr, bytes, 0, seq![]).take(5).push(
                    GuestEvent::CallFailed { export: export, args: seq![ptr as int, len as int] },
                )
        },
    }
}

/// `read` takes the output from where the answer of `call` says it lies:
/// the address in the high half and the length in the low half of the one
/// `i64` that `call` returned; so a guest that packed address `p` and length
/// `l` has exactly `l` bytes read from `p`.
pub open spec fn reads_what_was_packed(call: GuestEvent, read: GuestEvent) -> bool {
    &&& call matches GuestEvent::Called { results, .. }
    &&& results.len() == 1
    &&& match read {
        GuestEvent::Read { offset, bytes, .. } => {
            &&& offset == unpacked_ptr(results[0] as i64)
            &&& bytes.len() == unpacked_len(results[0] as i64)
            &&& forall|p: i32, l: i32|
                0 <= p && 0 <= l && results[0] == #[trigger] packed_output(p, l) ==> offset == p
                    && bytes.len() == l
        },
        GuestEvent::ReadFailed { offset, len, .. } => {
            &&& offset == unpacked_ptr(results[0] as i64)
            &&& len == unpacked_len(results[0] as i64)
            &&& forall|p: i32, l: i32|
                0 <= p && 0 <= l && results[0] == #[trigger] packed_output(p, l) ==> offset == p
                    && len == l
        },
        _ => false,
    }
}

/// A text call that succeeds calls `export` last but one and then reads the
/// output where the export's answer says it lies, not from the input's
/// address; the result is that output decoded.
pub proof fn law_output_is_read_where_packed(
    before: Seq<GuestEvent>,
    after: Seq<GuestEvent>,
    export: Seq<char>,
    input: &str,
    s: String,
)
    requires
        text_call(before, after, export, input, Ok(s)),
    ensures
        after.len() == before.len() + 7,
        after[after.len() - 2] matches GuestEvent::Called { export: e, .. } && e == export,
        reads_what_was_packed(after[after.len() - 2], after.last()),
        after.last() matches GuestEvent::Read { bytes, .. } && s@ == decode_utf8(bytes),
{
    let len = input.len() as i32;
    let bytes = input.spec_bytes();
    let (ptr, packed, out) = choose|ptr: i32, packed: i64, out: Seq<u8>|
        {
            &&& after == before + #[trigger] text_exchange(export, len, ptr, bytes, packed, out)
            &&& out.len() == unpacked_len(packed)
            &&& valid_utf8(out)
            &&& s@ == decode_utf8(out)
        };
    let steps = text_exchange(export, len, ptr, bytes, packed, out);
    lemma_packed_answer_read(packed);
    assert(after[after.len() - 2] == steps[5]);
    assert(after.last() == steps[6]);
}

/// A text call that fails to copy the output out tried to read it where the
/// export's answer says it lies.
pub proof fn law_failed_read_is_where_packed(
    before: Seq<GuestEvent>,
    after: Seq<GuestEvent>,
    export: Seq<char>,
    input: &str,
)
    requires
        text_call(before, after, export, input, Err(HostError::MemoryAccess)),
        after.last() is ReadFailed,
    ensures
        after.len() == before.len() + 7,
        after[after.len() - 2] matches GuestEvent::Called { export: e, .. } && e == export,
        reads_what_was_packed(after[after.len() - 2], after.last()),
{
    let len = input.len() as i32;
    let bytes = input.spec_bytes();
    if exists|ptr: i32|
        after == before + #[trigger] text_exchange(export, len, ptr, bytes, 0, seq![]).take(
            4,
        ).push(
            GuestEvent::WriteFailed {
                memory: "memory"@,
                offset: (ptr as usize) as int,
                bytes: bytes,
            },
        ) {
        let ptr = choose|ptr: i32|
            after == before + #[trigger] text_exchange(export, len, ptr, bytes, 0, seq![]).take(
                4,
            ).push(
                GuestEvent::WriteFailed {
                    memory: "memory"@,
                    offset: (ptr as usize) as int,
                    bytes: bytes,
                },
            );
        assert(after.last() is WriteFailed);
    } else {
        let (ptr, packed) = choose|ptr: i32, packed: i64|
            after == before + #[trigger] text_exchange(
                export,
                len,
                ptr,
                bytes,
                packed,
                seq![],
            ).take(6).push(
                GuestEvent::ReadFailed {
                    memory: "memory"@,
                    offset: unpacked_ptr(packed),
                    len: unpacked_len(packed),
                },
            );
        lemma_packed_answer_read(packed);
        let steps = text_exchange(export, len, ptr, bytes, packed, seq![]);
        assert(after[after.len() - 2] == steps[5]);
    }
}

/// What a guest packed is what the host unpacks, for every non-negative
/// address and length.
proof fn lemma_packed_answer_read(packed: i64)
    ensures
        forall|p: i32, l: i32|
            0 <= p && 0 <= l && packed as int == #[trigger] packed_output(p, l) ==> {
                &&& unpacked_ptr(packed) == p
                &&& unpacked_len(packed) == l
            },
{
    assert forall|p: i32, l: i32|
        0 <= p && 0 <= l && packed as int == #[trigger] packed_output(p, l) implies {
            &&& unpacked_ptr(packed) == p
            &&& unpacked_len(packed) == l
        } by {
        law_unpack_inverts_pack(p, l);
    }
}

/// A fresh store for the runtime's engine and an instance of `module` in it,
/// with no imports: the new guest runs `module`, nothing else was
/// instantiated in its store, and its record is empty. A module compiled by
/// another engine is refused.
pub fn instantiate(runtime: &GuestRuntime, module: &GuestModule) -> (r: Result<
    GuestInstance,
    HostError,
>)
    ensures
        r matches Ok(g) ==> fresh_instance_of(g, runtime, module),
        r matches Err(e) ==> e is Wasm,
{
    let store = new_store(runtime);
    match new_instance(store, module) {
        Ok(live) => {
            let g = GuestInstance::assemble(live);
            assert(g.store_sources() =~= seq![module.source()]);
            Ok(g)
        },
        Err(e) => Err(HostError::Wasm(e)),
    }
}

/// `g` is a new instance of `module` on `runtime`'s engine: `module` is the
/// only module instantiated in its store, and nothing has been done in it yet.
pub open spec fn fresh_instance_of(g: GuestInstance, runtime: &GuestRuntime, module: &GuestModule) -> bool {
    &&& g.module_source() == module.source()
    &&& g.store_sources() == seq![module.source()]
    &&& g.settings() == runtime.settings()
    &&& module.settings() == runtime.settings()
    &&& g.history() == Seq::<GuestEvent>::empty()
}

/// Calls the guest export `export`, a function from an input's address and
/// length to a packed output, on `input`: looks up `alloc` and `export`,
/// asks `alloc` for room for the input's bytes, copies them into `memory`
/// there, calls `export`, and decodes the bytes at the address and length it
/// packs as UTF-8. What the guest answers at each step is up to the guest;
/// `text_call` states what is handed to it and what is done with each answer.
pub fn run_guest(guest: &mut GuestInstance, export: &str, input: &str) -> (r: Result<
    String,
    HostError,
>)
    ensures
        text_call(old(guest).history(), final(guest).history(), export@, input, r),
        same_instance(old(guest), final(guest)),
        r matches Err(HostError::MissingMemory) ==> !final(guest).has_memory()
            && final(guest).memory_name() == "memory"@,
{
    let ghost before = guest.history();
    let bytes = input.as_bytes();
    let len = guest_length(input);
    proof {
        reveal_strlit("alloc");
        reveal_strlit("memory");
    }
    let ghost ex0 = text_exchange(export@, len, 0, bytes@, 0, seq![]);
    match find_unary(guest, "alloc") {
        Ok(()) => {},
        Err(e) => return Err(HostError::Wasm(e)),
    }
    match find_span(guest, export) {
        Ok(()) => {},
        Err(e) => {
            assert(guest.history() =~= before + seq![
                GuestEvent::Looked { export: "alloc"@, found: true },
                GuestEvent::Looked { export: export@, found: false },
            ]);
            return Err(HostError::Wasm(e));
        },
    }
    let ptr = match call_unary_handle(guest, len) {
        Ok(p) => p,
        Err(e) => {
            assert(guest.history() =~= before + ex0.take(2).push(
                GuestEvent::CallFailed { export: "alloc"@, args: seq![len as int] },
            ));
            return Err(HostError::Wasm(e));
        },
    };
    let ghost ex = text_exchange(export@, len, ptr, bytes@, 0, seq![]);
    assert(guest.history() =~= before + ex.take(3));
    find_memory(guest, "memory");
    if !guest.memory_found() {
        assert(guest.history() =~= before + ex.take(3).push(
            GuestEvent::MemoryLooked { memory: "memory"@, found: false },
        ));
        return Err(HostError::MissingMemory);
    }
    assert(guest.history() =~= before + ex.take(4));
    let offset = #[verifier::truncate] (ptr as usize);
    match write_memory(guest, offset, bytes) {
        Ok(()) => {},
        Err(_) => {
            assert(guest.history() =~= before + ex.take(4).push(
                GuestEvent::WriteFailed {
                    memory: "memory"@,
                    offset: (ptr as usize) as int,
                    bytes: bytes@,
                },
            ));
            return Err(HostError::MemoryAccess);
        },
    }
    assert(guest.history() =~= before + ex.take(5));
    let packed = match call_span_handle(guest, ptr, len) {
        Ok(p) => p,
        Err(e) => {
            assert(guest.history() =~= before + ex.take(5).push(
                GuestEvent::CallFailed { export: export@, args: seq![ptr as int, len as int] },
            ));
            return Err(HostError::Wasm(e));
        },
    };
    let ghost ex6 = text_exchange(export@, len, ptr, bytes@, packed, seq![]);
    assert(guest.history() =~= before + ex6.take(6));
    let (out_ptr, out_len) = unpack_output(packed);
    let mut buf = zero_bytes(out_len);
    match read_memory(guest, out_ptr, &mut buf) {
        Ok(()) => {},
        Err(_) => {
            assert(guest.history() =~= before + ex6.take(6).push(
                GuestEvent::ReadFailed {
                    memory: "memory"@,
                    offset: unpacked_ptr(packed),
                    len: unpacked_len(packed),
                },
            ));
            return Err(HostError::MemoryAccess);
        },
    }
    let ghost full = text_exchange(export@, len, ptr, bytes@, packed, buf@);
    assert(guest.history() =~= before + full);
    guest_output_text(buf.as_slice())
}

/// Sends an event payload to the FaaS guest's `handle_event` export and
/// returns the guest's reply, as `run_guest` does.
pub fn invoke(guest: &mut GuestInstance, event_json: &str) -> (r: Result<String, HostError>)
    ensures
        text_call(old(guest).history(), final(guest).history(), "handle_event"@, event_json, r),
        same_instance(old(guest), final(guest)),
{
    run_guest(guest, "handle_event", event_json)
}

/// Calls the guest export `name`, a function from one `i32` to one `i32`,
/// with `arg`, and returns its answer.
pub fn call_unary(guest: &mut GuestInstance, name: &str, arg: i32) -> (r: Result<i32, HostError>)
    ensures
        same_instance(old(guest), final(guest)),
        r matches Ok(v) ==> final(guest).history() == old(guest).history().push(
            GuestEvent::Looked { export: name@, found: true },
        ).push(GuestEvent::Called { export: name@, args: seq![arg as int], results: seq![v as int] }),
        r is Err ==> {
            ||| final(guest).history() == old(guest).history().push(
                GuestEvent::Looked { export: name@, found: false },
            )
            ||| final(guest).history() == old(guest).history().push(
                GuestEvent::Looked { export: name@, found: true },
            ).push(GuestEvent::CallFailed { export: name@, args: seq![arg as int] })
        },
        r matches Err(e) ==> e is Wasm,
{
    match find_unary(guest, name) {
        Ok(()) => {},
        Err(e) => return Err(HostError::Wasm(e)),
    }
    match call_unary_handle(guest, arg) {
        Ok(v) => Ok(v),
        Err(e) => Err(HostError::Wasm(e)),
    }
}

/// How a failed call of the export `name` with `(a, b)` went, from the
/// guest's record `before` and `after` it: the export was not found with the
/// type asked for, or it was found and the call failed.
pub open spec fn pair_call_failed(
    before: Seq<GuestEvent>,
    after: Seq<GuestEvent>,
    name: Seq<char>,
    a: i32,
    b: i32,
) -> bool {
    ||| after == before.push(GuestEvent::Looked { export: name, found: false })
    ||| after == before.push(GuestEvent::Looked { export: name, found: true }).push(
        GuestEvent::CallFailed { export: name, args: seq![a as int, b as int] },
    )
}

/// Calls the guest export `name`, a function from two `i32`s to one `i32`,
/// with `a` and `b`, and returns its answer.
pub fn call_binary(guest: &mut GuestInstance, name: &str, a: i32, b: i32) -> (r: Result<
    i32,
    HostError,
>)
    ensures
        same_instance(old(guest), final(guest)),
        r matches Ok(v) ==> final(guest).history() == old(guest).history().push(
            GuestEvent::Looked { export: name@, found: true },
        ).push(
            GuestEvent::Called {
                export: name@,
                args: seq![a as int, b as int],
                results: seq![v as int],
            },
        ),
        r is Err ==> pair_call_failed(old(guest).history(), final(guest).history(), name@, a, b),
        r matches Err(e) ==> e is Wasm,
{
    match find_binary(guest, name) {
        Ok(()) => {},
        Err(e) => return Err(HostError::Wasm(e)),
    }
    match call_binary_handle(guest, a, b) {
        Ok(v) => Ok(v),
        Err(e) => Err(HostError::Wasm(e)),
    }
}

/// Calls the guest export `name`, a function from two `i32`s to nothing,
/// such as a store of a value at an address, with `a` and `b`.
pub fn call_store(guest: &mut GuestInstance, name: &str, a: i32, b: i32) -> (r: Result<
    (),
    HostError,
>)
    ensures
        same_instance(old(guest), final(guest)),
        r is Ok ==> final(guest).history() == old(guest).history().push(
            GuestEvent::Looked { export: name@, found: true },
        ).push(
            GuestEvent::Called {
                export: name@,
                args: seq![a as int, b as int],
                results: Seq::<int>::empty(),
            },
        ),
        r is Err ==> pair_call_failed(old(guest).history(), final(guest).history(), name@, a, b),
        r matches Err(e) ==> e is Wasm,
{
    match find_effect(guest, name) {
        Ok(()) => {},
        Err(e) => return Err(HostError::Wasm(e)),
    }
    match call_effect_handle(guest, a, b) {
        Ok(()) => Ok(()),
        Err(e) => Err(HostError::Wasm(e)),
    }
}

/// A loaded plugin: a named guest instance.
pub struct Plugin {
    name: String,
    guest: GuestInstance,
}

impl Plugin {
    /// Instantiates `module` as the plugin `name`, in a store of its own.
    pub fn load(runtime: &GuestRuntime, name: &str, module: &GuestModule) -> (r: Result<
        Plugin,
        HostError,
    >)
        ensures
            r matches Ok(p) ==> p.name_view() == name@ && fresh_instance_of(p.guest_view(), runtime, module),
            r matches Err(e) ==> e is Wasm,
    {
        match instantiate(runtime, module) {
            Ok(guest) => Ok(Plugin { name: name.to_owned(), guest }),
            Err(e) => Err(e),
        }
    }

    /// The plugin's guest instance.
    pub closed spec fn guest_view(&self) -> GuestInstance {
        self.guest
    }

    /// The plugin's name.
    pub closed spec fn name_view(&self) -> Seq<char> {
        self.name@
    }

    /// Every lookup, call and copy made in the plugin's guest, failed ones
    /// included, oldest first.
    pub closed spec fn history(&self) -> Seq<GuestEvent> {
        self.guest.history()
    }

    /// The plugin's name.
    pub fn name(&self) -> (s: &str)
        ensures
            s@ == self.name_view(),
    {
        self.name.as_str()
    }

    /// Runs the plugin's `transform` export on `input`, as `run_guest` does.
    pub fn transform(&mut self, input: &str) -> (r: Result<String, HostError>)
        ensures
            final(self).name_view() == old(self).name_view(),
            same_instance(&old(self).guest_view(), &final(self).guest_view()),
            text_call(old(self).history(), final(self).history(), "transform"@, input, r),
    {
        run_guest(&mut self.guest, "transform", input)
    }
}

} // verus!
