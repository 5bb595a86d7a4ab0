//! The Wasmtime side of hosting a guest: engines built here, guest instances
//! that keep their store, instance and export handles together, and the
//! wrappers that call into Wasmtime.
//!
//! Each wrapper that looks up an export, calls into a guest or copies through
//! its memory reports what it did, and whether it succeeded, in the guest's
//! record (`GuestInstance::history`). Only these
//! wrappers change the record; code outside this module cannot reach it.
use vstd::prelude::*;
use wasmtime::{Config, Engine, Instance, Memory, MemoryAccessError, Module, Store, TypedFunc};
use crate::host::HostError;

verus! {

#[verifier::external_type_specification]
#[verifier::external_body]
pub struct ExConfig(Config);

#[verifier::external_type_specification]
#[verifier::external_body]
pub struct ExEngine(Engine);

#[verifier::external_type_specification]
#[verifier::external_body]
pub struct ExModule(Module);

#[verifier::external_type_specification]
#[verifier::external_body]
#[verifier::reject_recursive_types(T)]
pub struct ExStore<T: 'static>(Store<T>);

#[verifier::external_type_specification]
#[verifier::external_body]
pub struct ExInstance(Instance);

#[verifier::external_type_specification]
#[verifier::external_body]
pub struct ExMemory(Memory);

#[verifier::external_type_specification]
#[verifier::external_body]
#[verifier::reject_recursive_types(Params)]
#[verifier::reject_recursive_types(Results)]
pub struct ExTypedFunc<Params, Results>(TypedFunc<Params, Results>);

#[verifier::external_type_specification]
#[verifier::external_body]
pub struct ExMemoryAccessError(MemoryAccessError);

#[verifier::external_type_specification]
#[verifier::external_body]
pub struct ExAnyhowError(anyhow::Error);

/// One exchange between the library and a guest: what was handed to the
/// guest and what came back.
pub ghost enum GuestEvent {
    /// The export `export` was called with `args` and returned `results`.
    Called { export: Seq<char>, args: Seq<int>, results: Seq<int> },
    /// `bytes` were copied into the guest's memory export `memory` at `offset`.
    Wrote { memory: Seq<char>, offset: int, bytes: Seq<u8> },
    /// `bytes` were copied out of the guest's memory export `memory` from `offset`.
    Read { memory: Seq<char>, offset: int, bytes: Seq<u8> },
    /// The function export `export` was looked up with the type of the slot
    /// it was meant for; `found` tells whether an export of that name and
    /// type exists.
    Looked { export: Seq<char>, found: bool },
    /// The memory export `memory` was looked up; `found` tells whether it
    /// exists.
    MemoryLooked { memory: Seq<char>, found: bool },
    /// The export `export` was called with `args` and trapped or failed.
    CallFailed { export: Seq<char>, args: Seq<int> },
    /// Copying `bytes` into the memory export `memory` at `offset` failed
    /// because the range leaves the memory; nothing was written.
    WriteFailed { memory: Seq<char>, offset: int, bytes: Seq<u8> },
    /// Copying `len` bytes out of the memory export `memory` from `offset`
    /// failed because the range leaves the memory.
    ReadFailed { memory: Seq<char>, offset: int, len: int },
}

/// The engine settings this library chose. `None` leaves a setting at
/// Wasmtime's default; `Some(bytes)` is the value the library set.
pub ghost struct EngineSettings {
    /// The address space each linear memory reserves.
    pub memory_reservation: Option<u64>,
    /// The guard region after each linear memory.
    pub memory_guard_size: Option<u64>,
    /// The room kept for each linear memory to grow into.
    pub memory_reservation_for_growth: Option<u64>,
}

/// Every setting left at Wasmtime's default.
pub open spec fn default_settings() -> EngineSettings {
    EngineSettings {
        memory_reservation: None,
        memory_guard_size: None,
        memory_reservation_for_growth: None,
    }
}

/// A Wasmtime configuration together with the settings made on it here.
struct GuestConfig {
    config: Config,
    settings: Ghost<EngineSettings>,
}

/// A Wasmtime engine built by this library, with the settings it was built
/// with. Its configuration never enables async support (`Config::new` leaves
/// it off and nothing here turns it on), so every store made from it may be
/// called synchronously.
pub struct GuestRuntime {
    engine: Engine,
    settings: Ghost<EngineSettings>,
}

impl GuestRuntime {
    /// The settings the engine was built with.
    pub closed spec fn settings(&self) -> EngineSettings {
        self.settings@
    }
}

/// A module compiled by a `GuestRuntime`'s engine, with the bytes it was
/// compiled from and that engine's settings.
pub struct GuestModule {
    module: Module,
    source: Ghost<Seq<u8>>,
    settings: Ghost<EngineSettings>,
}

impl GuestModule {
    /// The WebAssembly binary the module was compiled from.
    pub closed spec fn source(&self) -> Seq<u8> {
        self.source@
    }

    /// The settings of the engine the module was compiled for.
    pub closed spec fn settings(&self) -> EngineSettings {
        self.settings@
    }
}

/// A store of this library's making: made from a `GuestRuntime`'s engine and
/// so never async. It keeps the engine's settings and the sources of the
/// modules instantiated in it, oldest first.
pub struct GuestStore {
    store: Store<()>,
    settings: Ghost<EngineSettings>,
    sources: Ghost<Seq<Seq<u8>>>,
}

impl GuestStore {
    /// The settings of the engine the store was made for.
    pub closed spec fn settings(&self) -> EngineSettings {
        self.settings@
    }

    /// The sources of the modules instantiated in the store, oldest first.
    pub closed spec fn sources(&self) -> Seq<Seq<u8>> {
        self.sources@
    }
}

/// An instance together with the store that owns it and the source of the
/// module it instantiates.
pub struct LiveInstance {
    store: GuestStore,
    instance: Instance,
    source: Ghost<Seq<u8>>,
}

impl LiveInstance {
    /// The source of the module instantiated.
    pub closed spec fn source(&self) -> Seq<u8> {
        self.source@
    }

    /// The store that owns the instance.
    pub closed spec fn store(&self) -> &GuestStore {
        &self.store
    }
}

/// Export handles looked up in a guest, one slot per function shape, each
/// with the export name it was looked up under.
struct Handles {
    unary: Option<TypedFunc<i32, i32>>,
    unary_name: Ghost<Seq<char>>,
    span: Option<TypedFunc<(i32, i32), i64>>,
    span_name: Ghost<Seq<char>>,
    binary: Option<TypedFunc<(i32, i32), i32>>,
    binary_name: Ghost<Seq<char>>,
    effect: Option<TypedFunc<(i32, i32), ()>>,
    effect_name: Ghost<Seq<char>>,
    memory: Option<Memory>,
    memory_name: Ghost<Seq<char>>,
}

/// A guest module instantiated in a store of its own. The store, the
/// instance and every handle looked up in it stay together, so each Wasmtime
/// call is made with the store that owns what it touches (Wasmtime panics
/// otherwise).
pub struct GuestInstance {
    live: LiveInstance,
    handles: Handles,
    history: Ghost<Seq<GuestEvent>>,
}

impl GuestInstance {
    /// Every lookup, call and copy made in this guest, failed ones included,
    /// oldest first, as the wrappers that made them report.
    pub closed spec fn history(&self) -> Seq<GuestEvent> {
        self.history@
    }

    /// The WebAssembly binary of the module this guest instantiates.
    pub closed spec fn module_source(&self) -> Seq<u8> {
        self.live.source@
    }

    /// The sources of the modules instantiated in this guest's store, oldest
    /// first.
    pub closed spec fn store_sources(&self) -> Seq<Seq<u8>> {
        self.live.store.sources@
    }

    /// The settings of the engine this guest runs on.
    pub closed spec fn settings(&self) -> EngineSettings {
        self.live.store.settings@
    }

    /// An `i32 -> i32` export has been looked up.
    pub closed spec fn has_unary(&self) -> bool {
        self.handles.unary is Some
    }

    /// The name the `i32 -> i32` export was looked up under.
    pub closed spec fn unary_name(&self) -> Seq<char> {
        self.handles.unary_name@
    }

    /// An `(i32, i32) -> i64` export has been looked up.
    pub closed spec fn has_span(&self) -> bool {
        self.handles.span is Some
    }

    /// The name the `(i32, i32) -> i64` export was looked up under.
    pub closed spec fn span_name(&self) -> Seq<char> {
        self.handles.span_name@
    }

    /// An `(i32, i32) -> i32` export has been looked up.
    pub closed spec fn has_binary(&self) -> bool {
        self.handles.binary is Some
    }

    /// The name the `(i32, i32) -> i32` export was looked up under.
    pub closed spec fn binary_name(&self) -> Seq<char> {
        self.handles.binary_name@
    }

    /// An `(i32, i32) -> ()` export has been looked up.
    pub closed spec fn has_effect(&self) -> bool {
        self.handles.effect is Some
    }

    /// The name the `(i32, i32) -> ()` export was looked up under.
    pub closed spec fn effect_name(&self) -> Seq<char> {
        self.handles.effect_name@
    }

    /// A memory export has been found.
    pub closed spec fn has_memory(&self) -> bool {
        self.handles.memory is Some
    }

    /// The name the memory export was looked up under.
    pub closed spec fn memory_name(&self) -> Seq<char> {
        self.handles.memory_name@
    }

    /// A guest of `live` with no handles and an empty record.
    pub(crate) fn assemble(live: LiveInstance) -> (g: GuestInstance)
        ensures
            g.history() == Seq::<GuestEvent>::empty(),
            g.module_source() == live.source(),
            g.store_sources() == live.store().sources(),
            g.settings() == live.store().settings(),
    {
        GuestInstance {
            live,
            handles: Handles {
                unary: None,
                unary_name: Ghost(Seq::empty()),
                span: None,
                span_name: Ghost(Seq::empty()),
                binary: None,
                binary_name: Ghost(Seq::empty()),
                effect: None,
                effect_name: Ghost(Seq::empty()),
                memory: None,
                memory_name: Ghost(Seq::empty()),
            },
            history: Ghost(Seq::empty()),
        }
    }

    /// Whether a memory export has been found.
    pub fn memory_found(&self) -> (b: bool)
        ensures
            b == self.has_memory(),
    {
        self.handles.memory.is_some()
    }
}

/// `a` and `b` hold the same `i32 -> i32` handle slot.
pub open spec fn keeps_unary(a: &GuestInstance, b: &GuestInstance) -> bool {
    a.has_unary() == b.has_unary() && a.unary_name() == b.unary_name()
}

/// `a` and `b` hold the same `(i32, i32) -> i64` handle slot.
pub open spec fn keeps_span(a: &GuestInstance, b: &GuestInstance) -> bool {
    a.has_span() == b.has_span() && a.span_name() == b.span_name()
}

/// `a` and `b` hold the same `(i32, i32) -> i32` handle slot.
pub open spec fn keeps_binary(a: &GuestInstance, b: &GuestInstance) -> bool {
    a.has_binary() == b.has_binary() && a.binary_name() == b.binary_name()
}

/// `a` and `b` hold the same `(i32, i32) -> ()` handle slot.
pub open spec fn keeps_effect(a: &GuestInstance, b: &GuestInstance) -> bool {
    a.has_effect() == b.has_effect() && a.effect_name() == b.effect_name()
}

/// `a` and `b` hold the same memory slot.
pub open spec fn keeps_memory(a: &GuestInstance, b: &GuestInstance) -> bool {
    a.has_memory() == b.has_memory() && a.memory_name() == b.memory_name()
}

/// `a` and `b` are the same instance: of the same module, in a store where
/// the same modules were instantiated, on an engine with the same settings.
pub open spec fn same_instance(a: &GuestInstance, b: &GuestInstance) -> bool {
    &&& a.module_source() == b.module_source()
    &&& a.store_sources() == b.store_sources()
    &&& a.settings() == b.settings()
}

/// `a` and `b` hold the same handles in every slot.
pub open spec fn keeps_handles(a: &GuestInstance, b: &GuestInstance) -> bool {
    keeps_unary(a, b) && keeps_span(a, b) && keeps_binary(a, b) && keeps_effect(a, b)
        && keeps_memory(a, b)
}

impl GuestRuntime {
    /// An engine with Wasmtime's default configuration.
    pub fn new() -> (r: Result<GuestRuntime, HostError>)
        ensures
            r matches Ok(rt) ==> rt.settings() == default_settings(),
            r matches Err(e) ==> e is Wasm,
    {
        let config = config_new();
        match engine_new(&config) {
            Ok(rt) => Ok(rt),
            Err(e) => Err(HostError::Wasm(e)),
        }
    }

    /// An engine whose linear memories reserve `reservation` bytes of address
    /// space, with `guard_size` guard bytes and `growth` bytes kept for growth;
    /// otherwise Wasmtime's defaults.
    pub fn with_memory_limits(reservation: u64, guard_size: u64, growth: u64) -> (r: Result<
        GuestRuntime,
        HostError,
    >)
        ensures
            r matches Ok(rt) ==> rt.settings() == (EngineSettings {
                memory_reservation: Some(reservation),
                memory_guard_size: Some(guard_size),
                memory_reservation_for_growth: Some(growth),
            }),
            r matches Err(e) ==> e is Wasm,
    {
        let mut config = config_new();
        config_memory_reservation(&mut config, reservation);
        config_memory_guard_size(&mut config, guard_size);
        config_memory_reservation_for_growth(&mut config, growth);
        match engine_new(&config) {
            Ok(rt) => Ok(rt),
            Err(e) => Err(HostError::Wasm(e)),
        }
    }

    /// Compiles the WebAssembly binary `wasm` for this engine.
    pub fn load_module(&self, wasm: &[u8]) -> (r: Result<GuestModule, HostError>)
        ensures
            r matches Ok(m) ==> m.source() == wasm@ && m.settings() == self.settings(),
            r matches Err(e) ==> e is Wasm,
    {
        match module_new(self, wasm) {
            Ok(m) => Ok(m),
            Err(e) => Err(HostError::Wasm(e)),
        }
    }
}

/// A configuration with Wasmtime's defaults, by `Config::new` (async support
/// is off there); no setting has been made on it.
#[verifier::external_body]
fn config_new() -> (c: GuestConfig)
    ensures
        c.settings@ == default_settings(),
{
    GuestConfig { config: Config::new(), settings: Ghost(default_settings()) }
}

/// Sets how much address space a linear memory reserves, by
/// `Config::memory_reservation`.
#[verifier::external_body]
fn config_memory_reservation(config: &mut GuestConfig, bytes: u64)
    ensures
        final(config).settings@ == (EngineSettings {
            memory_reservation: Some(bytes),
            ..old(config).settings@
        }),
{
    config.config.memory_reservation(bytes);
}

/// Sets the guard region after a linear memory, by `Config::memory_guard_size`.
#[verifier::external_body]
fn config_memory_guard_size(config: &mut GuestConfig, bytes: u64)
    ensures
        final(config).settings@ == (EngineSettings {
            memory_guard_size: Some(bytes),
            ..old(config).settings@
        }),
{
    config.config.memory_guard_size(bytes);
}

/// Sets the room kept for a linear memory's growth, by
/// `Config::memory_reservation_for_growth`.
#[verifier::external_body]
fn config_memory_reservation_for_growth(config: &mut GuestConfig, bytes: u64)
    ensures
        final(config).settings@ == (EngineSettings {
            memory_reservation_for_growth: Some(bytes),
            ..old(config).settings@
        }),
{
    config.config.memory_reservation_for_growth(bytes);
}

/// An engine for `config`, by `Engine::new`, which refuses a configuration
/// that this host cannot run; the engine keeps the configuration's settings.
#[verifier::external_body]
fn engine_new(config: &GuestConfig) -> (r: Result<GuestRuntime, anyhow::Error>)
    ensures
        r matches Ok(rt) ==> rt.settings() == config.settings@,
{
    match Engine::new(&config.config) {
        Ok(engine) => Ok(GuestRuntime { engine, settings: Ghost(config.settings@) }),
        Err(e) => Err(e),
    }
}

/// Compiles the WebAssembly binary `wasm` for the runtime's engine, by
/// `Module::new`; the module keeps the bytes it was compiled from.
#[verifier::external_body]
fn module_new(runtime: &GuestRuntime, wasm: &[u8]) -> (r: Result<GuestModule, anyhow::Error>)
    ensures
        r matches Ok(m) ==> m.source() == wasm@ && m.settings() == runtime.settings(),
{
    match Module::new(&runtime.engine, wasm) {
        Ok(module) => Ok(
            GuestModule { module, source: Ghost(wasm@), settings: Ghost(runtime.settings@) },
        ),
        Err(e) => Err(e),
    }
}

/// A new store for the runtime's engine with no host data, by `Store::new`;
/// nothing has been instantiated in it yet.
#[verifier::external_body]
pub(crate) fn new_store(runtime: &GuestRuntime) -> (s: GuestStore)
    ensures
        s.settings() == runtime.settings(),
        s.sources() == Seq::<Seq<u8>>::empty(),
{
    GuestStore {
        store: Store::new(&runtime.engine, ()),
        settings: Ghost(runtime.settings@),
        sources: Ghost(Seq::empty()),
    }
}

/// Instantiates `module` in `store` with no imports, by `Instance::new`, and
/// keeps the instance with its store. The store's engine is never async, so
/// the call does not panic. A module compiled by another engine, or one that
/// needs imports, is refused with an error; so on success the module was
/// compiled by the store's engine and shares its settings.
#[verifier::external_body]
pub(crate) fn new_instance(store: GuestStore, module: &GuestModule) -> (r: Result<
    LiveInstance,
    anyhow::Error,
>)
    ensures
        r matches Ok(l) ==> {
            &&& l.source() == module.source()
            &&& l.store().sources() == store.sources().push(module.source())
            &&& l.store().settings() == store.settings()
            &&& module.settings() == store.settings()
        },
{
    let mut store = store;
    match Instance::new(&mut store.store, &module.module, &[]) {
        Ok(instance) => Ok(LiveInstance { store, instance, source: Ghost(module.source@) }),
        Err(e) => Err(e),
    }
}

/// Looks up the export `name` as a function from one `i32` to one `i32`, by
/// `Instance::get_typed_func`, and keeps it in the guest's unary slot under
/// that name; the lookup is recorded.
#[verifier::external_body]
pub(crate) fn find_unary(guest: &mut GuestInstance, name: &str) -> (r: Result<(), anyhow::Error>)
    ensures
        same_instance(old(guest), final(guest)),
        final(guest).history() == old(guest).history().push(
            GuestEvent::Looked { export: name@, found: r is Ok },
        ),
        keeps_span(old(guest), final(guest)),
        keeps_binary(old(guest), final(guest)),
        keeps_effect(old(guest), final(guest)),
        keeps_memory(old(guest), final(guest)),
        r is Ok ==> final(guest).has_unary() && final(guest).unary_name() == name@,
        r is Err ==> keeps_unary(old(guest), final(guest)),
{
    match guest.live.instance.get_typed_func::<i32, i32>(&mut guest.live.store.store, name) {
        Ok(f) => {
            guest.handles.unary = Some(f);
            Ok(())
        },
        Err(e) => Err(e),
    }
}

/// Looks up the export `name` as a function from an address and a length to
/// one `i64`, by `Instance::get_typed_func`, and keeps it in the guest's span
/// slot under that name; the lookup is recorded.
#[verifier::external_body]
pub(crate) fn find_span(guest: &mut GuestInstance, name: &str) -> (r: Result<(), anyhow::Error>)
    ensures
        same_instance(old(guest), final(guest)),
        final(guest).history() == old(guest).history().push(
            GuestEvent::Looked { export: name@, found: r is Ok },
        ),
        keeps_unary(old(guest), final(guest)),
        keeps_binary(old(guest), final(guest)),
        keeps_effect(old(guest), final(guest)),
        keeps_memory(old(guest), final(guest)),
        r is Ok ==> final(guest).has_span() && final(guest).span_name() == name@,
        r is Err ==> keeps_span(old(guest), final(guest)),
{
    match guest.live.instance.get_typed_func::<(i32, i32), i64>(&mut guest.live.store.store, name) {
        Ok(f) => {
            guest.handles.span = Some(f);
            Ok(())
        },
        Err(e) => Err(e),
    }
}

/// Looks up the export `name` as a function from two `i32`s to one `i32`, by
/// `Instance::get_typed_func`, and keeps it in the guest's binary slot under
/// that name; the lookup is recorded.
#[verifier::external_body]
pub(crate) fn find_binary(guest: &mut GuestInstance, name: &str) -> (r: Result<(), anyhow::Error>)
    ensures
        same_instance(old(guest), final(guest)),
        final(guest).history() == old(guest).history().push(
            GuestEvent::Looked { export: name@, found: r is Ok },
        ),
        keeps_unary(old(guest), final(guest)),
        keeps_span(old(guest), final(guest)),
        keeps_effect(old(guest), final(guest)),
        keeps_memory(old(guest), final(guest)),
        r is Ok ==> final(guest).has_binary() && final(guest).binary_name() == name@,
        r is Err ==> keeps_binary(old(guest), final(guest)),
{
    match guest.live.instance.get_typed_func::<(i32, i32), i32>(&mut guest.live.store.store, name) {
        Ok(f) => {
            guest.handles.binary = Some(f);
            Ok(())
        },
        Err(e) => Err(e),
    }
}

/// Looks up the export `name` as a function from two `i32`s to nothing, by
/// `Instance::get_typed_func`, and keeps it in the guest's effect slot under
/// that name; the lookup is recorded.
#[verifier::external_body]
pub(crate) fn find_effect(guest: &mut GuestInstance, name: &str) -> (r: Result<(), anyhow::Error>)
    ensures
        same_instance(old(guest), final(guest)),
        final(guest).history() == old(guest).history().push(
            GuestEvent::Looked { export: name@, found: r is Ok },
        ),
        keeps_unary(old(guest), final(guest)),
        keeps_span(old(guest), final(guest)),
        keeps_binary(old(guest), final(guest)),
        keeps_memory(old(guest), final(guest)),
        r is Ok ==> final(guest).has_effect() && final(guest).effect_name() == name@,
        r is Err ==> keeps_effect(old(guest), final(guest)),
{
    match guest.live.instance.get_typed_func::<(i32, i32), ()>(&mut guest.live.store.store, name) {
        Ok(f) => {
            guest.handles.effect = Some(f);
            Ok(())
        },
        Err(e) => Err(e),
    }
}

/// Looks up the memory export `name`, by `Instance::get_memory`, and keeps
/// what it finds (or that nothing was found) in the guest's memory slot under
/// that name; the lookup is recorded.
#[verifier::external_body]
pub(crate) fn find_memory(guest: &mut GuestInstance, name: &str)
    ensures
        same_instance(old(guest), final(guest)),
        final(guest).history() == old(guest).history().push(
            GuestEvent::MemoryLooked { memory: name@, found: final(guest).has_memory() },
        ),
        keeps_unary(old(guest), final(guest)),
        keeps_span(old(guest), final(guest)),
        keeps_binary(old(guest), final(guest)),
        keeps_effect(old(guest), final(guest)),
        final(guest).memory_name() == name@,
{
    guest.handles.memory = guest.live.instance.get_memory(&mut guest.live.store.store, name);
}

/// Calls the function in the guest's unary slot with `arg`, by
/// `TypedFunc::call`; the call is recorded under the slot's export name, with
/// what it returned or that it failed.
#[verifier::external_body]
pub(crate) fn call_unary_handle(guest: &mut GuestInstance, arg: i32) -> (r: Result<
    i32,
    anyhow::Error,
>)
    requires
        old(guest).has_unary(),
    ensures
        same_instance(old(guest), final(guest)),
        keeps_handles(old(guest), final(guest)),
        r matches Ok(v) ==> final(guest).history() == old(guest).history().push(
            GuestEvent::Called {
                export: old(guest).unary_name(),
                args: seq![arg as int],
                results: seq![v as int],
            },
        ),
        r is Err ==> final(guest).history() == old(guest).history().push(
            GuestEvent::CallFailed { export: old(guest).unary_name(), args: seq![arg as int] },
        ),
{
    guest.handles.unary.as_ref().unwrap().call(&mut guest.live.store.store, arg)
}

/// Calls the function in the guest's span slot with `(ptr, len)`, by
/// `TypedFunc::call`; the call is recorded under the slot's export name, with
/// what it returned or that it failed.
#[verifier::external_body]
pub(crate) fn call_span_handle(guest: &mut GuestInstance, ptr: i32, len: i32) -> (r: Result<
    i64,
    anyhow::Error,
>)
    requires
        old(guest).has_span(),
    ensures
        same_instance(old(guest), final(guest)),
        keeps_handles(old(guest), final(guest)),
        r matches Ok(v) ==> final(guest).history() == old(guest).history().push(
            GuestEvent::Called {
                export: old(guest).span_name(),
                args: seq![ptr as int, len as int],
                results: seq![v as int],
            },
        ),
        r is Err ==> final(guest).history() == old(guest).history().push(
            GuestEvent::CallFailed {
                export: old(guest).span_name(),
                args: seq![ptr as int, len as int],
            },
        ),
{
    guest.handles.span.as_ref().unwrap().call(&mut guest.live.store.store, (ptr, len))
}

/// Calls the function in the guest's binary slot with `(a, b)`, by
/// `TypedFunc::call`; the call is recorded under the slot's export name, with
/// what it returned or that it failed.
#[verifier::external_body]
pub(crate) fn call_binary_handle(guest: &mut GuestInstance, a: i32, b: i32) -> (r: Result<
    i32,
    anyhow::Error,
>)
    requires
        old(guest).has_binary(),
    ensures
        same_instance(old(guest), final(guest)),
        keeps_handles(old(guest), final(guest)),
        r matches Ok(v) ==> final(guest).history() == old(guest).history().push(
            GuestEvent::Called {
                export: old(guest).binary_name(),
                args: seq![a as int, b as int],
                results: seq![v as int],
            },
        ),
        r is Err ==> final(guest).history() == old(guest).history().push(
            GuestEvent::CallFailed { export: old(guest).binary_name(), args: seq![a as int, b as int] },
        ),
{
    guest.handles.binary.as_ref().unwrap().call(&mut guest.live.store.store, (a, b))
}

/// Calls the function in the guest's effect slot with `(a, b)`, by
/// `TypedFunc::call`; the call is recorded under the slot's export name, with
/// what it returned or that it failed.
#[verifier::external_body]
pub(crate) fn call_effect_handle(guest: &mut GuestInstance, a: i32, b: i32) -> (r: Result<
    (),
    anyhow::Error,
>)
    requires
        old(guest).has_effect(),
    ensures
        same_instance(old(guest), final(guest)),
        keeps_handles(old(guest), final(guest)),
        r is Ok ==> final(guest).history() == old(guest).history().push(
            GuestEvent::Called {
                export: old(guest).effect_name(),
                args: seq![a as int, b as int],
                results: Seq::<int>::empty(),
            },
        ),
        r is Err ==> final(guest).history() == old(guest).history().push(
            GuestEvent::CallFailed { export: old(guest).effect_name(), args: seq![a as int, b as int] },
        ),
{
    guest.handles.effect.as_ref().unwrap().call(&mut guest.live.store.store, (a, b))
}

/// Copies `bytes` into the memory in the guest's memory slot at `offset`, by
/// `Memory::write`, which fails without writing when the range leaves the
/// memory; the copy is recorded, completed or failed. The memory's size is
/// not modelled here, so the contract does not say for which ranges the copy
/// fails.
#[verifier::external_body]
pub(crate) fn write_memory(guest: &mut GuestInstance, offset: usize, bytes: &[u8]) -> (r: Result<
    (),
    MemoryAccessError,
>)
    requires
        old(guest).has_memory(),
    ensures
        same_instance(old(guest), final(guest)),
        keeps_handles(old(guest), final(guest)),
        r is Ok ==> final(guest).history() == old(guest).history().push(
            GuestEvent::Wrote { memory: old(guest).memory_name(), offset: offset as int, bytes: bytes@ },
        ),
        r is Err ==> final(guest).history() == old(guest).history().push(
            GuestEvent::WriteFailed {
                memory: old(guest).memory_name(),
                offset: offset as int,
                bytes: bytes@,
            },
        ),
{
    guest.handles.memory.as_ref().unwrap().write(&mut guest.live.store.store, offset, bytes)
}

/// Fills `buf` from the memory in the guest's memory slot at `offset`, by
/// `Memory::read`, which fills the whole buffer or, when the range leaves the
/// memory, leaves it untouched and fails. Either way the buffer keeps its
/// length; the copy is recorded, with the bytes read when it completed. The
/// memory's size and contents are not modelled here, so the contract does not
/// say for which ranges the copy fails, nor which bytes it reads.
#[verifier::external_body]
pub(crate) fn read_memory(guest: &mut GuestInstance, offset: usize, buf: &mut Vec<u8>) -> (r: Result<
    (),
    MemoryAccessError,
>)
    requires
        old(guest).has_memory(),
    ensures
        same_instance(old(guest), final(guest)),
        keeps_handles(old(guest), final(guest)),
        final(buf)@.len() == old(buf)@.len(),
        r is Ok ==> final(guest).history() == old(guest).history().push(
            GuestEvent::Read {
                memory: old(guest).memory_name(),
                offset: offset as int,
                bytes: final(buf)@,
            },
        ),
        r is Err ==> final(buf)@ == old(buf)@ && final(guest).history() == old(guest).history().push(
            GuestEvent::ReadFailed {
                memory: old(guest).memory_name(),
                offset: offset as int,
                len: old(buf)@.len() as int,
            },
        ),
{
    guest.handles.memory.as_ref().unwrap().read(&guest.live.store.store, offset, buf.as_mut_slice())
}

} // verus!
