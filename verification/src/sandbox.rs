use vstd::prelude::*;
use wasmtime_wasi::WasiCtx;

verus! {

/// `wasmtime::Engine`, carried through without a look inside.
#[verifier::external_type_specification]
#[verifier::external_body]
pub struct ExEngine(wasmtime::Engine);

/// `wasmtime::Module`, a compiled module.
#[verifier::external_type_specification]
#[verifier::external_body]
pub struct ExModule(wasmtime::Module);

/// `wasmtime::Store`, which owns the instances and memories made in it.
#[verifier::external_type_specification]
#[verifier::external_body]
#[verifier::reject_recursive_types(T)]
pub struct ExStore<T: 'static>(wasmtime::Store<T>);

/// `wasmtime::Linker`, the definitions that imports are resolved against.
#[verifier::external_type_specification]
#[verifier::external_body]
#[verifier::reject_recursive_types(T)]
pub struct ExLinker<T>(wasmtime::Linker<T>);

/// `wasmtime::Instance`, a handle to an instance in a store.
#[verifier::external_type_specification]
#[verifier::external_body]
pub struct ExInstance(wasmtime::Instance);

/// `wasmtime::Memory`, a handle to a linear memory in a store.
#[verifier::external_type_specification]
#[verifier::external_body]
pub struct ExMemory(wasmtime::Memory);

/// `wasmtime::Error`, the error of every fallible call into wasmtime.
#[verifier::external_type_specification]
#[verifier::external_body]
pub struct ExSandboxError(wasmtime::Error);

/// `wasmtime_wasi::WasiCtx`, the data each store carries.
#[verifier::external_type_specification]
#[verifier::external_body]
pub struct ExWasiCtx(wasmtime_wasi::WasiCtx);

/// Which engine this is. Clones of an engine are the same engine.
pub uninterp spec fn engine_id(engine: wasmtime::Engine) -> int;

/// Whether the engine takes `source` for a module: whether the bytes decode
/// as a module, validate, and use only what the engine is set up to accept.
pub uninterp spec fn compiles(engine: wasmtime::Engine, source: Seq<u8>) -> bool;

/// Whether the engine counts the steps of the code it runs: whether it was
/// set up to consume fuel.
pub uninterp spec fn counts_steps(engine: wasmtime::Engine) -> bool;

/// What a linker defines: the shape of the stub under each module name and
/// item name.
pub uninterp spec fn definitions(linker: wasmtime::Linker<WasiCtx>) -> Map<
    (Seq<char>, Seq<char>),
    StubShape,
>;

/// Whether the instance exports a function under `name` with the given
/// signature. An instance's exports are those of its module, and stay.
pub uninterp spec fn exported(
    store: wasmtime::Store<WasiCtx>,
    instance: wasmtime::Instance,
    name: Seq<char>,
    signature: Signature,
) -> bool;

/// Whether a failed call ended because the store ran out of fuel.
pub uninterp spec fn is_fuel_exhaustion(error: wasmtime::Error) -> bool;

/// The engine a linker was made for.
pub uninterp spec fn linker_engine(linker: wasmtime::Linker<WasiCtx>) -> int;

/// The engine a store was made for.
pub uninterp spec fn store_engine(store: wasmtime::Store<WasiCtx>) -> int;

/// Which store this is. A store keeps its identity while it is used.
pub uninterp spec fn store_id(store: wasmtime::Store<WasiCtx>) -> int;

/// Whether the store's engine counts the steps of the code it runs, so that
/// fuel given to the store bounds every call into it. A store keeps its
/// engine, so this stays while the store is used.
pub uninterp spec fn is_metered(store: wasmtime::Store<WasiCtx>) -> bool;

/// The store that owns an instance.
pub uninterp spec fn instance_store(instance: wasmtime::Instance) -> int;

/// The store that owns a memory.
pub uninterp spec fn memory_store(memory: wasmtime::Memory) -> int;

/// The bytes of a linear memory, as its store holds them now.
pub uninterp spec fn linear_memory(
    store: wasmtime::Store<WasiCtx>,
    memory: wasmtime::Memory,
) -> Seq<u8>;

/// What a linker defines in which nothing was defined.
pub open spec fn no_definitions() -> Map<(Seq<char>, Seq<char>), StubShape> {
    Map::empty()
}

/// A memory after `bytes` were copied into it from `start` on.
pub open spec fn overwritten(memory: Seq<u8>, start: int, bytes: Seq<u8>) -> Seq<u8> {
    memory.subrange(0, start) + bytes + memory.subrange(start + bytes.len(), memory.len() as int)
}

/// The parameter and result types of an exported function.
#[derive(Debug, Clone, Copy, PartialEq, Eq, Structural)]
pub enum Signature {
    /// `() -> i32`
    Produce,
    /// `(i32) -> i32`
    Allocate,
    /// `(i32, i32) -> i32`
    Process,
    /// `(i32, i32) -> ()`
    Release,
}

/// The parameter and result types of a stub import.
#[derive(Debug, Clone, Copy, PartialEq, Eq, Structural)]
pub enum StubShape {
    /// `(i32, i32, i32, i32) -> i32`
    Four,
    /// `(i32, i32) -> i32`
    Two,
    /// `(i32) -> ()`
    Exit,
}

/// What every stub import reports: success, and nothing written or counted.
pub fn stub_status() -> (status: i32)
    ensures
        status == 0,
{
    0
}

/// `Config::new`, `Config::wasm_backtrace_details`, `Config::consume_fuel`,
/// `Config::memory_reservation`, `Config::memory_guard_size`,
/// `Config::memory_reservation_for_growth` and `Engine::new`: an engine that
/// keeps debug details for backtraces, counts the steps of the code it runs,
/// and sets aside the given numbers of bytes of address space for each memory.
#[verifier::external_body]
pub(crate) fn metered_engine(reservation: u64, guard: u64, growth: u64) -> (engine: Result<
    wasmtime::Engine,
    wasmtime::Error,
>)
    ensures
        engine matches Ok(made) ==> counts_steps(made),
{
    let mut config = wasmtime::Config::new();
    config.wasm_backtrace_details(wasmtime::WasmBacktraceDetails::Enable);
    config.consume_fuel(true);
    config.memory_reservation(reservation);
    config.memory_guard_size(guard);
    config.memory_reservation_for_growth(growth);
    wasmtime::Engine::new(&config)
}

/// `Module::new`: validates and compiles a module given as bytes, in binary
/// or in text form. Whether it accepts the bytes depends on the bytes and on
/// what the engine is set up to accept, so that is named.
#[verifier::external_body]
pub(crate) fn compile(engine: &wasmtime::Engine, source: &[u8]) -> (module: Result<
    wasmtime::Module,
    wasmtime::Error,
>)
    ensures
        module is Ok <==> compiles(*engine, source@),
{
    wasmtime::Module::new(engine, source)
}

/// `WasiCtxBuilder::new` and `WasiCtxBuilder::build`: a system-interface
/// context with the builder's defaults.
#[verifier::external_body]
pub(crate) fn inert_context() -> (context: WasiCtx) {
    wasmtime_wasi::WasiCtxBuilder::new().build()
}

/// `Store::try_new`: a fresh store of the engine, with `context` as its
/// data. The store is metered exactly when its engine counts steps.
#[verifier::external_body]
pub(crate) fn new_store(engine: &wasmtime::Engine, context: WasiCtx) -> (store: Result<
    wasmtime::Store<WasiCtx>,
    wasmtime::Error,
>)
    ensures
        store matches Ok(made) ==> store_engine(made) == engine_id(*engine),
        store matches Ok(made) ==> is_metered(made) == counts_steps(*engine),
{
    wasmtime::Store::try_new(engine, context)
}

/// `Store::set_fuel`: sets the steps the store may still run. It succeeds
/// only on a store whose engine counts steps, and from then on code in the
/// store stops with a trap when the steps are used up. No code runs, so
/// every memory stays as it is.
#[verifier::external_body]
pub(crate) fn refuel(store: &mut wasmtime::Store<WasiCtx>, steps: u64) -> (set: Result<
    (),
    wasmtime::Error,
>)
    ensures
        store_id(*final(store)) == store_id(*old(store)),
        store_engine(*final(store)) == store_engine(*old(store)),
        is_metered(*final(store)) == is_metered(*old(store)),
        set is Ok ==> is_metered(*old(store)),
        forall|memory: wasmtime::Memory| #[trigger]
            linear_memory(*final(store), memory) == linear_memory(*old(store), memory),
{
    store.set_fuel(steps)
}

/// `Linker::new`: a linker of the engine, with nothing defined.
#[verifier::external_body]
pub(crate) fn new_linker(engine: &wasmtime::Engine) -> (linker: wasmtime::Linker<WasiCtx>)
    ensures
        linker_engine(linker) == engine_id(*engine),
        definitions(linker) == no_definitions(),
{
    wasmtime::Linker::new(engine)
}

/// `Linker::func_wrap` with a function that does nothing: it takes its
/// numbers and, where it has a result, gives [`stub_status`]. A name that the
/// linker defines already is refused; where the call fails the linker
/// defines what it defined before.
#[verifier::external_body]
pub(crate) fn define_stub(
    linker: &mut wasmtime::Linker<WasiCtx>,
    module: &str,
    name: &str,
    shape: StubShape,
) -> (defined: Result<(), wasmtime::Error>)
    ensures
        linker_engine(*final(linker)) == linker_engine(*old(linker)),
        definitions(*old(linker)).contains_key((module@, name@)) ==> defined is Err,
        defined is Ok ==> definitions(*final(linker)) == definitions(*old(linker)).insert(
            (module@, name@),
            shape,
        ),
        defined is Err ==> definitions(*final(linker)) == definitions(*old(linker)),
{
    match shape {
        StubShape::Four => linker.func_wrap(
            module,
            name,
            |_: i32, _: i32, _: i32, _: i32| -> i32 { stub_status() },
        ).map(|_| ()),
        StubShape::Two => linker.func_wrap(module, name, |_: i32, _: i32| -> i32 { stub_status() })
            .map(|_| ()),
        StubShape::Exit => linker.func_wrap(module, name, |_: i32| {}).map(|_| ()),
    }
}

/// `Linker::instantiate`: instantiates the module in the store, with the
/// linker's definitions as its imports, and runs the module's start function
/// where it has one. wasmtime panics where linker and store are of different
/// engines, and only fuel makes a start function end: both are asked of the
/// caller. The new instance is the store's.
#[verifier::external_body]
pub(crate) fn instantiate(
    linker: &wasmtime::Linker<WasiCtx>,
    store: &mut wasmtime::Store<WasiCtx>,
    module: &wasmtime::Module,
) -> (instance: Result<wasmtime::Instance, wasmtime::Error>)
    requires
        linker_engine(*linker) == store_engine(*old(store)),
        is_metered(*old(store)),
    ensures
        store_id(*final(store)) == store_id(*old(store)),
        instance matches Ok(made) ==> instance_store(made) == store_id(*final(store)),
{
    linker.instantiate(store, module)
}

/// `Instance::get_memory`: the memory exported under `name`, if there is
/// one; it is the store's. wasmtime panics where the store does not own the
/// instance.
#[verifier::external_body]
pub(crate) fn exported_memory(
    store: &mut wasmtime::Store<WasiCtx>,
    instance: &wasmtime::Instance,
    name: &str,
) -> (memory: Option<wasmtime::Memory>)
    requires
        instance_store(*instance) == store_id(*old(store)),
    ensures
        store_id(*final(store)) == store_id(*old(store)),
        memory matches Some(found) ==> memory_store(found) == store_id(*final(store)),
{
    instance.get_memory(store, name)
}

/// `Instance::get_typed_func`: whether a function is exported under `name`
/// with the given signature. No instance gains or loses an export by being
/// asked. wasmtime panics where the store does not own the instance.
#[verifier::external_body]
pub(crate) fn exports_function(
    store: &mut wasmtime::Store<WasiCtx>,
    instance: &wasmtime::Instance,
    name: &str,
    signature: Signature,
) -> (found: bool)
    requires
        instance_store(*instance) == store_id(*old(store)),
    ensures
        store_id(*final(store)) == store_id(*old(store)),
        found == exported(*old(store), *instance, name@, signature),
        forall|other: wasmtime::Instance, item: Seq<char>, shape: Signature| #[trigger]
            exported(*final(store), other, item, shape) == exported(
                *old(store),
                other,
                item,
                shape,
            ),
{
    match signature {
        Signature::Produce => instance.get_typed_func::<(), i32>(store, name).is_ok(),
        Signature::Allocate => instance.get_typed_func::<i32, i32>(store, name).is_ok(),
        Signature::Process => instance.get_typed_func::<(i32, i32), i32>(store, name).is_ok(),
        Signature::Release => instance.get_typed_func::<(i32, i32), ()>(store, name).is_ok(),
    }
}

/// `Instance::get_typed_func` and `TypedFunc::call` at `() -> i32`: looks
/// the function up and runs it. What it returns and what it does to the
/// store's memories is the module's affair. wasmtime panics where the store
/// does not own the instance, and only fuel makes the call end: both are
/// asked of the caller.
#[verifier::external_body]
pub(crate) fn call_produce(
    store: &mut wasmtime::Store<WasiCtx>,
    instance: &wasmtime::Instance,
    name: &str,
) -> (returned: Result<i32, wasmtime::Error>)
    requires
        instance_store(*instance) == store_id(*old(store)),
        is_metered(*old(store)),
    ensures
        store_id(*final(store)) == store_id(*old(store)),
        is_metered(*final(store)),
{
    instance.get_typed_func::<(), i32>(&mut *store, name)?.call(&mut *store, ())
}

/// `Instance::get_typed_func` and `TypedFunc::call` at `(i32) -> i32`, as
/// [`call_produce`].
#[verifier::external_body]
pub(crate) fn call_allocate(
    store: &mut wasmtime::Store<WasiCtx>,
    instance: &wasmtime::Instance,
    name: &str,
    size: i32,
) -> (returned: Result<i32, wasmtime::Error>)
    requires
        instance_store(*instance) == store_id(*old(store)),
        is_metered(*old(store)),
    ensures
        store_id(*final(store)) == store_id(*old(store)),
        is_metered(*final(store)),
{
    instance.get_typed_func::<i32, i32>(&mut *store, name)?.call(&mut *store, size)
}

/// `Instance::get_typed_func` and `TypedFunc::call` at `(i32, i32) -> i32`,
/// as [`call_produce`].
#[verifier::external_body]
pub(crate) fn call_process(
    store: &mut wasmtime::Store<WasiCtx>,
    instance: &wasmtime::Instance,
    name: &str,
    address: i32,
    length: i32,
) -> (returned: Result<i32, wasmtime::Error>)
    requires
        instance_store(*instance) == store_id(*old(store)),
        is_metered(*old(store)),
    ensures
        store_id(*final(store)) == store_id(*old(store)),
        is_metered(*final(store)),
{
    instance.get_typed_func::<(i32, i32), i32>(&mut *store, name)?.call(
        &mut *store,
        (address, length),
    )
}

/// `Instance::get_typed_func` and `TypedFunc::call` at `(i32, i32) -> ()`,
/// as [`call_produce`].
#[verifier::external_body]
pub(crate) fn call_release(
    store: &mut wasmtime::Store<WasiCtx>,
    instance: &wasmtime::Instance,
    name: &str,
    address: i32,
    length: i32,
) -> (returned: Result<(), wasmtime::Error>)
    requires
        instance_store(*instance) == store_id(*old(store)),
        is_metered(*old(store)),
    ensures
        store_id(*final(store)) == store_id(*old(store)),
        is_metered(*final(store)),
{
    instance.get_typed_func::<(i32, i32), ()>(&mut *store, name)?.call(
        &mut *store,
        (address, length),
    )
}

/// `Error::downcast_ref` at `Trap`: whether a call ended because the store
/// ran out of fuel. That is a matter of the error alone, so it is named.
#[verifier::external_body]
pub(crate) fn ran_out_of_fuel(error: &wasmtime::Error) -> (out: bool)
    ensures
        out == is_fuel_exhaustion(*error),
{
    matches!(error.downcast_ref::<wasmtime::Trap>(), Some(wasmtime::Trap::OutOfFuel))
}

/// `Memory::data`: the bytes of a memory, as the store holds them now.
/// wasmtime panics where the store does not own the memory.
#[verifier::external_body]
pub(crate) fn memory_data<'a>(
    store: &'a wasmtime::Store<WasiCtx>,
    memory: &wasmtime::Memory,
) -> (data: &'a [u8])
    requires
        memory_store(*memory) == store_id(*store),
    ensures
        data@ == linear_memory(*store, *memory),
{
    memory.data(store)
}

/// `Memory::write`: copies `bytes` into the memory from `start` on. Where
/// they do not fit between `start` and the end of the memory, nothing is
/// written; where they fit, the range takes the bytes and the rest of the
/// memory stays. wasmtime panics where the store does not own the memory.
#[verifier::external_body]
pub(crate) fn write_memory(
    store: &mut wasmtime::Store<WasiCtx>,
    memory: &wasmtime::Memory,
    start: usize,
    bytes: &[u8],
) -> (written: bool)
    requires
        memory_store(*memory) == store_id(*old(store)),
    ensures
        store_id(*final(store)) == store_id(*old(store)),
        written == (start + bytes@.len() <= linear_memory(*old(store), *memory).len()),
        written ==> linear_memory(*final(store), *memory) == overwritten(
            linear_memory(*old(store), *memory),
            start as int,
            bytes@,
        ),
        !written ==> linear_memory(*final(store), *memory) == linear_memory(*old(store), *memory),
{
    memory.write(store, start, bytes).is_ok()
}

} // verus!
