use vstd::prelude::*;
use vstd::string::StringExecFns;
use wasmtime_wasi::WasiCtx;
use crate::envelope::{
    decoded_info, decoded_response, encoded_request, DecodeError, InfoView, PluginInfo,
    PluginRequest, PluginResponse, ResponseView,
};
use crate::protocol::{
    enter_process, enter_produce, fetch_result, holds_at, place_request, release_request, Fault,
    ALLOCATE_EXPORT, EXECUTE_EXPORT, INIT_EXPORT, MEMORY_EXPORT, RESULT_LEN_EXPORT,
};
use crate::sandbox::{
    compile, compiles, counts_steps, define_stub, definitions, exported, exported_memory,
    exports_function, inert_context, instance_store, instantiate, linear_memory, linker_engine,
    memory_store, metered_engine, new_linker, new_store, ran_out_of_fuel, refuel, store_id,
    Signature, StubShape,
};

verus! {

/// Why a module could not be loaded.
#[derive(Debug, Clone, PartialEq, Eq)]
pub enum LoadError {
    /// The source is not a module that validates and compiles.
    CompileError,
    /// The module could not be instantiated against the stub imports.
    InstantiateError,
    /// The module lacks the named export, or has it with another type.
    MissingExportError(String),
    /// The handshake did not yield the envelope of a descriptor.
    DescriptorDecodeError,
    /// The module used up its steps while it was brought up.
    Timeout,
}

/// Why a request was not answered.
#[derive(Debug, Clone, Copy, PartialEq, Eq, Structural)]
pub enum DispatchError {
    /// No plugin is loaded under the handle.
    InvalidHandle,
    /// The module faulted, or named memory it does not have.
    TrapError,
    /// What the module produced is not the envelope of a response.
    ResponseDecodeError,
    /// The module used up its steps.
    Timeout,
}

/// Bytes of address space set aside for each module memory when it is made.
/// A host keeps many instances alive, so each gets a modest reservation and
/// its memory moves when it outgrows it.
pub const MEMORY_RESERVATION: u64 = 10 * 1024 * 1024;

/// Bytes kept unmapped behind each module memory.
pub const MEMORY_GUARD: u64 = 64 * 1024;

/// Bytes of address space added each time a module memory outgrows its
/// reservation.
pub const MEMORY_GROWTH: u64 = 1024 * 1024;

/// Module name under which the stub imports are defined.
pub const STUB_MODULE: &'static str = "wasi_snapshot_preview1";

impl LoadError {
    /// The load error for a handshake call that did not return.
    pub fn from_fault(fault: Fault) -> (error: LoadError)
        ensures
            fault == Fault::Timeout ==> error == LoadError::Timeout,
            fault == Fault::Trap ==> error == LoadError::DescriptorDecodeError,
    {
        match fault {
            Fault::Timeout => LoadError::Timeout,
            Fault::Trap => LoadError::DescriptorDecodeError,
        }
    }
}

impl DispatchError {
    /// The dispatch error for a call that did not return.
    pub fn from_fault(fault: Fault) -> (error: DispatchError)
        ensures
            fault == Fault::Timeout ==> error == DispatchError::Timeout,
            fault == Fault::Trap ==> error == DispatchError::TrapError,
    {
        match fault {
            Fault::Timeout => DispatchError::Timeout,
            Fault::Trap => DispatchError::TrapError,
        }
    }
}

/// An engine for plugins: it counts the steps of the code it runs, so that
/// every call into a module can be given a limit. `None` where the engine
/// cannot be set up.
pub fn new_engine() -> (engine: Option<wasmtime::Engine>)
    ensures
        engine matches Some(made) ==> counts_steps(made),
{
    match metered_engine(MEMORY_RESERVATION, MEMORY_GUARD, MEMORY_GROWTH) {
        Ok(engine) => Some(engine),
        Err(_) => None,
    }
}

/// Decodes what the handshake produced: the descriptor where the bytes are
/// the envelope of one, `DescriptorDecodeError` on all other bytes.
pub fn read_descriptor(bytes: &[u8]) -> (read: Result<PluginInfo, LoadError>)
    ensures
        read matches Ok(info) ==> decoded_info(bytes@) == Ok::<InfoView, DecodeError>(info@),
        read matches Err(error) ==> decoded_info(bytes@) is Err && error
            == LoadError::DescriptorDecodeError,
{
    match PluginInfo::decode(bytes) {
        Ok(info) => Ok(info),
        Err(_) => Err(LoadError::DescriptorDecodeError),
    }
}

/// Decodes what a request produced: the response where the bytes are the
/// envelope of one, `ResponseDecodeError` on all other bytes.
pub fn read_response(bytes: &[u8]) -> (read: Result<PluginResponse, DispatchError>)
    ensures
        read matches Ok(response) ==> decoded_response(bytes@) == Ok::<ResponseView, DecodeError>(
            response@,
        ),
        read matches Err(error) ==> decoded_response(bytes@) is Err && error
            == DispatchError::ResponseDecodeError,
{
    match PluginResponse::decode(bytes) {
        Ok(response) => Ok(response),
        Err(_) => Err(DispatchError::ResponseDecodeError),
    }
}

/// One stub import: the name a module imports it under, and its shape.
#[derive(Debug, Clone, Copy, PartialEq, Eq)]
pub struct Stub {
    pub name: &'static str,
    pub shape: StubShape,
}

/// The stub imports every module is instantiated against: a console write,
/// the two environment queries and the process exit. None of them does
/// anything, so a module gets nothing of the host's surroundings.
pub fn stub_imports() -> (stubs: Vec<Stub>)
    ensures
        stubs@.len() == 4,
        stubs@[0].name@ == "fd_write"@ && stubs@[0].shape == StubShape::Four,
        stubs@[1].name@ == "environ_sizes_get"@ && stubs@[1].shape == StubShape::Two,
        stubs@[2].name@ == "proc_exit"@ && stubs@[2].shape == StubShape::Exit,
        stubs@[3].name@ == "environ_get"@ && stubs@[3].shape == StubShape::Two,
{
    let mut stubs: Vec<Stub> = Vec::new();
    stubs.push(Stub { name: "fd_write", shape: StubShape::Four });
    stubs.push(Stub { name: "environ_sizes_get", shape: StubShape::Two });
    stubs.push(Stub { name: "proc_exit", shape: StubShape::Exit });
    stubs.push(Stub { name: "environ_get", shape: StubShape::Two });
    stubs
}

/// What a linker defines after the stubs of a table were defined in it, one
/// after the other, under the stub module's name.
pub open spec fn with_stubs(
    defined: Map<(Seq<char>, Seq<char>), StubShape>,
    stubs: Seq<Stub>,
) -> Map<(Seq<char>, Seq<char>), StubShape>
    decreases stubs.len(),
{
    if stubs.len() == 0 {
        defined
    } else {
        with_stubs(defined, stubs.drop_last()).insert(
            (STUB_MODULE@, stubs.last().name@),
            stubs.last().shape,
        )
    }
}

/// Whether the stub at `place` of a table has a name that is taken when its
/// turn comes: by what the linker defined before, or by a stub ahead of it.
pub open spec fn name_is_taken(
    defined: Map<(Seq<char>, Seq<char>), StubShape>,
    stubs: Seq<Stub>,
    place: int,
) -> bool {
    with_stubs(defined, stubs.take(place)).contains_key((STUB_MODULE@, stubs[place].name@))
}

/// Defines each stub of the table in the linker, in the table's order.
/// `true` where every stub was defined: the linker then defines what it
/// defined before and the whole table. `false` as soon as one stub cannot be
/// defined, as is any stub whose name is taken: the linker then defines what
/// it defined before and the stubs ahead of that one.
fn install_stubs(linker: &mut wasmtime::Linker<WasiCtx>, stubs: &Vec<Stub>) -> (installed: bool)
    ensures
        linker_engine(*final(linker)) == linker_engine(*old(linker)),
        installed ==> definitions(*final(linker)) == with_stubs(
            definitions(*old(linker)),
            stubs@,
        ),
        installed ==> forall|place: int|
            0 <= place < stubs@.len() ==> !#[trigger] name_is_taken(
                definitions(*old(linker)),
                stubs@,
                place,
            ),
        !installed ==> exists|count: int|
            0 <= count < stubs@.len() && definitions(*final(linker)) == #[trigger] with_stubs(
                definitions(*old(linker)),
                stubs@.take(count),
            ),
{
    let mut next: usize = 0;
    while next < stubs.len()
        invariant
            next <= stubs@.len(),
            linker_engine(*linker) == linker_engine(*old(linker)),
            definitions(*linker) == with_stubs(definitions(*old(linker)), stubs@.take(next as int)),
            forall|place: int|
                0 <= place < next ==> !#[trigger] name_is_taken(
                    definitions(*old(linker)),
                    stubs@,
                    place,
                ),
        decreases stubs@.len() - next,
    {
        let stub = &stubs[next];
        if define_stub(linker, STUB_MODULE, stub.name, stub.shape).is_err() {
            return false;
        }
        proof {
            assert(stubs@.take(next + 1).drop_last() == stubs@.take(next as int));
        }
        next = next + 1;
    }
    proof {
        assert(stubs@.take(next as int) == stubs@);
    }
    true
}

/// The first entry point that a module lacks, in the order `init`,
/// `execute`, `get_result_len`; `None` where it has all three.
pub fn first_missing_function(init: bool, execute: bool, result_len: bool) -> (missing: Option<
    &'static str,
>)
    ensures
        missing is None <==> init && execute && result_len,
        !init ==> missing == Some(INIT_EXPORT),
        init && !execute ==> missing == Some(EXECUTE_EXPORT),
        init && execute && !result_len ==> missing == Some(RESULT_LEN_EXPORT),
{
    if !init {
        Some(INIT_EXPORT)
    } else if !execute {
        Some(EXECUTE_EXPORT)
    } else if !result_len {
        Some(RESULT_LEN_EXPORT)
    } else {
        None
    }
}

/// Whether `name` is one of the exports every module must have.
pub open spec fn is_required_export(name: Seq<char>) -> bool {
    name == MEMORY_EXPORT@ || name == INIT_EXPORT@ || name == EXECUTE_EXPORT@ || name
        == RESULT_LEN_EXPORT@
}

/// Whether `memory` holds `bytes` at some address.
pub open spec fn holds_somewhere(memory: Seq<u8>, bytes: Seq<u8>) -> bool {
    exists|address: int| #[trigger] holds_at(memory, address, bytes)
}

/// Whether `memory` holds, somewhere, the envelope of the descriptor `info`.
pub open spec fn holds_descriptor(memory: Seq<u8>, info: InfoView) -> bool {
    exists|address: int, bytes: Seq<u8>| #[trigger]
        holds_at(memory, address, bytes) && decoded_info(bytes) == Ok::<InfoView, DecodeError>(
            info,
        )
}

/// One loaded module: its instance in a store of its own, its memory, and the
/// descriptor it reported when it was loaded.
pub struct WasmPlugin {
    store: wasmtime::Store<WasiCtx>,
    instance: wasmtime::Instance,
    memory: wasmtime::Memory,
    info: PluginInfo,
    step_limit: u64,
}

impl WasmPlugin {
    /// The store owns the instance and the memory. It holds of every plugin
    /// that `new` gave, and every method keeps it.
    pub closed spec fn wf(&self) -> bool {
        instance_store(self.instance) == store_id(self.store) && memory_store(self.memory)
            == store_id(self.store)
    }

    /// The descriptor the module reported.
    pub closed spec fn descriptor(&self) -> InfoView {
        self.info@
    }

    /// The steps each call into the module may run.
    pub closed spec fn step_budget(&self) -> u64 {
        self.step_limit
    }

    /// The bytes of the module's memory.
    pub closed spec fn memory_bytes(&self) -> Seq<u8> {
        linear_memory(self.store, self.memory)
    }

    /// Whether the module exports `allocate` with the type `(i32) -> i32`.
    pub closed spec fn has_allocator(&self) -> bool {
        exported(self.store, self.instance, ALLOCATE_EXPORT@, Signature::Allocate)
    }

    /// Loads a module: compiles `source`, instantiates it in a store of its
    /// own against the stub imports, resolves the memory and the three entry
    /// points every module must export, and performs the handshake: calls
    /// `init`, asks `get_result_len` for the length right after it, reads
    /// that many bytes at the address `init` gave and decodes them as the
    /// descriptor. Every call into the module may run `step_limit` steps.
    ///
    /// Each phase has its error. A source the engine does not take gives
    /// `CompileError`. A store that cannot be made or metered, a stub that
    /// cannot be defined and a module that cannot be instantiated give
    /// `InstantiateError`. The first export that is missing or of another
    /// type, in the order `memory`, `init`, `execute`, `get_result_len`, gives
    /// `MissingExportError` with its name. A handshake that faults, names
    /// bytes outside the memory or yields no descriptor's envelope gives
    /// `DescriptorDecodeError`. A module that uses up its steps gives
    /// `Timeout`.
    pub fn new(engine: &wasmtime::Engine, source: &[u8], step_limit: u64) -> (loaded: Result<
        WasmPlugin,
        LoadError,
    >)
        ensures
            loaded matches Ok(plugin) ==> plugin.wf() && plugin.step_budget() == step_limit,
            loaded matches Ok(plugin) ==> holds_descriptor(
                plugin.memory_bytes(),
                plugin.descriptor(),
            ),
            loaded matches Err(LoadError::CompileError) <==> !compiles(*engine, source@),
            compiles(*engine, source@) && !counts_steps(*engine) ==> loaded matches Err(
                LoadError::InstantiateError,
            ),
            loaded matches Err(LoadError::MissingExportError(name)) ==> is_required_export(name@),
    {
        let module = match compile(engine, source) {
            Ok(module) => module,
            Err(_) => return Err(LoadError::CompileError),
        };
        let mut store = match new_store(engine, inert_context()) {
            Ok(store) => store,
            Err(_) => return Err(LoadError::InstantiateError),
        };
        let mut linker = new_linker(engine);
        let stubs = stub_imports();
        if !install_stubs(&mut linker, &stubs) {
            return Err(LoadError::InstantiateError);
        }
        if refuel(&mut store, step_limit).is_err() {
            return Err(LoadError::InstantiateError);
        }
        let instance = match instantiate(&linker, &mut store, &module) {
            Ok(instance) => instance,
            Err(error) => {
                if ran_out_of_fuel(&error) {
                    return Err(LoadError::Timeout);
                }
                return Err(LoadError::InstantiateError);
            },
        };
        let memory = match exported_memory(&mut store, &instance, MEMORY_EXPORT) {
            Some(memory) => memory,
            None => return Err(LoadError::MissingExportError(String::from_str(MEMORY_EXPORT))),
        };
        let has_init = exports_function(&mut store, &instance, INIT_EXPORT, Signature::Produce);
        let has_execute = exports_function(
            &mut store,
            &instance,
            EXECUTE_EXPORT,
            Signature::Process,
        );
        let has_result_len = exports_function(
            &mut store,
            &instance,
            RESULT_LEN_EXPORT,
            Signature::Produce,
        );
        if let Some(name) = first_missing_function(has_init, has_execute, has_result_len) {
            return Err(LoadError::MissingExportError(String::from_str(name)));
        }
        let address = match enter_produce(&mut store, &instance, INIT_EXPORT, step_limit) {
            Ok(address) => address,
            Err(fault) => return Err(LoadError::from_fault(fault)),
        };
        let bytes = match fetch_result(&mut store, &instance, &memory, address, step_limit) {
            Ok(bytes) => bytes,
            Err(fault) => return Err(LoadError::from_fault(fault)),
        };
        let info = match read_descriptor(bytes.as_slice()) {
            Ok(info) => info,
            Err(error) => return Err(error),
        };
        Ok(WasmPlugin { store, instance, memory, info, step_limit })
    }

    /// Writes the envelope of a request into the module, calls `execute` on
    /// it, and reads what the module produced.
    fn exchange(&mut self, envelope: &Vec<u8>) -> (produced: Result<
        (Vec<u8>, i32, i32),
        DispatchError,
    >)
        requires
            old(self).wf(),
        ensures
            final(self).wf(),
            final(self).descriptor() == old(self).descriptor(),
            final(self).step_budget() == old(self).step_budget(),
            produced matches Ok(got) ==> holds_somewhere(final(self).memory_bytes(), got.0@),
            produced matches Err(error) ==> error == DispatchError::TrapError || error
                == DispatchError::Timeout,
            envelope@.len() > i32::MAX ==> produced == Err::<(Vec<u8>, i32, i32), DispatchError>(
                DispatchError::TrapError,
            ),
            envelope@.len() > i32::MAX ==> *final(self) == *old(self),
    {
        let (address, length) = match place_request(
            &mut self.store,
            &self.instance,
            &self.memory,
            envelope,
            self.step_limit,
        ) {
            Ok(placed) => placed,
            Err(fault) => return Err(DispatchError::from_fault(fault)),
        };
        let result_address = match enter_process(
            &mut self.store,
            &self.instance,
            EXECUTE_EXPORT,
            address,
            length,
            self.step_limit,
        ) {
            Ok(result_address) => result_address,
            Err(fault) => return Err(DispatchError::from_fault(fault)),
        };
        match fetch_result(
            &mut self.store,
            &self.instance,
            &self.memory,
            result_address,
            self.step_limit,
        ) {
            Ok(bytes) => Ok((bytes, address, length)),
            Err(fault) => Err(DispatchError::from_fault(fault)),
        }
    }

    /// Sends one request through the module and decodes its answer: writes
    /// the request's envelope into the module, calls `execute` on it, asks
    /// `get_result_len` for the length right after it, reads that many bytes
    /// at the address `execute` gave and decodes them as the response. The
    /// request's buffer goes back to a module that exports `deallocate` once
    /// the answer is decoded. The descriptor stays as it was loaded.
    ///
    /// A module that faults, an envelope too long for the boundary and an
    /// address or length that leaves the module's memory give `TrapError`;
    /// a module that uses up its steps gives `Timeout`; bytes that are no
    /// response's envelope give `ResponseDecodeError`.
    pub fn execute(&mut self, request: PluginRequest) -> (answered: Result<
        PluginResponse,
        DispatchError,
    >)
        requires
            old(self).wf(),
        ensures
            final(self).wf(),
            final(self).descriptor() == old(self).descriptor(),
            final(self).step_budget() == old(self).step_budget(),
            answered matches Err(error) ==> error != DispatchError::InvalidHandle,
            encoded_request(request@).len() > i32::MAX ==> answered == Err::<
                PluginResponse,
                DispatchError,
            >(DispatchError::TrapError),
            encoded_request(request@).len() > i32::MAX ==> *final(self) == *old(self),
    {
        let envelope = request.encode();
        let (bytes, address, length) = match self.exchange(&envelope) {
            Ok(produced) => produced,
            Err(error) => return Err(error),
        };
        let response = match read_response(bytes.as_slice()) {
            Ok(response) => response,
            Err(error) => return Err(error),
        };
        release_request(&mut self.store, &self.instance, address, length, self.step_limit);
        Ok(response)
    }

    /// Whether the module exports `allocate`. Where it does not, requests are
    /// written at the fallback address, with the hazard that comes with it.
    pub fn exports_allocator(&mut self) -> (exported: bool)
        requires
            old(self).wf(),
        ensures
            final(self).wf(),
            final(self).descriptor() == old(self).descriptor(),
            final(self).step_budget() == old(self).step_budget(),
            exported == old(self).has_allocator(),
            final(self).has_allocator() == old(self).has_allocator(),
    {
        exports_function(&mut self.store, &self.instance, ALLOCATE_EXPORT, Signature::Allocate)
    }

    /// The descriptor the module reported.
    pub fn info(&self) -> (info: &PluginInfo)
        ensures
            info@ == self.descriptor(),
    {
        &self.info
    }
}

} // verus!
