use vstd::prelude::*;
use vstd::slice::{slice_subrange, slice_to_vec};
use wasmtime_wasi::WasiCtx;
use crate::sandbox::{
    call_allocate, call_process, call_produce, call_release, exports_function, instance_store,
    is_fuel_exhaustion, is_metered, linear_memory, memory_data, memory_store, ran_out_of_fuel,
    refuel, store_id, write_memory, Signature,
};

verus! {

/// Address at which a request is written when a module exports no
/// `allocate`. Nothing tells the host what the module keeps there: a request
/// written at this address may overwrite the module's own data, and is only
/// held to lie inside the memory.
pub const FALLBACK_ADDRESS: i32 = 1024;

/// Export name of a module's linear memory.
pub const MEMORY_EXPORT: &'static str = "memory";

/// Export name of the entry point that produces the descriptor.
pub const INIT_EXPORT: &'static str = "init";

/// Export name of the entry point that processes a request.
pub const EXECUTE_EXPORT: &'static str = "execute";

/// Export name of the entry point that reports the length of the last result.
pub const RESULT_LEN_EXPORT: &'static str = "get_result_len";

/// Export name of the optional entry point that hands out a buffer.
pub const ALLOCATE_EXPORT: &'static str = "allocate";

/// Export name of the optional entry point that takes a buffer back.
pub const DEALLOCATE_EXPORT: &'static str = "deallocate";

/// How a call into a module ends when it does not return.
#[derive(Debug, Clone, Copy, PartialEq, Eq, Structural)]
pub enum Fault {
    /// The module's code faulted, or the call could not be made.
    Trap,
    /// The module's code used up the steps it was given.
    Timeout,
}

/// Whether `length` bytes from `address` on lie inside a memory of `size` bytes.
pub open spec fn span_in(address: int, length: int, size: int) -> bool {
    0 <= address && 0 <= length && address + length <= size
}

/// Whether `memory` holds `bytes` from `address` on.
pub open spec fn holds_at(memory: Seq<u8>, address: int, bytes: Seq<u8>) -> bool {
    span_in(address, bytes.len() as int, memory.len() as int) && memory.subrange(
        address,
        address + bytes.len(),
    ) == bytes
}

/// Places an address and a length that a module gave in a memory of `size`
/// bytes: the span they name, or `None` where either is negative or the span
/// leaves the memory.
pub fn locate(address: i32, length: i32, size: usize) -> (span: Option<(usize, usize)>)
    ensures
        span is Some <==> span_in(address as int, length as int, size as int),
        span matches Some(found) ==> found.0 == address && found.1 == length,
{
    if address < 0 || length < 0 {
        return None;
    }
    let start = address as usize;
    let len = length as usize;
    if start <= size && len <= size - start {
        Some((start, len))
    } else {
        None
    }
}

/// Reads what a module left in its memory: exactly `length` bytes from
/// `address` on, or `None` where the two do not name a span of the memory.
pub fn extract(memory: &[u8], address: i32, length: i32) -> (bytes: Option<Vec<u8>>)
    ensures
        bytes is Some <==> span_in(address as int, length as int, memory@.len() as int),
        bytes matches Some(found) ==> found@ == memory@.subrange(
            address as int,
            address + length,
        ),
{
    match locate(address, length, memory.len()) {
        Some((start, len)) => Some(slice_to_vec(slice_subrange(memory, start, start + len))),
        None => None,
    }
}

/// The length of an envelope as an entry point takes it, or `None` where the
/// envelope is longer than an `i32` can say.
pub fn wire_length(len: usize) -> (wire: Option<i32>)
    ensures
        wire is Some <==> len <= i32::MAX,
        wire matches Some(length) ==> length == len,
{
    if len <= i32::MAX as usize {
        Some(len as i32)
    } else {
        None
    }
}

/// The address a request is written at: the one the module's allocator gave,
/// or the fallback address where the module exports no allocator.
pub fn request_address(allocated: Option<i32>) -> (address: i32)
    ensures
        allocated matches Some(given) ==> address == given,
        allocated is None ==> address == FALLBACK_ADDRESS,
{
    match allocated {
        Some(given) => given,
        None => FALLBACK_ADDRESS,
    }
}

/// How a failed call ended: in a timeout where the store ran out of fuel,
/// in a trap on every other error.
fn fault_of(error: &wasmtime::Error) -> (fault: Fault)
    ensures
        is_fuel_exhaustion(*error) ==> fault == Fault::Timeout,
        !is_fuel_exhaustion(*error) ==> fault == Fault::Trap,
{
    if ran_out_of_fuel(error) {
        Fault::Timeout
    } else {
        Fault::Trap
    }
}

/// Calls the entry point `name` of type `() -> i32`, with `step_limit` steps
/// to run. A store that is not metered is not entered: the call is refused
/// as a trap and every memory stays as it is.
pub(crate) fn enter_produce(
    store: &mut wasmtime::Store<WasiCtx>,
    instance: &wasmtime::Instance,
    name: &str,
    step_limit: u64,
) -> (returned: Result<i32, Fault>)
    requires
        instance_store(*instance) == store_id(*old(store)),
    ensures
        store_id(*final(store)) == store_id(*old(store)),
        is_metered(*final(store)) == is_metered(*old(store)),
        !is_metered(*old(store)) ==> returned == Err::<i32, Fault>(Fault::Trap),
        !is_metered(*old(store)) ==> forall|memory: wasmtime::Memory| #[trigger]
            linear_memory(*final(store), memory) == linear_memory(*old(store), memory),
{
    if refuel(store, step_limit).is_err() {
        return Err(Fault::Trap);
    }
    match call_produce(store, instance, name) {
        Ok(value) => Ok(value),
        Err(error) => Err(fault_of(&error)),
    }
}

/// Calls the entry point `name` of type `(i32, i32) -> i32`, with
/// `step_limit` steps to run. A store that is not metered is not entered:
/// the call is refused as a trap and every memory stays as it is.
pub(crate) fn enter_process(
    store: &mut wasmtime::Store<WasiCtx>,
    instance: &wasmtime::Instance,
    name: &str,
    address: i32,
    length: i32,
    step_limit: u64,
) -> (returned: Result<i32, Fault>)
    requires
        instance_store(*instance) == store_id(*old(store)),
    ensures
        store_id(*final(store)) == store_id(*old(store)),
        is_metered(*final(store)) == is_metered(*old(store)),
        !is_metered(*old(store)) ==> returned == Err::<i32, Fault>(Fault::Trap),
        !is_metered(*old(store)) ==> forall|memory: wasmtime::Memory| #[trigger]
            linear_memory(*final(store), memory) == linear_memory(*old(store), memory),
{
    if refuel(store, step_limit).is_err() {
        return Err(Fault::Trap);
    }
    match call_process(store, instance, name, address, length) {
        Ok(value) => Ok(value),
        Err(error) => Err(fault_of(&error)),
    }
}

/// Writes an envelope into a module: asks the module's `allocate` for a
/// buffer of the envelope's length where the module exports one, takes the
/// fallback address where it does not, and copies the envelope there. Gives
/// the address and the length to hand to the entry point.
pub(crate) fn place_request(
    store: &mut wasmtime::Store<WasiCtx>,
    instance: &wasmtime::Instance,
    memory: &wasmtime::Memory,
    envelope: &Vec<u8>,
    step_limit: u64,
) -> (placed: Result<(i32, i32), Fault>)
    requires
        instance_store(*instance) == store_id(*old(store)),
        memory_store(*memory) == store_id(*old(store)),
    ensures
        store_id(*final(store)) == store_id(*old(store)),
        placed matches Ok((address, length)) ==> length == envelope@.len() && holds_at(
            linear_memory(*final(store), *memory),
            address as int,
            envelope@,
        ),
        envelope@.len() > i32::MAX ==> placed == Err::<(i32, i32), Fault>(Fault::Trap),
        envelope@.len() > i32::MAX ==> *final(store) == *old(store),
{
    let length = match wire_length(envelope.len()) {
        Some(length) => length,
        None => return Err(Fault::Trap),
    };
    let allocated = if exports_function(store, instance, ALLOCATE_EXPORT, Signature::Allocate) {
        if refuel(store, step_limit).is_err() {
            return Err(Fault::Trap);
        }
        match call_allocate(store, instance, ALLOCATE_EXPORT, length) {
            Ok(given) => Some(given),
            Err(error) => return Err(fault_of(&error)),
        }
    } else {
        None
    };
    let address = request_address(allocated);
    if address < 0 {
        return Err(Fault::Trap);
    }
    if write_memory(store, memory, address as usize, envelope.as_slice()) {
        assert(linear_memory(*store, *memory).subrange(
            address as int,
            address + envelope@.len(),
        ) =~= envelope@);
        Ok((address, length))
    } else {
        Err(Fault::Trap)
    }
}

/// Reads an envelope out of a module: asks `get_result_len` for the length of
/// what the entry point left at `address`, and copies exactly that many
/// bytes. A store that is not metered is not entered: the read is refused as
/// a trap.
pub(crate) fn fetch_result(
    store: &mut wasmtime::Store<WasiCtx>,
    instance: &wasmtime::Instance,
    memory: &wasmtime::Memory,
    address: i32,
    step_limit: u64,
) -> (fetched: Result<Vec<u8>, Fault>)
    requires
        instance_store(*instance) == store_id(*old(store)),
        memory_store(*memory) == store_id(*old(store)),
    ensures
        store_id(*final(store)) == store_id(*old(store)),
        is_metered(*final(store)) == is_metered(*old(store)),
        fetched matches Ok(bytes) ==> holds_at(
            linear_memory(*final(store), *memory),
            address as int,
            bytes@,
        ),
        !is_metered(*old(store)) ==> fetched == Err::<Vec<u8>, Fault>(Fault::Trap),
{
    let length = match enter_produce(store, instance, RESULT_LEN_EXPORT, step_limit) {
        Ok(length) => length,
        Err(fault) => return Err(fault),
    };
    match extract(memory_data(store, memory), address, length) {
        Some(bytes) => Ok(bytes),
        None => Err(Fault::Trap),
    }
}

/// Hands the buffer of a request back to a module that exports `deallocate`.
/// How that call ends does not matter to the host.
pub(crate) fn release_request(
    store: &mut wasmtime::Store<WasiCtx>,
    instance: &wasmtime::Instance,
    address: i32,
    length: i32,
    step_limit: u64,
)
    requires
        instance_store(*instance) == store_id(*old(store)),
    ensures
        store_id(*final(store)) == store_id(*old(store)),
{
    if exports_function(store, instance, DEALLOCATE_EXPORT, Signature::Release) {
        if refuel(store, step_limit).is_ok() {
            let _ = call_release(store, instance, DEALLOCATE_EXPORT, address, length);
        }
    }
}

} // verus!
