use vstd::prelude::*;
use crate::envelope::{InfoView, PluginInfo, PluginRequest, PluginResponse};
use crate::plugin::{holds_descriptor, new_engine, DispatchError, LoadError, WasmPlugin};
use crate::sandbox::compiles;

verus! {

/// Steps a call into a module may run where the caller has no number of its own.
pub const DEFAULT_STEP_LIMIT: u64 = 1_000_000_000;

/// The loaded plugins, in the order in which they were loaded. The handle of
/// a plugin is its place in that order.
pub struct PluginManager {
    engine: wasmtime::Engine,
    plugins: Vec<WasmPlugin>,
    step_limit: u64,
}

impl PluginManager {
    /// Every plugin is well formed and runs under the manager's step limit.
    pub closed spec fn wf(&self) -> bool {
        forall|handle: int|
            0 <= handle < self.plugins@.len() ==> (#[trigger] self.plugins@[handle]).wf()
                && self.plugins@[handle].step_budget() == self.step_limit
    }

    /// The loaded plugins, by handle.
    pub closed spec fn plugins(&self) -> Seq<WasmPlugin> {
        self.plugins@
    }

    /// The steps each call into a module may run.
    pub closed spec fn step_budget(&self) -> u64 {
        self.step_limit
    }

    /// Whether the manager's engine takes `source` for a module.
    pub closed spec fn takes(&self, source: Seq<u8>) -> bool {
        compiles(self.engine, source)
    }

    /// The descriptors of the loaded plugins, by handle.
    pub open spec fn descriptors(&self) -> Seq<InfoView> {
        Seq::new(self.plugins().len(), |handle: int| self.plugins()[handle].descriptor())
    }

    /// A manager without plugins, whose modules may run `step_limit` steps in
    /// each call. `None` where the engine cannot be set up.
    pub fn new(step_limit: u64) -> (made: Option<PluginManager>)
        ensures
            made matches Some(manager) ==> manager.wf() && manager.plugins().len() == 0
                && manager.step_budget() == step_limit,
    {
        match new_engine() {
            Some(engine) => Some(PluginManager { engine, plugins: Vec::new(), step_limit }),
            None => None,
        }
    }

    /// The number of loaded plugins.
    pub fn len(&self) -> (len: usize)
        ensures
            len == self.plugins().len(),
    {
        self.plugins.len()
    }

    /// Loads a module and appends it: the new handle is the number of plugins
    /// loaded before. The same source loaded twice gives two plugins. Where
    /// loading fails the manager stays as it was.
    pub fn load_plugin(&mut self, source: &[u8]) -> (loaded: Result<usize, LoadError>)
        requires
            old(self).wf(),
        ensures
            final(self).wf(),
            final(self).step_budget() == old(self).step_budget(),
            forall|source: Seq<u8>| #[trigger] final(self).takes(source) == old(self).takes(source),
            loaded matches Err(LoadError::CompileError) <==> !old(self).takes(source@),
            loaded matches Ok(handle) ==> handle == old(self).plugins().len()
                && final(self).plugins().len() == handle + 1
                && final(self).plugins().take(handle as int) == old(self).plugins(),
            loaded matches Ok(handle) ==> holds_descriptor(
                final(self).plugins()[handle as int].memory_bytes(),
                final(self).plugins()[handle as int].descriptor(),
            ),
            loaded is Err ==> *final(self) == *old(self),
    {
        match WasmPlugin::new(&self.engine, source, self.step_limit) {
            Ok(plugin) => {
                let handle = self.plugins.len();
                self.plugins.push(plugin);
                Ok(handle)
            },
            Err(error) => Err(error),
        }
    }

    /// Sends a request to the plugin under `handle`. An unknown handle gives
    /// `InvalidHandle` and leaves the manager as it was. Whatever the plugin
    /// does, every other plugin stays as it was, and so do all descriptors.
    pub fn execute_plugin(&mut self, handle: usize, request: PluginRequest) -> (answered: Result<
        PluginResponse,
        DispatchError,
    >)
        requires
            old(self).wf(),
        ensures
            final(self).wf(),
            final(self).step_budget() == old(self).step_budget(),
            forall|source: Seq<u8>| #[trigger] final(self).takes(source) == old(self).takes(source),
            final(self).plugins().len() == old(self).plugins().len(),
            final(self).descriptors() == old(self).descriptors(),
            forall|other: int|
                0 <= other < old(self).plugins().len() && other != handle
                    ==> final(self).plugins()[other] == old(self).plugins()[other],
            handle >= old(self).plugins().len() ==> answered == Err::<
                PluginResponse,
                DispatchError,
            >(DispatchError::InvalidHandle) && *final(self) == *old(self),
            handle < old(self).plugins().len() ==> !(answered matches Err(
                DispatchError::InvalidHandle,
            )),
    {
        if handle >= self.plugins.len() {
            return Err(DispatchError::InvalidHandle);
        }
        let answered = self.plugins[handle].execute(request);
        assert(self.descriptors() =~= old(self).descriptors());
        answered
    }

    /// Whether requests to the plugin under `handle` are written at the
    /// fallback address, because its module exports no `allocate`. An unknown
    /// handle gives `InvalidHandle`. The manager's plugins stay as they were.
    pub fn allocation_risk(&mut self, handle: usize) -> (risk: Result<bool, DispatchError>)
        requires
            old(self).wf(),
        ensures
            final(self).wf(),
            final(self).step_budget() == old(self).step_budget(),
            forall|source: Seq<u8>| #[trigger] final(self).takes(source) == old(self).takes(source),
            final(self).plugins().len() == old(self).plugins().len(),
            final(self).descriptors() == old(self).descriptors(),
            forall|other: int|
                0 <= other < old(self).plugins().len() && other != handle
                    ==> final(self).plugins()[other] == old(self).plugins()[other],
            risk is Ok <==> handle < old(self).plugins().len(),
            risk matches Ok(at_risk) ==> at_risk == !old(self).plugins()[handle as int].has_allocator(),
            risk matches Err(error) ==> error == DispatchError::InvalidHandle,
    {
        if handle >= self.plugins.len() {
            return Err(DispatchError::InvalidHandle);
        }
        let exported = self.plugins[handle].exports_allocator();
        assert(self.descriptors() =~= old(self).descriptors());
        Ok(!exported)
    }

    /// The loaded plugins for display: each handle with its descriptor, in
    /// order. No module is called.
    pub fn list_plugins(&self) -> (listed: Vec<(usize, PluginInfo)>)
        ensures
            listed@.len() == self.plugins().len(),
            forall|handle: int|
                0 <= handle < listed@.len() ==> (#[trigger] listed@[handle]).0 == handle
                    && listed@[handle].1@ == self.descriptors()[handle],
    {
        let mut listed: Vec<(usize, PluginInfo)> = Vec::new();
        let mut handle: usize = 0;
        while handle < self.plugins.len()
            invariant
                handle <= self.plugins@.len(),
                listed@.len() == handle,
                forall|seen: int|
                    0 <= seen < handle ==> (#[trigger] listed@[seen]).0 == seen
                        && listed@[seen].1@ == self.plugins@[seen].descriptor(),
            decreases self.plugins@.len() - handle,
        {
            listed.push((handle, self.plugins[handle].info().clone()));
            handle = handle + 1;
        }
        listed
    }
}

} // verus!
