//! A host for sandboxed plugins, and the module side of the boundary.
//!
//! A plugin is a WebAssembly module. Host and module exchange three
//! messages, each as an envelope of JSON text: the descriptor a module
//! reports when it is loaded, requests and responses. An envelope crosses
//! the boundary as an address and a length in the module's own memory.

pub mod envelope;
pub mod fixture;
pub mod guest;
pub mod json;
pub mod manager;
pub mod plugin;
pub mod protocol;
pub mod sandbox;
pub mod text;
