//! Native-function dispatch for the Move virtual machine: the registry that
//! maps (address, module, function) triples to host implementations, and the
//! per-call execution context through which an implementation reaches the VM.

pub mod status;
pub mod identifier;
pub mod registry;
pub mod context;
pub mod events;
