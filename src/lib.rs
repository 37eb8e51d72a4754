//! The interop core of an embedding layer that exposes host functions,
//! objects and modules to script engines.
//!
//! - `var`: the tagged value exchanged with the engines, with ownership-aware
//!   copying and negative list indexing.
//! - `func` and `object`: the registries that turn native callbacks and host
//!   objects into integer handles, and what a host object's release frees.
//! - `module`: the module trees the host builds, their naming rules, and
//!   their flattening for registration.
//! - `runtime`: engine selection, the checks of the cross-language call
//!   entry points, the conversion of values to text, and the adapter traits.
//! - `python`: the per-thread name and class bookkeeping of the Python
//!   adapter.
//! - `lifecycle`: the initialization state machine.
pub mod func;
pub mod lifecycle;
pub mod module;
pub mod object;
pub mod python;
pub mod runtime;
pub mod var;
