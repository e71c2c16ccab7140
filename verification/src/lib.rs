//! Per-pod execution supervisor for a Kubernetes node agent that runs
//! WebAssembly WAGI modules as HTTP handlers instead of OCI containers.
//!
//! The crate holds the pod lifecycle state machine, the annotation-driven
//! module-configuration resolver, the execution-handle model with its
//! idempotent stop protocol, the provider-level registry that serves
//! out-of-band log and stop requests, and the renderer for the modules
//! file handed to the external router builder.

pub mod config;
pub mod json;
pub mod provider;
pub mod render;
pub mod resolve;
pub mod runtime;
pub mod state;
