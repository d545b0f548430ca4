//! Decision core for starting an embedded managed runtime inside the current
//! process and handing control to one managed entry point.
//!
//! The library makes no native call. It decides: a [`bootstrap::Bootstrap`]
//! names the one request that is pending, the embedder carries it out and
//! reports what came back, and the bootstrap then either names the next
//! request or is over, with an error or with the return code of the entry
//! point. [`model`] says in mathematical terms what every step does, and
//! [`laws`] proves what follows for whole runs.

pub mod bootstrap;
pub mod context;
pub mod error;
pub mod handoff;
pub mod laws;
pub mod model;
pub mod protocol;
pub mod render;
