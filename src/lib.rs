//! Safe host-side layer over the mJS scripting engine.
//!
//! The engine itself is reached through its C call surface, which only the
//! host program can drive. This crate holds the decisions around each engine
//! call: the checks made before the engine is touched, how arguments are
//! marshaled for a call, how rooting is tracked, and how what the engine
//! reported becomes a value or an error.
pub mod bridge;
pub mod error;
pub mod text;
pub mod value;
pub mod vm;

pub use bridge::{ApplyRequest, MAX_ARGS};
pub use error::JSError;
pub use value::{Kind, Val, ValModel};
pub use vm::{Reply, VM};
