//! The host side of a boundary to sandboxed guest code whose functions take
//! and return nothing but integers.
//!
//! A value crosses the boundary as bytes in the guest's linear memory, and the
//! integer that travels is the place of those bytes: an offset and a length,
//! packed into one 64-bit word.
//!
//! - `pair` packs an offset and a length into one word and unpacks them.
//! - `error` names what can go wrong and where it went wrong.
//! - `engine` and `codec` state what the library relies on in the engine's
//!   linear memory and in the byte codec.
//! - `memory` manages a guest's linear memory: it hands out room, growing the
//!   memory by whole pages, and reads and writes with bounds checked.
//! - `marshal` moves values into and out of the memory.
//! - `host` holds the functions that the host offers to the guest.
//! - `dispatch` drives one call into the guest from beginning to end.
//! - `batch` counts the outcomes of many calls.
//! - `payload` holds a small structure to exercise the boundary with.
//! - `laws` proves what holds of all of these together.

pub mod batch;
pub mod codec;
pub mod dispatch;
pub mod engine;
pub mod error;
pub mod host;
pub mod laws;
pub mod marshal;
pub mod memory;
pub mod pair;
pub mod payload;
