//! A playground frame: an append-only, ordered list of input blocks with a
//! focus index, a global display toggle, and a one-shot "apply focus after the
//! next render" flag, driven by a closed set of events.

pub mod block;
pub mod digits;
pub mod frame;
pub mod laws;
pub mod msg;
