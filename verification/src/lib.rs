//! A bridge between a native userspace-filesystem session and typed,
//! memory-safe filesystem handlers.
//!
//! The native session is a single blocking loop that calls back once per
//! filesystem request. This library holds everything the bridge decides:
//! how raw callback arguments become typed operations, which handler an
//! operation is routed to, which reply each handler result turns into, how a
//! directory listing is packed into a bounded buffer, and how a mount moves
//! through its lifecycle. The calls into the native layer themselves, and the
//! threads that keep handlers off the native loop, live with the caller.

pub mod c_str;
pub mod errno;
pub mod hello;
pub mod highlevel;
pub mod lowlevel;
pub mod native;
pub mod stat;
pub mod thin;
