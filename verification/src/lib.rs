//! Operation descriptors for completion-based socket I/O.
//!
//! Each descriptor owns the buffer(s) of one outstanding kernel request
//! (connection accept, scatter/gather receive, scatter/gather send) from
//! construction until a one-shot consuming extraction hands them back.

pub mod buffer;
pub mod complete;
pub mod op;
