//! Buffer pools, a UDP socket front end and multipath QUIC path handles.
//!
//! The library's own logic is stated as contracts and proved. What the
//! operating system or a QUIC connection answers is not modelled: of those
//! calls the contracts state which call was made, with which arguments, and
//! that its answer is what is returned.

pub mod fallback_buffer_pool;
pub mod udp;
pub mod path;
