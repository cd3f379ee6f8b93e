//! The decision core of a non-blocking Unix datagram socket facade.
//!
//! Nothing here touches the kernel. A driver performs each non-blocking call
//! and hands its outcome to this crate, which decides what the facade yields:
//! a finished result, or a suspension until the descriptor is ready again.

pub mod addr;
pub mod datagram;
pub mod error;
pub mod readiness;
pub mod request;
