//! Verified core of a foreign-function bridge around an embedded client
//! runtime.
//!
//! The bridge hands opaque handles to foreign callers, converts their raw
//! argument buffers into validated argument lists, maps the runtime's start
//! verdicts onto status codes and handle slots, and delivers exactly one
//! notification per accepted asynchronous query.  Everything the foreign
//! boundary decides — what is accepted, what is rejected, which payload a
//! callback receives — is modelled and proved here; the unsafe pointer
//! plumbing around it lives outside the verified library.

pub mod args;
pub mod boundary;
pub mod callback;
pub mod config;
pub mod rpc;
pub mod start;
pub mod utf8;
