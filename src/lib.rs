//! Typed façade over a native message-passing runtime.
//!
//! The library holds the parts of the façade that decide: the element-kind and
//! operator tags handed to the native entry points, the local checks made on
//! buffers before any native call, the interpretation of native status codes,
//! and the conversions between text and byte buffers. The native calls
//! themselves are made by the program around it.
use vstd::prelude::*;

pub mod collective;
pub mod conversion;
pub mod enums;
pub mod status;

pub use crate::collective::{
    allgather_call, allreduce_call, broadcast_call, gather_call, gather_root_call, receive_call,
    reduce_call, scatter_call, scatter_root_call, send_call, subset_ranks, NativeCall, ReduceOp,
};
pub use crate::conversion::{bytes_to_string, bytes_to_string_lossy, str_to_bytes, to_i32, trim_end_nul};
pub use crate::enums::{MpiOpComplex, MpiOpInt, MpiOpReal, MpiThread, MpiType};
pub use crate::status::{check_status, count_outcome, flag_outcome, init_thread_outcome};

verus! {

/// Error type of the library: a static message.
pub type StrError = &'static str;

} // verus!
