//! Fixed-capacity containers over pluggable storage backends, a shared-ownership
//! pointer carrying an allocator handle, and the value types of a small logging
//! facade.

pub mod allocator;
pub mod arc_in;
pub mod fixed_buf;
pub mod fixed_capacity_queue;
pub mod fixed_capacity_vec;
pub mod fmt;
pub mod fmt_impl;
pub mod fmt_spec;
pub mod generic_queue;
pub mod generic_vec;
pub mod heap;
pub mod inline;
pub mod inline_queue;
pub mod level;
pub mod storage;
