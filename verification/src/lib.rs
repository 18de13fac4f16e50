//! Option- and Result-shaped wrappers around opaque values from a
//! dynamically-typed host, with the boundary rules that normalize the
//! host's null and undefined sentinels into the empty or failure variant.

pub mod value;
pub mod option;
pub mod result;
