//! Bloom filters that a worker builds and backend scans probe.
//!
//! A filter goes through generations. A probe may reject a key only while its
//! own generation is ready; in every other state it lets the row pass.

pub mod attach_laws;
pub mod bloom;
pub mod error_text;
pub mod hash;
pub mod hash_laws;
pub mod lifecycle;
pub mod pool;
pub mod pool_laws;
pub mod sharing_laws;
