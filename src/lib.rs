//! A cache of images bound for graphics memory.
//!
//! Each image identity maps to one [`Memory`] record, which tells where the
//! pixels live: in host memory, in a slot of a texture atlas or a dedicated
//! binding on the device, or nowhere because loading failed. The [`Cache`]
//! tracks which identities were used since its last sweep and, on
//! [`Cache::trim`], drops the records that nobody needs any more, handing
//! back the device resources that must be released.

pub mod memory;
pub mod cache;
pub mod laws;

pub use cache::{Cache, Eviction, Release};
pub use memory::{BindGroup, Entry, Error, Handle, Image, Memory, Size};
