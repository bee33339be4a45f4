//! A non-panicking, bounds-checked adapter for filling a fixed-size byte
//! region through append-style write operations.
//!
//! `SafeBytesSlice` wraps a fixed-length byte region together with a write
//! cursor and a sticky overflow flag.  Producers append bytes through
//! `put_slice` / `put_u8`; a write that does not fit is rejected in its
//! entirety and flips the region into a permanent overflow state instead of
//! panicking or writing out of bounds.  `try_into_bytes` then either yields
//! exactly the written prefix or reports `CapacityExceeded`.

pub mod bytes_slice;
pub mod error;
pub mod laws;

pub use bytes_slice::RegionModel;
pub use bytes_slice::SafeBytesSlice;
pub use error::CapacityExceeded;
