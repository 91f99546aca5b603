//! A minimal file-store core: named files in a flat, sandboxed storage area,
//! with lazy-create handle resolution, offset-addressed byte-range reads and
//! writes, a driver for the scoped stream behind each write, and a closed
//! error taxonomy into which foreign backend failures are translated.

pub mod error;
pub mod store;
pub mod writer;
