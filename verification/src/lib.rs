//! Boot selection service for Apple-Silicon machines running Asahi Linux.
//!
//! The crate decides whether firmware boot selection is available on the
//! host, decides per operation whether elevated privileges must be acquired
//! first, offers one capability set over two interchangeable backends (a
//! firmware-backed one and a deterministic mock), and reconciles the current
//! default boot target against the enumerated candidate list.

pub mod candidate;
pub mod error;
pub mod startup_disk;
pub mod text;
