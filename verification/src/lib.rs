//! Verified core of a thin installer wrapper: it copies ownership and
//! permission bits from a reference file onto files being installed, by
//! invoking a system `install` utility with computed `-o`/`-g`/`-m`
//! arguments.  The decision logic — pairing sources with destinations,
//! formatting the ownership triple, and building the exact command line —
//! is verified here; the binary around the library performs the actual
//! `stat` and process spawning.

pub mod cli;
pub mod invoke;
pub mod metadata;
pub mod numfmt;
pub mod paths;
pub mod resolve;
