//! Effects built on the deferred computation.

pub mod io;
