//! Log lines of the platform.
use vstd::prelude::*;

verus! {

/// The log that a platform provides.
pub trait LoggerService: Send + Sync {
    /// Writes a line.
    fn log(&self, level: &str, message: &str);
}

} // verus!
