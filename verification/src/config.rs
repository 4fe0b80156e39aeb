//! The configuration of the library.

use vstd::prelude::*;

use self::v1::ConfigV1;

pub mod v1;

verus! {

/// A configuration of the library.
///
/// Configurations are versioned, so that the format can grow without breaking the
/// configurations that exist.
pub enum Configuration {
    /// Version 1
    V1(ConfigV1),
}

} // verus!
