//! Configuration errors, raised before any command is produced.

use vstd::prelude::*;

verus! {

/// Why a configuration was turned down.
#[derive(Debug, Clone, Copy, PartialEq, Eq, Structural)]
pub enum ConfigError {
    /// The upper-right corner of the plot area does not lie above and to the
    /// right of its lower-left corner.
    DegenerateBounds,
    /// The rolling circle was given more teeth than the fixed circle.
    InnerExceedsOuter,
}

} // verus!
