//! Command-line arguments of a viewer binary built around the library.

use vstd::prelude::*;

verus! {

/// Arguments a viewer needs: the path to the video device node to open.
#[derive(Debug)]
pub struct Args {
    /// Path to the video device.
    pub device: String,
}

} // verus!
