//! The resolution half of a capture format, as the UI sees it.

use vstd::prelude::*;

verus! {

/// A capture resolution: width and height in pixels. Equality is structural.
/// The pixel layout is tracked separately (see [`crate::capability::PixelLayout`]);
/// the UI never chooses it.
#[derive(Clone, Copy, Debug, PartialEq, Eq, Structural)]
pub struct Format {
    pub width: u32,
    pub height: u32,
}

impl DeepView for Format {
    type V = Format;

    open spec fn deep_view(&self) -> Format {
        *self
    }
}

} // verus!
