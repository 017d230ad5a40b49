//! The configuration a canvas window is opened with.

use vstd::prelude::*;
use crate::dimensions::{LogicalSize, Scale};

verus! {

/// The size and scale requested at open time. Immutable for the life of the
/// window except through explicit `resized` calls.
#[derive(Clone, Copy, Debug, PartialEq, Eq, Structural)]
pub struct WindowAttributes {
    pub size: LogicalSize,
    pub scale: Scale,
}

impl WindowAttributes {
    /// Attributes are meaningful only with a strictly positive scale.
    pub open spec fn is_valid(self) -> bool {
        self.scale.is_valid()
    }

    pub fn new(size: LogicalSize, scale: Scale) -> (r: WindowAttributes)
        requires
            scale.is_valid(),
        ensures
            r.size == size,
            r.scale == scale,
            r.is_valid(),
    {
        WindowAttributes { size, scale }
    }
}

} // verus!
