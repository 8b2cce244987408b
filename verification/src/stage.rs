//! Pipeline stages a shader can target.

use vstd::prelude::*;

verus! {

/// The GL enumerant for a vertex shader.
pub const VERTEX_STAGE: u32 = 0x8B31;

/// The GL enumerant for a fragment shader.
pub const FRAGMENT_STAGE: u32 = 0x8B30;

/// Which pipeline stage a shader targets.
#[derive(Clone, Copy, PartialEq, Eq, Structural, Debug)]
pub enum StageKind {
    Vertex,
    Fragment,
}

impl StageKind {
    /// The enumerant under which the driver knows this stage.
    pub open spec fn spec_raw(self) -> u32 {
        match self {
            StageKind::Vertex => VERTEX_STAGE,
            StageKind::Fragment => FRAGMENT_STAGE,
        }
    }

    /// The value to hand the driver when creating a shader of this stage.
    pub fn to_raw(self) -> (r: u32)
        ensures
            r == self.spec_raw(),
    {
        match self {
            StageKind::Vertex => VERTEX_STAGE,
            StageKind::Fragment => FRAGMENT_STAGE,
        }
    }

    /// The stage a driver enumerant stands for, if any.
    pub fn from_raw(raw: u32) -> (r: Option<StageKind>)
        ensures
            raw == VERTEX_STAGE ==> r == Some(StageKind::Vertex),
            raw == FRAGMENT_STAGE ==> r == Some(StageKind::Fragment),
            raw != VERTEX_STAGE && raw != FRAGMENT_STAGE ==> r is None,
    {
        if raw == VERTEX_STAGE {
            Some(StageKind::Vertex)
        } else if raw == FRAGMENT_STAGE {
            Some(StageKind::Fragment)
        } else {
            None
        }
    }
}

} // verus!
