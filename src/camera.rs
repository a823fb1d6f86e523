use vstd::prelude::*;

verus! {

/// A direction the camera can be moved in.
#[derive(Debug, Clone, Copy, PartialEq, Eq, Structural)]
pub enum CameraMovement {
    FORWARD,
    BACKWARD,
    LEFT,
    RIGHT,
}

impl CameraMovement {
    /// The direction's code: 0 forward, 1 backward, 2 left, 3 right.
    pub open spec fn spec_val(&self) -> i32 {
        match self {
            CameraMovement::FORWARD => 0,
            CameraMovement::BACKWARD => 1,
            CameraMovement::LEFT => 2,
            CameraMovement::RIGHT => 3,
        }
    }

    pub fn val(&self) -> (r: i32)
        ensures
            r == self.spec_val(),
    {
        match self {
            CameraMovement::FORWARD => 0,
            CameraMovement::BACKWARD => 1,
            CameraMovement::LEFT => 2,
            CameraMovement::RIGHT => 3,
        }
    }
}

} // verus!
