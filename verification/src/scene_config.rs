use vstd::prelude::*;

verus! {

/// Which debug views a scene's viewport shows.
#[derive(Debug, Clone, Copy, PartialEq, Eq, Structural)]
pub struct A3dViewport {
    pub show_world_debug: bool,
    pub show_camera3d: bool,
}

impl Default for A3dViewport {
    /// The world debug view on, the camera view off.
    fn default() -> (viewport: Self)
        ensures
            viewport.show_world_debug,
            !viewport.show_camera3d,
    {
        A3dViewport { show_world_debug: true, show_camera3d: false }
    }
}

/// How a physics body moves.
#[derive(Debug, Clone, Copy, PartialEq, Eq, Structural)]
pub enum BodyType {
    Static,
    Dynamic,
    Kinematic,
}

/// Camera projection mode.
#[derive(Debug, Clone, Copy, PartialEq, Eq, Structural)]
pub enum CameraProjection {
    Perspective,
    Orthographic,
}

} // verus!
