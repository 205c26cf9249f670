use vstd::prelude::*;

verus! {

/// Bit pattern of the single-precision float 0.0.
pub const F32_ZERO_BITS: u32 = 0;

/// Bit pattern of the single-precision float 1.0.
pub const F32_ONE_BITS: u32 = 0x3F80_0000;

/// The camera part of the uniform block: (cam_x, cam_y, zoom), each the bit pattern of
/// the single-precision float that the shader receives. A map point `p` lands on the
/// screen at `p * zoom - cam`.
#[derive(Clone, Copy, Debug, PartialEq, Eq, Structural)]
pub struct Transform {
    pub cam_x: u32,
    pub cam_y: u32,
    pub zoom: u32,
}

impl Transform {
    /// Zoom one, origin at the screen's top left: map coordinates are screen pixels.
    pub open spec fn identity_spec() -> Transform {
        Transform { cam_x: F32_ZERO_BITS, cam_y: F32_ZERO_BITS, zoom: F32_ONE_BITS }
    }

    pub fn identity() -> (r: Transform)
        ensures
            r == Transform::identity_spec(),
    {
        Transform { cam_x: F32_ZERO_BITS, cam_y: F32_ZERO_BITS, zoom: F32_ONE_BITS }
    }
}

/// Which of the shader's three modes is active.
#[derive(Clone, Copy, Debug, PartialEq, Eq, Structural)]
pub enum RenderMode {
    /// Map space, plain.
    NoHatching,
    /// Map space, with the hatching overlay.
    Hatching,
    /// Screen space: the camera of the canvas is not applied.
    ScreenSpace,
}

impl RenderMode {
    pub open spec fn code_spec(self) -> u8 {
        match self {
            RenderMode::NoHatching => 0,
            RenderMode::Hatching => 1,
            RenderMode::ScreenSpace => 2,
        }
    }

    /// The number that stands for the mode in the third component of the window
    /// uniform.
    pub fn code(&self) -> (r: u8)
        ensures
            r == self.code_spec(),
    {
        match self {
            RenderMode::NoHatching => 0,
            RenderMode::Hatching => 1,
            RenderMode::ScreenSpace => 2,
        }
    }
}

/// What the renderer reads of the canvas each frame: the camera and the window size,
/// as single-precision bit patterns.
#[derive(Clone, Copy, Debug, PartialEq, Eq, Structural)]
pub struct Canvas {
    pub cam_x: u32,
    pub cam_y: u32,
    pub cam_zoom: u32,
    pub window_width: u32,
    pub window_height: u32,
}

/// Everything the shader program is given besides the bound textures.
#[derive(Clone, Copy, Debug, PartialEq, Eq, Structural)]
pub struct Uniforms {
    pub transform: Transform,
    pub window_width: u32,
    pub window_height: u32,
    pub mode: RenderMode,
}

pub open spec fn hatching_mode(hatching: bool) -> RenderMode {
    if hatching { RenderMode::Hatching } else { RenderMode::NoHatching }
}

impl Uniforms {
    /// The uniforms of the canvas's own camera, in map space.
    pub open spec fn primary(canvas: Canvas, hatching: bool) -> Uniforms {
        Uniforms {
            transform: Transform { cam_x: canvas.cam_x, cam_y: canvas.cam_y, zoom: canvas.cam_zoom },
            window_width: canvas.window_width,
            window_height: canvas.window_height,
            mode: hatching_mode(hatching),
        }
    }

    /// The uniforms of a sub-scene drawn with its own camera, in screen space.
    pub open spec fn forked(canvas: Canvas, t: Transform) -> Uniforms {
        Uniforms {
            transform: t,
            window_width: canvas.window_width,
            window_height: canvas.window_height,
            mode: RenderMode::ScreenSpace,
        }
    }

    pub fn new(canvas: &Canvas) -> (r: Uniforms)
        ensures
            r == Uniforms::primary(*canvas, false),
    {
        Uniforms {
            transform: Transform { cam_x: canvas.cam_x, cam_y: canvas.cam_y, zoom: canvas.cam_zoom },
            window_width: canvas.window_width,
            window_height: canvas.window_height,
            mode: RenderMode::NoHatching,
        }
    }
}

} // verus!
