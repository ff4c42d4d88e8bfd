use vstd::prelude::*;

verus! {

/// The product of a 64-bit signed value and a 32-bit unsigned value stays
/// far inside the 128-bit signed range.
proof fn lemma_i64_times_u32_fits_i128(a: int, b: int)
    requires
        i64::MIN <= a <= i64::MAX,
        0 <= b <= u32::MAX,
    ensures
        i128::MIN <= a * b <= i128::MAX,
{
    assert(i128::MIN <= a * b <= i128::MAX) by (nonlinear_arith)
        requires
            -0x8000_0000_0000_0000 <= a <= 0x7fff_ffff_ffff_ffff,
            0 <= b <= 0xffff_ffff,
    {}
}

/// An RGBA color.  Each channel runs 0..=255 and stands for the 0.0..=1.0
/// channel value the pixel pipeline consumes (channel / 255).
#[derive(Clone, Copy, PartialEq, Eq, Structural, Debug)]
pub struct Color {
    pub r: u8,
    pub g: u8,
    pub b: u8,
    pub a: u8,
}

/// One normalized-device coordinate, kept exact as the fraction
/// `num / den` with `den > 0`.  The platform layer turns it into the
/// floating-point value the rasterizer consumes.
#[derive(Clone, Copy, PartialEq, Eq, Structural, Debug)]
pub struct Ndc {
    pub num: i64,
    pub den: u32,
}

impl Ndc {
    /// The coordinate equals the fraction `num / den`, compared exactly by
    /// cross-multiplication.
    pub open spec fn spec_is_value(self, num: int, den: int) -> bool {
        self.num * den == num * self.den
    }

    pub fn is_value(&self, num: i64, den: u32) -> (r: bool)
        ensures
            r == self.spec_is_value(num as int, den as int),
    {
        proof {
            lemma_i64_times_u32_fits_i128(self.num as int, den as int);
            lemma_i64_times_u32_fits_i128(num as int, self.den as int);
        }
        (self.num as i128) * (den as i128) == (num as i128) * (self.den as i128)
    }
}

/// One batched vertex: an exact 2D position in normalized device
/// coordinates and a flat color.  The pipeline-side vertex adds a third
/// position component that is fixed at zero for this strictly 2D overlay.
#[derive(Clone, Copy, PartialEq, Eq, Structural, Debug)]
pub struct Vertex {
    pub x: Ndc,
    pub y: Ndc,
    pub color: Color,
}

/// Byte stride of one pipeline-side vertex: three 32-bit position floats
/// followed by four 32-bit color floats.
pub const VERTEX_STRIDE_BYTES: u32 = 28;

/// A position in screen pixel space, origin at the top-left corner.
#[derive(Clone, Copy, PartialEq, Eq, Structural, Debug)]
pub struct Point {
    pub x: i64,
    pub y: i64,
}

/// The pixel size of the drawing surface.  Both sides are at least one
/// pixel, so coordinate conversion never divides by zero.
#[derive(Clone, Copy, PartialEq, Eq, Structural, Debug)]
pub struct Resolution {
    pub width: u32,
    pub height: u32,
}

/// Largest coordinate or thickness magnitude the renderer accepts.  Beyond
/// two to the twenty-fourth, single-precision pipeline positions could not
/// tell neighbouring pixels apart anyway.
pub const MAX_COORD: i64 = 0x100_0000;

/// Largest pixel position that still converts to NDC without overflow;
/// generously above anything a thickness offset can add to `MAX_COORD`.
pub const POSITION_LIMIT: i64 = 0x4_0000_0000_0000;

/// The horizontal pixel-to-NDC map: `x` maps to `2 * x / width - 1`, kept
/// exact as the fraction `(2 * x - width) / width`.
pub open spec fn spec_ndc_x(x: int, width: u32) -> Ndc {
    Ndc { num: (2 * x - width) as i64, den: width }
}

/// The vertical pixel-to-NDC map: `y` maps to `1 - 2 * y / height` (the Y
/// axis flips), kept exact as the fraction `(height - 2 * y) / height`.
pub open spec fn spec_ndc_y(y: int, height: u32) -> Ndc {
    Ndc { num: (height - 2 * y) as i64, den: height }
}

/// The batched vertex for pixel position `(x, y)`.
pub open spec fn spec_vertex(x: int, y: int, color: Color, res: Resolution) -> Vertex {
    Vertex { x: spec_ndc_x(x, res.width), y: spec_ndc_y(y, res.height), color }
}

} // verus!
