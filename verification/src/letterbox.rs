//! The letterbox compositor's inputs and geometry.
//!
//! One shared pass scales a source texture into a destination of another
//! shape: the source keeps its aspect ratio, is centred, and the rest of the
//! destination is black. The pass is driven by three scalar inputs, written
//! anew before every draw, and by the size of the texture bound to it.

use vstd::prelude::*;

verus! {

/// A ratio of two pixel counts, `numer / denom`.
#[derive(Debug, Clone, Copy, PartialEq, Eq, Structural)]
pub struct AspectRatio {
    pub numer: u32,
    pub denom: u32,
}

/// The scalar inputs of the letterbox pass.
#[derive(Debug, Clone, Copy, PartialEq, Eq, Structural)]
pub struct LetterboxUniforms {
    pub output_width: u32,
    pub output_height: u32,
    /// Width over height of the destination.
    pub aspect_ratio: AspectRatio,
}

/// A rectangle of pixels inside a destination.
#[derive(Debug, Clone, Copy, PartialEq, Eq, Structural)]
pub struct Region {
    pub x: u32,
    pub y: u32,
    pub width: u32,
    pub height: u32,
}

/// The inputs for a destination of `width` by `height` pixels; none for a
/// destination without height, which has no aspect ratio and is not drawn.
pub open spec fn uniforms_for(width: u32, height: u32) -> Option<LetterboxUniforms> {
    if height == 0 {
        None
    } else {
        Some(
            LetterboxUniforms {
                output_width: width,
                output_height: height,
                aspect_ratio: AspectRatio { numer: width, denom: height },
            },
        )
    }
}

/// Computes the three inputs from the size of the acquired image.
pub fn letterbox_uniforms(width: u32, height: u32) -> (uniforms: Option<LetterboxUniforms>)
    ensures
        uniforms == uniforms_for(width, height),
{
    if height == 0 {
        None
    } else {
        Some(
            LetterboxUniforms {
                output_width: width,
                output_height: height,
                aspect_ratio: AspectRatio { numer: width, denom: height },
            },
        )
    }
}

impl LetterboxUniforms {
    /// Whether a source of `source_width : source_height` is at least as wide,
    /// for its height, as the destination: it then fills the destination's
    /// width and leaves bars above and below.
    pub open spec fn fills_width(self, source_width: u32, source_height: u32) -> bool {
        self.aspect_ratio.numer * source_height <= self.aspect_ratio.denom * source_width
    }

    /// Width and height of the part of the destination that shows the source.
    pub open spec fn content_size(self, source_width: u32, source_height: u32) -> (int, int) {
        if self.fills_width(source_width, source_height) {
            (
                self.output_width as int,
                (self.output_width * source_height) / (source_width as int),
            )
        } else {
            (
                (self.output_height * source_width) / (source_height as int),
                self.output_height as int,
            )
        }
    }

    /// The inputs describe one destination consistently.
    pub open spec fn consistent(self) -> bool {
        &&& self.output_height > 0
        &&& self.aspect_ratio.numer == self.output_width
        &&& self.aspect_ratio.denom == self.output_height
    }

    /// Where the pass draws a source of the given size: the content, scaled
    /// to fit and centred.
    pub open spec fn content_region(self, source_width: u32, source_height: u32) -> Region {
        let (w, h) = self.content_size(source_width, source_height);
        Region {
            x: ((self.output_width - w) / 2) as u32,
            y: ((self.output_height - h) / 2) as u32,
            width: w as u32,
            height: h as u32,
        }
    }
}

/// The part of a destination that shows a source of the given size, or none
/// where nothing is drawn: the destination has no height, or the source has
/// no width or no height and so no aspect ratio.
pub open spec fn content_region_for(
    dest_width: u32,
    dest_height: u32,
    source_width: u32,
    source_height: u32,
) -> Option<Region> {
    match uniforms_for(dest_width, dest_height) {
        None => None,
        Some(uniforms) => if source_width == 0 || source_height == 0 {
            None
        } else {
            Some(uniforms.content_region(source_width, source_height))
        },
    }
}

/// Computes where the letterbox pass shows a source of `source_width` by
/// `source_height` texels in a destination of `dest_width` by `dest_height`
/// pixels.
pub fn content_region(
    dest_width: u32,
    dest_height: u32,
    source_width: u32,
    source_height: u32,
) -> (region: Option<Region>)
    ensures
        region == content_region_for(dest_width, dest_height, source_width, source_height),
{
    let uniforms = match letterbox_uniforms(dest_width, dest_height) {
        Some(u) => u,
        None => {
            return None;
        },
    };
    if source_width == 0 || source_height == 0 {
        return None;
    }
    let sw = source_width as u64;
    let sh = source_height as u64;
    proof {
        lemma_product_fits(uniforms.output_width, source_height);
        lemma_product_fits(uniforms.output_height, source_width);
        lemma_content_size(uniforms, source_width, source_height);
    }
    if uniforms.aspect_ratio.numer as u64 * sh <= uniforms.aspect_ratio.denom as u64 * sw {
        let height = (uniforms.output_width as u64 * sh / sw) as u32;
        Some(
            Region {
                x: 0,
                y: (uniforms.output_height - height) / 2,
                width: uniforms.output_width,
                height,
            },
        )
    } else {
        let width = (uniforms.output_height as u64 * sw / sh) as u32;
        Some(
            Region {
                x: (uniforms.output_width - width) / 2,
                y: 0,
                width,
                height: uniforms.output_height,
            },
        )
    }
}

proof fn lemma_product_fits(a: u32, b: u32)
    ensures
        a * b <= u64::MAX,
{
    assert(a * b <= 0xffff_ffff * 0xffff_ffff) by (nonlinear_arith)
        requires
            a <= 0xffff_ffff,
            b <= 0xffff_ffff,
    ;
}

/// The content is no larger than the destination, spans its width or its
/// height, and has the source's aspect ratio up to the rounding of one pixel.
pub proof fn lemma_content_size(uniforms: LetterboxUniforms, source_width: u32, source_height: u32)
    requires
        uniforms.consistent(),
        source_width > 0,
        source_height > 0,
    ensures
        ({
            let (w, h) = uniforms.content_size(source_width, source_height);
            &&& 0 <= w <= uniforms.output_width
            &&& 0 <= h <= uniforms.output_height
            &&& w == uniforms.output_width || h == uniforms.output_height
            &&& uniforms.fills_width(source_width, source_height) ==> w == uniforms.output_width
                && 0 <= w * source_height - h * source_width < source_width
            &&& !uniforms.fills_width(source_width, source_height) ==> h == uniforms.output_height
                && 0 <= h * source_width - w * source_height < source_height
            &&& uniforms.output_width * source_height == uniforms.output_height * source_width
                ==> w == uniforms.output_width && h == uniforms.output_height
        }),
{
    let dw = uniforms.output_width as int;
    let dh = uniforms.output_height as int;
    let sw = source_width as int;
    let sh = source_height as int;
    if uniforms.fills_width(source_width, source_height) {
        let h = (dw * sh) / sw;
        assert(0 <= dw * sh - h * sw < sw && 0 <= h <= dh && (dw * sh == dh * sw ==> h == dh))
            by (nonlinear_arith)
            requires
                h == (dw * sh) / sw,
                dw * sh <= dh * sw,
                sw > 0,
                sh > 0,
                dw >= 0,
                dh > 0,
        ;
    } else {
        let w = (dh * sw) / sh;
        assert(0 <= dh * sw - w * sh < sh && 0 <= w <= dw) by (nonlinear_arith)
            requires
                w == (dh * sw) / sh,
                dw * sh > dh * sw,
                sw > 0,
                sh > 0,
                dw >= 0,
                dh > 0,
        ;
    }
}

/// The letterbox keeps the source's aspect ratio. For a destination with
/// height and a source with width and height, the content region
/// - lies inside the destination and spans its width or its height,
/// - is centred: the bars on either side differ by at most one pixel,
/// - has the source's aspect ratio up to the rounding of one pixel: with the
///   content `w` by `h` and the source `sw` by `sh`, `w * sh` exceeds
///   `h * sw` by less than `sw` where the content spans the width, and
///   `h * sw` exceeds `w * sh` by less than `sh` where it spans the height,
/// - is the whole destination where source and destination have the same
///   aspect ratio.
pub proof fn lemma_letterbox_preserves_aspect(
    dest_width: u32,
    dest_height: u32,
    source_width: u32,
    source_height: u32,
)
    requires
        dest_height > 0,
        source_width > 0,
        source_height > 0,
    ensures
        content_region_for(dest_width, dest_height, source_width, source_height) matches Some(r)
            && {
            &&& r.x + r.width <= dest_width
            &&& r.y + r.height <= dest_height
            &&& r.width == dest_width || r.height == dest_height
            &&& 0 <= (dest_width - r.width - r.x) - r.x <= 1
            &&& 0 <= (dest_height - r.height - r.y) - r.y <= 1
            &&& if dest_width * source_height <= dest_height * source_width {
                0 <= r.width * source_height - r.height * source_width < source_width
            } else {
                0 <= r.height * source_width - r.width * source_height < source_height
            }
            &&& dest_width * source_height == dest_height * source_width ==> r == (Region {
                x: 0,
                y: 0,
                width: dest_width,
                height: dest_height,
            })
        },
{
    let uniforms = uniforms_for(dest_width, dest_height)->0;
    lemma_content_size(uniforms, source_width, source_height);
}

} // verus!
