//! Bringing a texture back to host memory.
//!
//! A readback goes in steps, and the caller takes every step that touches the
//! GPU. A [`ReadbackPlan`] lays out the staging buffer and names the copy to
//! submit; [`map_outcome`] judges what the completion channel of the map
//! request delivered; [`ReadbackPlan::unpad_rows`] drops the row padding once
//! the buffer is mapped.

use vstd::prelude::*;
use vstd::slice::slice_subrange;
use crate::format::block_copy_bytes;
use crate::format::block_copy_size;
use crate::layout::lemma_align_up;
use crate::layout::lemma_empty_layout;
use crate::layout::lemma_source_index;
use crate::layout::Layout;
use crate::layout::ROW_ALIGNMENT;

verus! {

/// Why a readback gave no bytes.
#[derive(Debug, PartialEq, Eq)]
pub enum ReadbackError {
    /// The texture's format has no byte size for a copy of whole texels.
    UnsupportedFormat,
    /// A row stride or the staging buffer would be larger than can be addressed.
    TooLarge,
    /// The backend reported that mapping the staging buffer failed.
    MapFailed(String),
    /// The completion channel was dropped before it carried a result.
    ChannelClosed,
}

impl ReadbackError {
    /// The text that `message` gives.
    pub open spec fn message_text(self) -> Seq<char> {
        match self {
            ReadbackError::UnsupportedFormat => "texture format has no byte size for a copy"@,
            ReadbackError::TooLarge => "texture is too large to read back"@,
            ReadbackError::MapFailed(detail) => detail@,
            ReadbackError::ChannelClosed => "sender channel died"@,
        }
    }

    /// The error as text for the host: the backend's own words for a failed
    /// map, a fixed sentence for the others.
    pub fn message(&self) -> (text: String)
        ensures
            text@ == self.message_text(),
    {
        match self {
            ReadbackError::UnsupportedFormat => "texture format has no byte size for a copy".to_owned(),
            ReadbackError::TooLarge => "texture is too large to read back".to_owned(),
            ReadbackError::MapFailed(detail) => detail.clone(),
            ReadbackError::ChannelClosed => "sender channel died".to_owned(),
        }
    }
}

/// What the caller has to submit: a buffer of `buffer_size` bytes, mappable
/// for reading, and a copy of the whole texture into it with rows
/// `bytes_per_row` apart.
#[derive(Debug, Clone, Copy, PartialEq, Eq, Structural)]
pub struct CopyRequest {
    pub buffer_size: u64,
    pub bytes_per_row: u32,
    pub width: u32,
    pub height: u32,
}

/// A texture brought back to the host: its size in texels and its bytes, row
/// by row without padding, in the texture's own channel layout.
#[derive(Debug, Clone, PartialEq, Eq)]
pub struct ImageInfo {
    pub width: u32,
    pub height: u32,
    pub data: Vec<u8>,
}

/// Sizes of the staging buffer for one texture.
pub struct ReadbackPlan {
    width: u32,
    height: u32,
    block_size: u32,
    row_bytes: u64,
    stride: u64,
    output_len: usize,
}

impl View for ReadbackPlan {
    type V = Layout;

    closed spec fn view(&self) -> Layout {
        Layout {
            width: self.width as nat,
            height: self.height as nat,
            block_size: self.block_size as nat,
        }
    }
}

/// What `plan_readback` returns for a texture of the given size whose format
/// has the given texel size.
pub open spec fn plan_outcome(width: u32, height: u32, block_size: Option<u32>) -> Result<
    Layout,
    ReadbackError,
> {
    match block_size {
        None => Err(ReadbackError::UnsupportedFormat),
        Some(b) => {
            let layout = Layout {
                width: width as nat,
                height: height as nat,
                block_size: b as nat,
            };
            if layout.representable() {
                Ok(layout)
            } else {
                Err(ReadbackError::TooLarge)
            }
        },
    }
}

/// Lays out the staging buffer for a texture of `width` by `height` texels of
/// `block_size` bytes each; `None` stands for a format without such a size.
pub fn plan_readback(width: u32, height: u32, block_size: Option<u32>) -> (plan: Result<
    ReadbackPlan,
    ReadbackError,
>)
    ensures
        match plan_outcome(width, height, block_size) {
            Ok(layout) => plan matches Ok(p) && p@ == layout,
            Err(e) => plan == Err::<ReadbackPlan, ReadbackError>(e),
        },
{
    let block = match block_size {
        Some(b) => b,
        None => {
            return Err(ReadbackError::UnsupportedFormat);
        },
    };
    let ghost layout = Layout {
        width: width as nat,
        height: height as nat,
        block_size: block as nat,
    };
    proof {
        lemma_align_up(layout.unpadded_row_bytes());
        lemma_empty_layout(layout);
        assert(width * block <= 0xffff_ffff * 0xffff_ffff) by (nonlinear_arith)
            requires
                width <= 0xffff_ffff,
                block <= 0xffff_ffff,
        ;
    }
    let row_bytes: u64 = width as u64 * block as u64;
    let mask: u64 = ROW_ALIGNMENT as u64 - 1;
    let bumped: u64 = row_bytes + mask;
    let stride: u64 = bumped & !mask;
    assert(stride == (bumped / 256) * 256) by (bit_vector)
        requires
            mask == 255,
            stride == bumped & !mask,
    ;
    if height == 0 || row_bytes == 0 {
        return Ok(
            ReadbackPlan { width, height, block_size: block, row_bytes, stride, output_len: 0 },
        );
    }
    if stride > u32::MAX as u64 {
        return Err(ReadbackError::TooLarge);
    }
    proof {
        assert(height * stride <= 0xffff_ffff * 0xffff_ffff) by (nonlinear_arith)
            requires
                height <= 0xffff_ffff,
                stride <= 0xffff_ffff,
        ;
    }
    let buffer_size: u64 = height as u64 * stride;
    if buffer_size > usize::MAX as u64 {
        return Err(ReadbackError::TooLarge);
    }
    let output_len: u64 = height as u64 * row_bytes;
    Ok(
        ReadbackPlan {
            width,
            height,
            block_size: block,
            row_bytes,
            stride,
            output_len: output_len as usize,
        },
    )
}

impl ReadbackPlan {
    #[verifier::type_invariant]
    spec fn inv(self) -> bool {
        &&& self@.representable()
        &&& self.row_bytes == self@.unpadded_row_bytes()
        &&& self.stride == self@.padded_row_bytes()
        &&& self.output_len == self@.output_len()
    }

    /// Lays out the staging buffer for a texture of the given size and format.
    pub fn for_texture(width: u32, height: u32, format: wgpu::TextureFormat) -> (plan: Result<
        ReadbackPlan,
        ReadbackError,
    >)
        ensures
            match plan_outcome(width, height, block_copy_bytes(format)) {
                Ok(layout) => plan matches Ok(p) && p@ == layout,
                Err(e) => plan == Err::<ReadbackPlan, ReadbackError>(e),
            },
    {
        plan_readback(width, height, block_copy_size(format))
    }

    /// Width of the texture in texels.
    pub fn width(&self) -> (width: u32)
        ensures
            width == self@.width,
    {
        self.width
    }

    /// Height of the texture in texels.
    pub fn height(&self) -> (height: u32)
        ensures
            height == self@.height,
    {
        self.height
    }

    /// Bytes of one texel.
    pub fn block_size(&self) -> (block_size: u32)
        ensures
            block_size == self@.block_size,
    {
        self.block_size
    }

    /// Bytes of one row of texels, tightly packed.
    pub fn unpadded_row_bytes(&self) -> (bytes: u64)
        ensures
            bytes == self@.unpadded_row_bytes(),
    {
        proof {
            use_type_invariant(self);
        }
        self.row_bytes
    }

    /// Bytes from the start of one row of the staging buffer to the next.
    pub fn padded_row_bytes(&self) -> (bytes: u64)
        ensures
            bytes == self@.padded_row_bytes(),
    {
        proof {
            use_type_invariant(self);
        }
        self.stride
    }

    /// Length of the packed result.
    pub fn output_len(&self) -> (len: usize)
        ensures
            len == self@.output_len(),
    {
        proof {
            use_type_invariant(self);
        }
        self.output_len
    }

    /// The buffer and the copy that the caller has to submit, or `None` where
    /// the texture has no texels and the result is empty as it stands.
    pub fn copy_request(&self) -> (request: Option<CopyRequest>)
        ensures
            self@.output_len() == 0 <==> request is None,
            request matches Some(c) ==> {
                &&& c.buffer_size == self@.buffer_size()
                &&& c.bytes_per_row == self@.padded_row_bytes()
                &&& c.width == self@.width
                &&& c.height == self@.height
            },
    {
        proof {
            use_type_invariant(self);
        }
        if self.output_len == 0 {
            None
        } else {
            Some(
                CopyRequest {
                    buffer_size: self.height as u64 * self.stride,
                    bytes_per_row: self.stride as u32,
                    width: self.width,
                    height: self.height,
                },
            )
        }
    }

    /// Copies the leading `unpadded_row_bytes` of every row of the mapped
    /// staging buffer into one tightly packed vector.
    pub fn unpad_rows(&self, staged: &[u8]) -> (packed: Vec<u8>)
        requires
            staged@.len() >= self@.buffer_size(),
        ensures
            packed@ == self@.packed(staged@),
            packed@.len() == self@.height * self@.unpadded_row_bytes(),
    {
        proof {
            use_type_invariant(self);
            lemma_empty_layout(self@);
        }
        let mut out: Vec<u8> = Vec::with_capacity(self.output_len);
        if self.output_len == 0 {
            assert(out@ =~= self@.packed(staged@));
            return out;
        }
        let row = self.row_bytes as usize;
        let stride = self.stride as usize;
        let height = self.height as usize;
        proof {
            lemma_align_up(row as nat);
        }
        let mut r: usize = 0;
        while r < height
            invariant
                0 < row <= stride,
                row == self@.unpadded_row_bytes(),
                stride == self@.padded_row_bytes(),
                height == self@.height,
                r <= height,
                height * stride <= staged@.len(),
                height * stride <= usize::MAX,
                out@.len() == r * row,
                forall|i: int|
                    0 <= i < out@.len() ==> out@[i] == staged@[#[trigger] self@.source_index(i)],
            decreases height - r,
        {
            proof {
                assert((r + 1) * stride <= height * stride) by (nonlinear_arith)
                    requires
                        r + 1 <= height,
                        0 <= stride,
                ;
                assert((r + 1) * stride == r * stride + stride) by (nonlinear_arith);
                assert((r + 1) * row == r * row + row) by (nonlinear_arith);
            }
            let start = r * stride;
            let chunk = slice_subrange(staged, start, start + row);
            let ghost before = out@;
            out.extend_from_slice(chunk);
            proof {
                assert forall|i: int| 0 <= i < out@.len() implies out@[i] == staged@[
                #[trigger] self@.source_index(i)] by {
                    if i >= before.len() {
                        let c = i - before.len();
                        lemma_source_index(self@, r as int, c);
                        assert(chunk@[c] == staged@[start + c]);
                    }
                }
            }
            r += 1;
        }
        proof {
            assert(out@.len() == self@.output_len()) by (nonlinear_arith)
                requires
                    out@.len() == r * row,
                    r == height,
                    self@.output_len() == height * row,
            ;
            assert(out@ =~= self@.packed(staged@));
        }
        out
    }

    /// Unpacks the mapped staging buffer into the image that an export hands
    /// to the host.
    pub fn read_image(&self, staged: &[u8]) -> (image: ImageInfo)
        requires
            staged@.len() >= self@.buffer_size(),
        ensures
            image.width == self@.width,
            image.height == self@.height,
            image.data@ == self@.packed(staged@),
            image.data@.len() == self@.width * self@.height * self@.block_size,
    {
        proof {
            assert(self@.height * (self@.width * self@.block_size) == self@.width * self@.height
                * self@.block_size) by (nonlinear_arith);
        }
        ImageInfo { width: self.width, height: self.height, data: self.unpad_rows(staged) }
    }
}

/// What the completion channel of a map request delivered.
#[derive(Debug, PartialEq, Eq)]
pub enum MapSignal {
    /// The buffer is mapped and can be read.
    Mapped,
    /// The backend reported an error; the text describes it.
    Failed(String),
    /// The sending side went away without a result.
    Dropped,
}

/// Whether the staging buffer can be read after `signal`, and the error to
/// report where it cannot.
pub open spec fn map_verdict(signal: MapSignal) -> Result<(), ReadbackError> {
    match signal {
        MapSignal::Mapped => Ok(()),
        MapSignal::Failed(detail) => Err(ReadbackError::MapFailed(detail)),
        MapSignal::Dropped => Err(ReadbackError::ChannelClosed),
    }
}

/// Decides, once the map request has completed, whether the readback goes on.
pub fn map_outcome(signal: MapSignal) -> (verdict: Result<(), ReadbackError>)
    ensures
        verdict == map_verdict(signal),
{
    match signal {
        MapSignal::Mapped => Ok(()),
        MapSignal::Failed(detail) => Err(ReadbackError::MapFailed(detail)),
        MapSignal::Dropped => Err(ReadbackError::ChannelClosed),
    }
}

/// A texture of width or height zero is planned without error, whatever its
/// texel size, and unpacks to no bytes at all.
pub proof fn lemma_zero_dimension_is_empty(width: u32, height: u32, block_size: u32, staged: Seq<u8>)
    requires
        width == 0 || height == 0,
    ensures
        plan_outcome(width, height, Some(block_size)) matches Ok(layout) && layout.packed(staged)
            == Seq::<u8>::empty(),
{
    let layout = Layout {
        width: width as nat,
        height: height as nat,
        block_size: block_size as nat,
    };
    lemma_empty_layout(layout);
    assert(layout.packed(staged) =~= Seq::<u8>::empty());
}

} // verus!
