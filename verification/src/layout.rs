//! The byte layout of a texture in a staging buffer.
//!
//! A texture-to-buffer copy wants every row of its destination to start at a
//! multiple of [`ROW_ALIGNMENT`] bytes, so a row of texels is followed by
//! padding up to the next such multiple. [`Layout`] says, in mathematical
//! integers, how large such a buffer is and which of its bytes are texels.

use vstd::prelude::*;
use vstd::arithmetic::div_mod::lemma_fundamental_div_mod_converse;

verus! {

/// Alignment, in bytes, of the rows of a copy destination.
pub const ROW_ALIGNMENT: u32 = 256;

/// Whether `n` is a multiple of `ROW_ALIGNMENT`.
pub open spec fn is_row_aligned(n: nat) -> bool {
    n % (ROW_ALIGNMENT as nat) == 0
}

/// The least multiple of `ROW_ALIGNMENT` that is not below `n`.
pub open spec fn align_up(n: nat) -> nat {
    (((n + ROW_ALIGNMENT - 1) / (ROW_ALIGNMENT as int)) * ROW_ALIGNMENT) as nat
}

/// The sizes of a readback, as mathematical integers.
pub struct Layout {
    pub width: nat,
    pub height: nat,
    pub block_size: nat,
}

impl Layout {
    /// Bytes of one row of texels, tightly packed.
    pub open spec fn unpadded_row_bytes(self) -> nat {
        self.width * self.block_size
    }

    /// Bytes from the start of one row of the staging buffer to the next.
    pub open spec fn padded_row_bytes(self) -> nat {
        align_up(self.unpadded_row_bytes())
    }

    /// Size of the staging buffer.
    pub open spec fn buffer_size(self) -> nat {
        self.height * self.padded_row_bytes()
    }

    /// Size of the packed result.
    pub open spec fn output_len(self) -> nat {
        self.height * self.unpadded_row_bytes()
    }

    /// Either there is nothing to copy, or the row stride fits the copy
    /// command's 32-bit field and the staging buffer can be addressed as one
    /// slice.
    pub open spec fn representable(self) -> bool {
        self.output_len() == 0 || (self.padded_row_bytes() <= u32::MAX && self.buffer_size()
            <= usize::MAX)
    }

    /// Where byte `i` of the packed result lies in the staging buffer.
    pub open spec fn source_index(self, i: int) -> int {
        (i / self.unpadded_row_bytes() as int) * self.padded_row_bytes() + i
            % self.unpadded_row_bytes() as int
    }

    /// The staging buffer's rows without their padding, one after the other.
    pub open spec fn packed(self, staged: Seq<u8>) -> Seq<u8> {
        Seq::new(self.output_len(), |i: int| staged[self.source_index(i)])
    }

    /// Where byte `c` of the texel in column `x` of row `r` lies in the
    /// staging buffer.
    pub open spec fn staged_offset(self, r: int, x: int, c: int) -> int {
        r * self.padded_row_bytes() + x * self.block_size + c
    }

    /// Where byte `c` of texel `k`, counted row by row, lies in the packed
    /// result.
    pub open spec fn packed_offset(self, k: int, c: int) -> int {
        k * self.block_size + c
    }

    /// Every texel of the staging buffer holds the bytes of `color`.
    pub open spec fn is_solid(self, staged: Seq<u8>, color: Seq<u8>) -> bool {
        &&& color.len() == self.block_size
        &&& forall|r: int, x: int, c: int|
            0 <= r < self.height && 0 <= x < self.width && 0 <= c < self.block_size
                ==> staged[#[trigger] self.staged_offset(r, x, c)] == color[c]
    }
}

/// `align_up` gives the least multiple of the alignment from `n` on.
pub proof fn lemma_align_up(n: nat)
    ensures
        is_row_aligned(align_up(n)),
        n <= align_up(n) < n + ROW_ALIGNMENT,
        forall|m: nat| #[trigger] is_row_aligned(m) && n <= m ==> align_up(n) <= m,
{
}

/// A texture without texels needs no staging buffer.
pub proof fn lemma_empty_layout(layout: Layout)
    ensures
        layout.output_len() == 0 <==> layout.width == 0 || layout.height == 0 || layout.block_size
            == 0,
        layout.output_len() == 0 <==> layout.height == 0 || layout.unpadded_row_bytes() == 0,
        layout.output_len() == 0 ==> layout.buffer_size() == 0,
        layout.output_len() <= layout.buffer_size(),
{
    let row = layout.unpadded_row_bytes();
    lemma_align_up(row);
    assert(row == 0 <==> layout.width == 0 || layout.block_size == 0) by (nonlinear_arith)
        requires
            row == layout.width * layout.block_size,
    ;
    assert(layout.output_len() == 0 <==> layout.height == 0 || row == 0) by (nonlinear_arith)
        requires
            layout.output_len() == layout.height * row,
    ;
    assert(layout.height * row <= layout.height * layout.padded_row_bytes())
        by (nonlinear_arith)
        requires
            row <= layout.padded_row_bytes(),
    ;
    if layout.output_len() == 0 {
        assert(layout.height * layout.padded_row_bytes() == 0) by (nonlinear_arith)
            requires
                layout.height == 0 || layout.padded_row_bytes() == 0,
        ;
    }
}

/// Byte `c` of row `r` of the packed result is byte `c` of row `r` of the
/// staging buffer.
pub proof fn lemma_source_index(layout: Layout, r: int, c: int)
    requires
        0 <= r,
        0 <= c < layout.unpadded_row_bytes(),
    ensures
        layout.source_index(r * layout.unpadded_row_bytes() + c) == r * layout.padded_row_bytes()
            + c,
{
    let row = layout.unpadded_row_bytes() as int;
    lemma_fundamental_div_mod_converse(r * row + c, row, r, c);
}

/// The packed result has `height * unpadded_row_bytes` bytes, and each of them
/// is taken from the leading `unpadded_row_bytes` of a row of the staging
/// buffer: none is a padding byte, whether or not the rows need padding.
pub proof fn lemma_packed_skips_padding(layout: Layout, staged: Seq<u8>)
    ensures
        layout.packed(staged).len() == layout.height * layout.unpadded_row_bytes(),
        forall|i: int|
            0 <= i < layout.output_len() ==> {
                let j = #[trigger] layout.source_index(i);
                &&& 0 <= j < layout.buffer_size()
                &&& j / (layout.padded_row_bytes() as int) == i / (layout.unpadded_row_bytes() as int)
                &&& j % (layout.padded_row_bytes() as int) == i % (layout.unpadded_row_bytes() as int)
                &&& j % (layout.padded_row_bytes() as int) < layout.unpadded_row_bytes()
            },
{
    let row = layout.unpadded_row_bytes() as int;
    let stride = layout.padded_row_bytes() as int;
    lemma_align_up(row as nat);
    lemma_empty_layout(layout);
    assert forall|i: int| 0 <= i < layout.output_len() implies {
        let j = #[trigger] layout.source_index(i);
        &&& 0 <= j < layout.buffer_size()
        &&& j / stride == i / row
        &&& j % stride == i % row
        &&& j % stride < row
    } by {
        let r = i / row;
        let c = i % row;
        let j = layout.source_index(i);
        assert(0 <= r < layout.height) by (nonlinear_arith)
            requires
                r == i / row,
                0 <= i < layout.height * row,
                row > 0,
        ;
        lemma_fundamental_div_mod_converse(j, stride, r, c);
        assert(r * stride + c < layout.height * stride) by (nonlinear_arith)
            requires
                0 <= r < layout.height,
                0 <= c < stride,
        ;
    }
}

/// A staging buffer whose texels all hold one colour unpacks to
/// `width * height` texels of that colour and nothing else.
pub proof fn lemma_solid_color_round_trip(layout: Layout, staged: Seq<u8>, color: Seq<u8>)
    requires
        layout.is_solid(staged, color),
    ensures
        layout.packed(staged).len() == layout.width * layout.height * layout.block_size,
        forall|k: int, c: int|
            0 <= k < layout.width * layout.height && 0 <= c < layout.block_size
                ==> layout.packed(staged)[#[trigger] layout.packed_offset(k, c)] == color[c],
{
    let w = layout.width as int;
    let h = layout.height as int;
    let b = layout.block_size as int;
    let row = layout.unpadded_row_bytes() as int;
    assert(layout.output_len() == w * h * b) by (nonlinear_arith)
        requires
            layout.output_len() == h * (w * b),
    ;
    assert forall|k: int, c: int| 0 <= k < w * h && 0 <= c < b implies layout.packed(staged)[
    #[trigger] layout.packed_offset(k, c)] == color[c] by {
        let r = k / w;
        let x = k % w;
        let i = layout.packed_offset(k, c);
        assert(w > 0) by (nonlinear_arith)
            requires
                0 <= k < w * h,
                0 <= w,
        ;
        assert(0 <= r < h) by (nonlinear_arith)
            requires
                r == k / w,
                0 <= k < w * h,
                w > 0,
        ;
        assert(k == r * w + x && 0 <= x < w) by (nonlinear_arith)
            requires
                r == k / w,
                x == k % w,
                w > 0,
        ;
        assert(i == r * row + (x * b + c) && 0 <= x * b + c < row) by (nonlinear_arith)
            requires
                i == k * b + c,
                k == r * w + x,
                row == w * b,
                0 <= x < w,
                0 <= c < b,
        ;
        assert(0 <= i < h * row) by (nonlinear_arith)
            requires
                i == r * row + (x * b + c),
                0 <= x * b + c < row,
                0 <= r < h,
        ;
        lemma_source_index(layout, r, x * b + c);
        assert(layout.source_index(i) == layout.staged_offset(r, x, c));
    }
}

} // verus!
