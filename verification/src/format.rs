//! Texel sizes of texture formats, as `wgpu` defines them.

use vstd::prelude::*;

verus! {

/// `wgpu::TextureFormat`, carried through as it is: nothing is known of a
/// format but what `block_copy_bytes` says of it.
#[verifier::external_type_specification]
#[verifier::external_body]
pub struct ExTextureFormat(wgpu::TextureFormat);

/// What `wgpu::TextureFormat::block_copy_size` returns for `format` and the
/// aspect `TextureAspect::All`: the number of bytes that one texel block
/// occupies in an image copy, or `None` where the format has no such size
/// (`Depth24Plus`, and the formats that combine depth and stencil or several
/// planes).
pub uninterp spec fn block_copy_bytes(format: wgpu::TextureFormat) -> Option<u32>;

/// Calls `wgpu::TextureFormat::block_copy_size` with the aspect
/// `TextureAspect::All`.
///
/// Not proved: that the result depends on the format alone. The function is
/// one `match` on the format and the aspect in `wgpu-types`, without state;
/// `block_copy_bytes` is the name of what it returns.
#[verifier::external_body]
pub(crate) fn block_copy_size(format: wgpu::TextureFormat) -> (bytes: Option<u32>)
    ensures
        bytes == block_copy_bytes(format),
{
    format.block_copy_size(Some(wgpu::TextureAspect::All))
}

} // verus!
