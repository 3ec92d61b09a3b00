use grafiek_wasm::readback::map_outcome;
use grafiek_wasm::readback::plan_readback;
use grafiek_wasm::readback::CopyRequest;
use grafiek_wasm::readback::MapSignal;
use grafiek_wasm::readback::ReadbackError;
use grafiek_wasm::readback::ReadbackPlan;
use grafiek_wasm::layout::ROW_ALIGNMENT;

fn plan(width: u32, height: u32, block_size: u32) -> ReadbackPlan {
    plan_readback(width, height, Some(block_size)).expect("a plan")
}

/// A staging buffer for `plan` in which texel byte `c` of column `x` of row
/// `r` holds `value(r, x, c)` and every padding byte holds 0xEE.
fn stage(plan: &ReadbackPlan, value: impl Fn(usize, usize, usize) -> u8) -> Vec<u8> {
    let stride = plan.padded_row_bytes() as usize;
    let block = plan.block_size() as usize;
    let mut staged = vec![0xEEu8; stride * plan.height() as usize];
    for r in 0..plan.height() as usize {
        for x in 0..plan.width() as usize {
            for c in 0..block {
                staged[r * stride + x * block + c] = value(r, x, c);
            }
        }
    }
    staged
}

#[test]
fn row_alignment_is_256() {
    assert_eq!(ROW_ALIGNMENT, 256);
}

#[test]
fn plan_rounds_the_row_up_to_the_alignment() {
    let p = plan(100, 4, 4);
    assert_eq!(p.width(), 100);
    assert_eq!(p.height(), 4);
    assert_eq!(p.block_size(), 4);
    assert_eq!(p.unpadded_row_bytes(), 400);
    assert_eq!(p.padded_row_bytes(), 512);
    assert_eq!(p.output_len(), 1600);
    assert_eq!(
        p.copy_request(),
        Some(CopyRequest { buffer_size: 2048, bytes_per_row: 512, width: 100, height: 4 })
    );
}

#[test]
fn plan_keeps_an_aligned_row() {
    let p = plan(64, 3, 4);
    assert_eq!(p.unpadded_row_bytes(), 256);
    assert_eq!(p.padded_row_bytes(), 256);
    assert_eq!(p.copy_request().unwrap().buffer_size, 768);
    let q = plan(128, 1, 4);
    assert_eq!(q.padded_row_bytes(), 512);
}

#[test]
fn plan_pads_a_single_byte_and_one_past_the_alignment() {
    assert_eq!(plan(1, 1, 1).padded_row_bytes(), 256);
    assert_eq!(plan(255, 1, 1).padded_row_bytes(), 256);
    assert_eq!(plan(257, 1, 1).padded_row_bytes(), 512);
}

#[test]
fn plan_rejects_a_format_without_texel_size() {
    assert_eq!(plan_readback(16, 16, None).err(), Some(ReadbackError::UnsupportedFormat));
    assert_eq!(plan_readback(0, 0, None).err(), Some(ReadbackError::UnsupportedFormat));
}

#[test]
fn plan_rejects_a_row_stride_beyond_32_bits() {
    assert_eq!(plan_readback(u32::MAX, 1, Some(16)).err(), Some(ReadbackError::TooLarge));
    assert_eq!(plan_readback(u32::MAX, 1, Some(1)).err(), Some(ReadbackError::TooLarge));
    // 2^32 - 256 is the largest stride that fits.
    let widest = plan(u32::MAX - 255, 1, 1);
    assert_eq!(widest.padded_row_bytes(), 4294967040);
    assert_eq!(widest.copy_request().unwrap().bytes_per_row, 4294967040);
}

#[test]
fn zero_width_gives_an_empty_plan() {
    let p = plan(0, 17, 4);
    assert_eq!(p.output_len(), 0);
    assert_eq!(p.padded_row_bytes(), 0);
    assert_eq!(p.copy_request(), None);
    assert_eq!(p.unpad_rows(&[]), Vec::<u8>::new());
}

#[test]
fn zero_height_gives_an_empty_plan() {
    let p = plan(17, 0, 4);
    assert_eq!(p.output_len(), 0);
    assert_eq!(p.copy_request(), None);
    assert_eq!(p.unpad_rows(&[]), Vec::<u8>::new());
}

#[test]
fn zero_height_is_no_error_however_wide() {
    let p = plan(u32::MAX, 0, 16);
    assert_eq!(p.output_len(), 0);
    assert_eq!(p.copy_request(), None);
    assert_eq!(p.unpad_rows(&[1, 2, 3]), Vec::<u8>::new());
}

#[test]
fn unpad_drops_the_tail_of_every_row() {
    let p = plan(3, 2, 2);
    let staged = stage(&p, |r, x, c| (r * 100 + x * 10 + c) as u8);
    assert_eq!(staged.len(), 512);
    assert_eq!(
        p.unpad_rows(&staged),
        vec![0, 1, 10, 11, 20, 21, 100, 101, 110, 111, 120, 121]
    );
}

#[test]
fn unpad_has_no_padding_byte_for_unaligned_rows() {
    for (width, block) in [(1u32, 1u32), (100, 4), (65, 4), (3, 16), (257, 1), (33, 8)] {
        let p = plan(width, 5, block);
        assert_ne!(p.unpadded_row_bytes() % 256, 0);
        let staged = stage(&p, |_, _, _| 0x11);
        let packed = p.unpad_rows(&staged);
        assert_eq!(packed.len(), 5 * (width * block) as usize);
        assert!(packed.iter().all(|b| *b == 0x11));
    }
}

#[test]
fn unpad_copies_aligned_rows_whole() {
    let p = plan(64, 3, 4);
    let staged: Vec<u8> = (0..768u32).map(|i| (i % 251) as u8).collect();
    assert_eq!(p.unpad_rows(&staged), staged);
}

#[test]
fn unpad_reads_no_further_than_the_buffer_size() {
    let p = plan(2, 2, 1);
    let mut staged = vec![0u8; 600];
    staged[0] = 1;
    staged[1] = 2;
    staged[256] = 3;
    staged[257] = 4;
    staged[512] = 9;
    assert_eq!(p.unpad_rows(&staged), vec![1, 2, 3, 4]);
}

#[test]
fn solid_colour_survives_the_round_trip() {
    let colour = [0x10u8, 0x80, 0xF0, 0xFF];
    let p = plan(37, 11, 4);
    let staged = stage(&p, |_, _, c| colour[c]);
    let packed = p.unpad_rows(&staged);
    assert_eq!(packed.len(), 37 * 11 * 4);
    for texel in packed.chunks(4) {
        assert_eq!(texel, &colour[..]);
    }
}

#[test]
fn for_texture_takes_the_texel_size_from_the_format() {
    let rgba8 = ReadbackPlan::for_texture(100, 4, wgpu::TextureFormat::Rgba8Unorm).unwrap();
    assert_eq!(rgba8.block_size(), 4);
    assert_eq!(rgba8.padded_row_bytes(), 512);
    let r8 = ReadbackPlan::for_texture(100, 4, wgpu::TextureFormat::R8Unorm).unwrap();
    assert_eq!(r8.block_size(), 1);
    assert_eq!(r8.padded_row_bytes(), 256);
    let rgba32 = ReadbackPlan::for_texture(100, 4, wgpu::TextureFormat::Rgba32Float).unwrap();
    assert_eq!(rgba32.block_size(), 16);
    assert_eq!(rgba32.padded_row_bytes(), 1792);
    assert_eq!(rgba32.output_len(), 6400);
}

#[test]
fn for_texture_rejects_depth_stencil() {
    for format in [
        wgpu::TextureFormat::Depth24Plus,
        wgpu::TextureFormat::Depth24PlusStencil8,
        wgpu::TextureFormat::Depth32FloatStencil8,
    ] {
        assert_eq!(
            ReadbackPlan::for_texture(8, 8, format).err(),
            Some(ReadbackError::UnsupportedFormat)
        );
    }
}

#[test]
fn for_texture_reports_a_texture_that_is_too_large() {
    assert_eq!(
        ReadbackPlan::for_texture(u32::MAX, 2, wgpu::TextureFormat::Rgba8Unorm).err(),
        Some(ReadbackError::TooLarge)
    );
}

#[test]
fn map_outcome_lets_a_mapped_buffer_through() {
    assert_eq!(map_outcome(MapSignal::Mapped), Ok(()));
}

#[test]
fn map_outcome_reports_the_backend_error() {
    assert_eq!(
        map_outcome(MapSignal::Failed("BufferAsyncError".to_owned())),
        Err(ReadbackError::MapFailed("BufferAsyncError".to_owned()))
    );
}

#[test]
fn map_outcome_tells_a_dropped_channel_apart() {
    assert_eq!(map_outcome(MapSignal::Dropped), Err(ReadbackError::ChannelClosed));
    assert_ne!(
        map_outcome(MapSignal::Dropped),
        map_outcome(MapSignal::Failed("sender channel died".to_owned()))
    );
}

#[test]
fn messages_name_each_error() {
    assert_eq!(ReadbackError::ChannelClosed.message(), "sender channel died");
    assert_eq!(ReadbackError::MapFailed("lost".to_owned()).message(), "lost");
    assert_eq!(
        ReadbackError::UnsupportedFormat.message(),
        "texture format has no byte size for a copy"
    );
    assert_eq!(ReadbackError::TooLarge.message(), "texture is too large to read back");
}

#[test]
fn read_image_keeps_the_size_and_drops_the_padding() {
    let p = plan(3, 2, 4);
    let staged = stage(&p, |r, x, c| (r * 16 + x * 4 + c) as u8);
    let image = p.read_image(&staged);
    assert_eq!(image.width, 3);
    assert_eq!(image.height, 2);
    assert_eq!(image.data.len(), 3 * 2 * 4);
    assert_eq!(image.data, (0..12u8).chain(16..28u8).collect::<Vec<u8>>());
}

#[test]
fn read_image_of_an_empty_texture_is_empty() {
    let image = plan(0, 9, 4).read_image(&[]);
    assert_eq!(image.width, 0);
    assert_eq!(image.height, 9);
    assert_eq!(image.data, Vec::<u8>::new());
}
