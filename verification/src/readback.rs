use vstd::prelude::*;
use vstd::arithmetic::div_mod::{
    lemma_div_multiples_vanish_fancy, lemma_fundamental_div_mod,
    lemma_fundamental_div_mod_converse_div, lemma_fundamental_div_mod_converse_mod,
    lemma_mod_multiples_basic,
};
use vstd::arithmetic::mul::{
    lemma_mul_inequality, lemma_mul_is_associative, lemma_mul_is_commutative, lemma_mul_upper_bound,
};

use crate::size::Size;

verus! {

/// Row alignment that the GPU requires of a linear copy destination, in
/// bytes: each row of the staging buffer starts at a multiple of this value.
pub const ROW_ALIGNMENT: u32 = 256;

/// Bytes taken by one pixel of the render target: four 8-bit channels.
pub const BYTES_PER_PIXEL: u32 = 4;

/// Flat offset of byte `i` of row `y` in a buffer whose rows are
/// `row_bytes` bytes apart.
pub open spec fn row_offset(y: int, row_bytes: int, i: int) -> int {
    y * row_bytes + i
}

/// The tightly packed pixel array extracted from a row-padded staging
/// buffer: for a target of `width * height` pixels whose staging rows are
/// `stride` bytes apart, row `y` of the result is the first `width * 4`
/// bytes of row `y` of the source; the rest of each source row is padding
/// and is discarded.
pub open spec fn depad(src: Seq<u8>, width: int, height: int, stride: int) -> Seq<u8> {
    Seq::new(
        (width * height * 4) as nat,
        |j: int| src[(j / (width * 4)) * stride + j % (width * 4)],
    )
}

/// Smallest multiple of `ROW_ALIGNMENT` that holds a row of
/// `unpadded_bytes_per_row` bytes.
pub fn padded_bytes_per_row(unpadded_bytes_per_row: u32) -> (padded: u32)
    requires
        unpadded_bytes_per_row + ROW_ALIGNMENT - 1 <= u32::MAX,
    ensures
        (padded as int) % (ROW_ALIGNMENT as int) == 0,
        padded >= unpadded_bytes_per_row,
        padded < unpadded_bytes_per_row + ROW_ALIGNMENT,
        (unpadded_bytes_per_row as int) % (ROW_ALIGNMENT as int) == 0 ==> padded
            == unpadded_bytes_per_row,
{
    proof {
        let u = unpadded_bytes_per_row as int;
        let a = ROW_ALIGNMENT as int;
        lemma_fundamental_div_mod(u + a - 1, a);
        lemma_mod_multiples_basic((u + a - 1) / a, a);
        if u % a == 0 {
            lemma_fundamental_div_mod(u, a);
            lemma_div_multiples_vanish_fancy(u / a, a - 1, a);
        }
    }
    let quotient: u32 = (unpadded_bytes_per_row + (ROW_ALIGNMENT - 1)) / ROW_ALIGNMENT;
    quotient * ROW_ALIGNMENT
}

/// Size in bytes of the staging buffer: `height` rows of
/// `padded_bytes_per_row` bytes each.
pub fn staging_buffer_size(padded_bytes_per_row: u32, height: u32) -> (bytes: u64)
    ensures
        bytes == padded_bytes_per_row * height,
{
    proof {
        lemma_mul_upper_bound(
            padded_bytes_per_row as int,
            u32::MAX as int,
            height as int,
            u32::MAX as int,
        );
    }
    (padded_bytes_per_row as u64) * (height as u64)
}

/// Size in bytes of the tightly packed pixel array for a target of the
/// given size: four bytes for each pixel.
pub fn get_texture_memory_size(texture_size: &Size) -> (bytes: u32)
    requires
        texture_size.area() * BYTES_PER_PIXEL <= u32::MAX,
    ensures
        bytes == texture_size.area() * BYTES_PER_PIXEL,
{
    texture_size.get_area() * BYTES_PER_PIXEL
}

/// Copies, for each of the `height` rows of the staging buffer, the first
/// `width * 4` bytes into the result, dropping the alignment padding that
/// follows them. When a row is already tightly packed the copy degenerates
/// to a straight one; the same loop covers both cases.
pub fn read_data_from_buffer(
    texture_size: &Size,
    padded_bytes_per_row: u32,
    buffer_view: &[u8],
) -> (texture_data: Vec<u8>)
    requires
        texture_size.width * BYTES_PER_PIXEL <= padded_bytes_per_row,
        buffer_view@.len() == texture_size.height * padded_bytes_per_row,
    ensures
        texture_data@.len() == texture_size.area() * BYTES_PER_PIXEL,
        texture_data@ == depad(
            buffer_view@,
            texture_size.width as int,
            texture_size.height as int,
            padded_bytes_per_row as int,
        ),
        forall|j: int|
            0 <= j < texture_data@.len() ==> texture_data@[j] == buffer_view@[(j / (
            texture_size.width * BYTES_PER_PIXEL)) * padded_bytes_per_row + j % (texture_size.width
                * BYTES_PER_PIXEL)],
{
    let ghost src = buffer_view@;
    let total: usize = buffer_view.len();
    let width_bytes: usize = (texture_size.width as usize) * (BYTES_PER_PIXEL as usize);
    let stride: usize = padded_bytes_per_row as usize;
    let height: usize = texture_size.height as usize;
    let mut texture_data: Vec<u8> = Vec::new();
    let mut y: usize = 0;
    while y < height
        invariant
            y <= height,
            width_bytes == texture_size.width * BYTES_PER_PIXEL,
            stride == padded_bytes_per_row,
            height == texture_size.height,
            width_bytes <= stride,
            src == buffer_view@,
            src.len() == height * stride,
            total == src.len(),
            texture_data@.len() == y * width_bytes,
            forall|j: int|
                0 <= j < texture_data@.len()
                    ==> texture_data@[j] == src[(j / (width_bytes as int)) * stride + j % (
                    width_bytes as int)],
        decreases height - y,
    {
        proof {
            lemma_mul_inequality(y + 1, height as int, stride as int);
            assert((y as int) * (stride as int) + stride == (y + 1) * (stride as int))
                by (nonlinear_arith);
            assert(0 <= (y as int) * (stride as int)) by (nonlinear_arith)
                requires
                    0 <= y,
                    0 <= stride,
            ;
        }
        let row_start: usize = y * stride;
        let mut i: usize = 0;
        while i < width_bytes
            invariant
                i <= width_bytes,
                y < height,
                width_bytes == texture_size.width * BYTES_PER_PIXEL,
                stride == padded_bytes_per_row,
                height == texture_size.height,
                width_bytes <= stride,
                row_start == y * stride,
                src == buffer_view@,
                src.len() == height * stride,
                total == src.len(),
                (y + 1) * stride <= src.len(),
                texture_data@.len() == y * width_bytes + i,
                forall|j: int|
                    0 <= j < texture_data@.len()
                        ==> texture_data@[j] == src[(j / (width_bytes as int)) * stride + j % (
                        width_bytes as int)],
            decreases width_bytes - i,
        {
            proof {
                let wb = width_bytes as int;
                let j = y * wb + i;
                lemma_fundamental_div_mod_converse_div(j, wb, y as int, i as int);
                lemma_fundamental_div_mod_converse_mod(j, wb, y as int, i as int);
                assert((y as int) * (stride as int) + stride == (y + 1) * (stride as int))
                    by (nonlinear_arith);
                assert(row_start + i < (y + 1) * stride);
            }
            texture_data.push(buffer_view[row_start + i]);
            i = i + 1;
        }
        proof {
            assert((y as int) * (width_bytes as int) + width_bytes == (y + 1) * (
            width_bytes as int)) by (nonlinear_arith);
        }
        y = y + 1;
    }
    proof {
        let w = texture_size.width as int;
        let h = texture_size.height as int;
        let wb = width_bytes as int;
        lemma_mul_is_commutative(h, wb);
        lemma_mul_is_associative(w, 4, h);
        lemma_mul_is_commutative(4, h);
        lemma_mul_is_associative(w, h, 4);
        assert(texture_data@.len() == w * h * 4);
        let d = depad(src, w, h, padded_bytes_per_row as int);
        assert forall|j: int| 0 <= j < texture_data@.len() implies texture_data@[j] == d[j] by {}
        assert(texture_data@ =~= d);
    }
    texture_data
}

/// De-padding keeps exactly the first `width * 4` bytes of each of the
/// `height` rows, in row order, and nothing else: byte `i` of row `y` of
/// the result is byte `i` of row `y` of the padded source, so no padding
/// byte reaches the result, and the result holds `width * height * 4`
/// bytes in all.
pub proof fn lemma_depad_round_trip(src: Seq<u8>, width: int, height: int, stride: int)
    requires
        0 <= width,
        0 <= height,
        width * 4 <= stride,
        src.len() == height * stride,
    ensures
        depad(src, width, height, stride).len() == width * height * 4,
        forall|y: int, i: int|
            0 <= y < height && 0 <= i < width * 4 ==> depad(src, width, height, stride)[#[trigger]
            row_offset(y, width * 4, i)] == src[row_offset(y, stride, i)],
{
    let wb = width * 4;
    let d = depad(src, width, height, stride);
    assert(d.len() == width * height * 4);
    assert forall|y: int, i: int|
        0 <= y < height && 0 <= i < wb implies d[#[trigger] row_offset(y, wb, i)] == src[row_offset(
        y,
        stride,
        i,
    )] by {
        let j = y * wb + i;
        lemma_fundamental_div_mod_converse_div(j, wb, y, i);
        lemma_fundamental_div_mod_converse_mod(j, wb, y, i);
        lemma_mul_inequality(y + 1, height, wb);
        assert(y * wb + wb == (y + 1) * wb) by (nonlinear_arith);
        assert(j < height * wb);
        lemma_mul_is_commutative(height, wb);
        lemma_mul_is_associative(width, 4, height);
        lemma_mul_is_commutative(4, height);
        lemma_mul_is_associative(width, height, 4);
    }
}

/// When the rows are already tightly packed (`stride == width * 4`) there
/// is no padding to strip, and de-padding returns the staging buffer
/// unchanged: the same code path covers the aligned case.
pub proof fn lemma_depad_tight_is_identity(src: Seq<u8>, width: int, height: int)
    requires
        0 <= width,
        0 <= height,
        src.len() == height * (width * 4),
    ensures
        depad(src, width, height, width * 4) == src,
{
    let wb = width * 4;
    let d = depad(src, width, height, wb);
    lemma_mul_is_associative(height, width, 4);
    lemma_mul_is_commutative(height, width);
    assert(d.len() == src.len());
    assert forall|j: int| 0 <= j < d.len() implies d[j] == src[j] by {
        lemma_fundamental_div_mod(j, wb);
        lemma_mul_is_commutative(j / wb, wb);
    }
    assert(d =~= src);
}

} // verus!
