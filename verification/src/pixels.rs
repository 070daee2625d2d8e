//! Work on packed RGBA buffers: laying an alpha plane over the colours and
//! cropping a picture of whole macroblocks to the size a stream declares.

use vstd::prelude::*;
use crate::frame::DecodedFrame;
use crate::frame::DecodedFrameView;

verus! {

/// The smaller of two samples.
pub open spec fn lesser(a: u8, b: u8) -> u8 {
    if a < b {
        a
    } else {
        b
    }
}

/// Whether the pixel that byte `i` of `rgba` belongs to is complete and has a
/// sample in `alpha`.
pub open spec fn has_alpha_sample(rgba: Seq<u8>, alpha: Seq<u8>, i: int) -> bool {
    i / 4 < alpha.len() && (i / 4) * 4 + 4 <= rgba.len()
}

/// `rgba` with `alpha` laid over it: in each pixel that has an alpha sample
/// no colour channel is left above that sample, and the sample itself
/// becomes the pixel's fourth byte. Other bytes stay.
pub open spec fn with_alpha_plane(rgba: Seq<u8>, alpha: Seq<u8>) -> Seq<u8> {
    Seq::new(
        rgba.len(),
        |i: int|
            if has_alpha_sample(rgba, alpha, i) {
                if i % 4 == 3 {
                    alpha[i / 4]
                } else {
                    lesser(rgba[i], alpha[i / 4])
                }
            } else {
                rgba[i]
            },
    )
}

/// Lays the alpha plane over the picture: pixel `p` takes `alpha[p]` as its
/// opacity, and its red, green and blue are cut down to that value where they
/// exceed it, so that no colour is brighter than its own opacity.
pub fn compose_alpha(rgba: &mut Vec<u8>, alpha: &[u8])
    ensures
        final(rgba)@ == with_alpha_plane(old(rgba)@, alpha@),
{
    let ghost before = rgba@;
    let pixels: usize = if alpha.len() < rgba.len() / 4 {
        alpha.len()
    } else {
        rgba.len() / 4
    };
    let mut p: usize = 0;
    while p < pixels
        invariant
            p <= pixels,
            pixels <= alpha.len(),
            pixels * 4 <= before.len() <= usize::MAX,
            pixels == alpha.len() || pixels == before.len() / 4,
            rgba@.len() == before.len(),
            forall|i: int| 0 <= i < 4 * p ==> rgba@[i] == with_alpha_plane(before, alpha@)[i],
            forall|i: int| 4 * p <= i < before.len() ==> rgba@[i] == before[i],
        decreases pixels - p,
    {
        let a: u8 = alpha[p];
        let base: usize = p * 4;
        let r: u8 = rgba[base];
        let g: u8 = rgba[base + 1];
        let b: u8 = rgba[base + 2];
        rgba.set(base, if r < a { r } else { a });
        rgba.set(base + 1, if g < a { g } else { a });
        rgba.set(base + 2, if b < a { b } else { a });
        rgba.set(base + 3, a);
        p += 1;
    }
    assert(rgba@ =~= with_alpha_plane(before, alpha@));
}

/// The smaller of a buffer's extent and the bound on it.
pub open spec fn clamped(extent: int, bound: u16) -> int {
    if extent < bound {
        extent
    } else {
        bound as int
    }
}

/// Where byte `i` of a picture cropped to `new_width` columns lay in the
/// picture of `width` columns: the same row, the same place in the row.
pub open spec fn source_index(i: int, width: int, new_width: int) -> int {
    (i / (4 * new_width)) * (4 * width) + i % (4 * new_width)
}

/// The top left `new_width` by `new_height` pixels of a picture that is
/// `width` pixels wide, packed row after row without gaps.
pub open spec fn cropped_pixels(rgba: Seq<u8>, width: int, new_width: int, new_height: int) -> Seq<u8> {
    Seq::new(
        (4 * new_width * new_height) as nat,
        |i: int| rgba[source_index(i, width, new_width)],
    )
}

/// A picture of `width` by `height` pixels cropped to `bounds`: neither
/// extent is left above its bound, and the pixels that stay keep their place.
pub open spec fn cropped_frame(rgba: Seq<u8>, width: int, height: int, bounds: (u16, u16)) -> DecodedFrameView {
    DecodedFrameView {
        width: clamped(width, bounds.0) as u16,
        height: clamped(height, bounds.1) as u16,
        rgba: cropped_pixels(rgba, width, clamped(width, bounds.0), clamped(height, bounds.1)),
    }
}

/// Whether a picture falls short of the bounds in either direction.
pub open spec fn falls_short(width: int, height: int, bounds: (u16, u16)) -> bool {
    width < bounds.0 || height < bounds.1
}

/// Byte `b` of row `row` in a cropped picture is byte `b` of that row in the
/// picture it was cut from.
pub proof fn lemma_cropped_rows(
    rgba: Seq<u8>,
    width: int,
    new_width: int,
    new_height: int,
    row: int,
    b: int,
)
    requires
        0 <= new_width <= width,
        0 <= row < new_height,
        0 <= b < 4 * new_width,
    ensures
        0 <= row * (4 * new_width) + b < 4 * new_width * new_height,
        cropped_pixels(rgba, width, new_width, new_height)[row * (4 * new_width) + b]
            == rgba[row * (4 * width) + b],
{
    let stride = 4 * new_width;
    let i = row * stride + b;
    lemma_row_index(stride, new_height, row, b);
    assert(4 * new_width * new_height == stride * new_height) by (nonlinear_arith)
        requires
            stride == 4 * new_width,
    ;
    assert(source_index(i, width, new_width) == row * (4 * width) + b);
}

/// Byte `b` of row `row` in a buffer whose rows are `stride` bytes apart.
pub open spec fn row_byte(buffer: Seq<u8>, stride: int, row: int, b: int) -> u8 {
    buffer[row * stride + b]
}

/// A buffer that agrees row by row with the leading part of each row of
/// `rgba` is the cropped picture.
proof fn lemma_rows_are_cropped(
    out: Seq<u8>,
    rgba: Seq<u8>,
    width: int,
    new_width: int,
    new_height: int,
)
    requires
        0 <= new_width <= width,
        0 <= new_height,
        out.len() == 4 * new_width * new_height,
        forall|r: int, b: int|
            0 <= r < new_height && 0 <= b < 4 * new_width ==> #[trigger] row_byte(
                out,
                4 * new_width,
                r,
                b,
            ) == row_byte(rgba, 4 * width, r, b),
    ensures
        out == cropped_pixels(rgba, width, new_width, new_height),
{
    let stride = 4 * new_width;
    let target = cropped_pixels(rgba, width, new_width, new_height);
    assert forall|i: int| 0 <= i < out.len() implies out[i] == target[i] by {
        assert(stride > 0) by (nonlinear_arith)
            requires
                0 <= i < 4 * new_width * new_height,
                stride == 4 * new_width,
                0 <= new_width,
                0 <= new_height,
        ;
        let r = i / stride;
        let b = i % stride;
        vstd::arithmetic::div_mod::lemma_fundamental_div_mod(i, stride);
        vstd::arithmetic::div_mod::lemma_mod_bound(i, stride);
        assert(0 <= r < new_height) by (nonlinear_arith)
            requires
                i == stride * r + b,
                0 <= b < stride,
                0 <= i < 4 * new_width * new_height,
                stride == 4 * new_width,
        ;
        assert(stride * r == r * stride) by (nonlinear_arith);
        assert(row_byte(out, stride, r, b) == row_byte(rgba, 4 * width, r, b));
    }
    assert(out =~= target);
}

/// Crops a picture of `width` by `height` pixels to the bounds of its
/// stream. Where the picture is wider than the bounds, the leading pixels of
/// each row are moved up against the row before, in place; rows below the
/// bounds are cut off. A picture that is smaller than the bounds in either
/// direction keeps that extent.
pub fn crop(rgba: Vec<u8>, width: usize, height: usize, bounds: (u16, u16)) -> (frame: DecodedFrame)
    requires
        rgba.len() == 4 * width * height,
    ensures
        frame@ == cropped_frame(rgba@, width as int, height as int, bounds),
        frame.width <= bounds.0,
        frame.height <= bounds.1,
        frame@.wf(),
{
    let mut rgba = rgba;
    let ghost before = rgba@;
    let new_width: usize = if width < bounds.0 as usize {
        width
    } else {
        bounds.0 as usize
    };
    let new_height: usize = if height < bounds.1 as usize {
        height
    } else {
        bounds.1 as usize
    };
    let new_stride: usize = new_width * 4;
    proof {
        assert(4 * new_width * new_height <= 4 * width * height) by (nonlinear_arith)
            requires
                0 <= new_width <= width,
                0 <= new_height <= height,
        ;
        assert(new_width * new_height * 4 == 4 * new_width * new_height) by (nonlinear_arith);
        assert(new_width * new_height <= new_width * new_height * 4) by (nonlinear_arith)
            requires
                0 <= new_width,
                0 <= new_height,
        ;
    }
    if new_width < width && new_height > 1 {
        proof {
            assert(4 * width <= 4 * width * height) by (nonlinear_arith)
                requires
                    0 <= width,
                    1 <= height,
            ;
            assert(4 * width * height == (4 * width) * height) by (nonlinear_arith);
        }
        let stride: usize = width * 4;
        let mut row: usize = 1;
        proof {
            assert forall|r: int, b: int|
                0 <= r < 1 && 0 <= b < new_stride implies #[trigger] row_byte(
                rgba@,
                new_stride as int,
                r,
                b,
            ) == row_byte(before, stride as int, r, b) by {
                assert(r == 0);
            }
        }
        while row < new_height
            invariant
                1 <= row <= new_height <= height,
                stride == 4 * width,
                new_stride == 4 * new_width,
                new_stride < stride,
                rgba@.len() == before.len(),
                before.len() == stride * height,
                before.len() <= usize::MAX,
                forall|r: int, b: int|
                    0 <= r < row && 0 <= b < new_stride ==> #[trigger] row_byte(
                        rgba@,
                        new_stride as int,
                        r,
                        b,
                    ) == row_byte(before, stride as int, r, b),
                forall|i: int| row * new_stride <= i < before.len() ==> rgba@[i] == before[i],
            decreases new_height - row,
        {
            proof {
                assert((row + 1) * stride <= stride * height) by (nonlinear_arith)
                    requires
                        row + 1 <= height,
                        0 <= stride,
                ;
                assert((row + 1) * stride == row * stride + stride) by (nonlinear_arith);
                assert((row + 1) * new_stride == row * new_stride + new_stride)
                    by (nonlinear_arith);
                assert(row * new_stride <= row * stride) by (nonlinear_arith)
                    requires
                        0 <= row,
                        new_stride <= stride,
                ;
            }
            let src: usize = row * stride;
            let dst: usize = row * new_stride;
            let ghost at_row = rgba@;
            let mut j: usize = 0;
            while j < new_stride
                invariant
                    j <= new_stride < stride,
                    dst <= src,
                    dst == row * new_stride,
                    src == row * stride,
                    src + stride <= before.len(),
                    rgba@.len() == before.len(),
                    before.len() <= usize::MAX,
                    forall|i: int| 0 <= i < dst ==> rgba@[i] == at_row[i],
                    forall|i: int| dst <= i < dst + j ==> rgba@[i] == before[i - dst + src],
                    forall|i: int| dst + j <= i < before.len() ==> rgba@[i] == before[i],
                decreases new_stride - j,
            {
                let v: u8 = rgba[src + j];
                rgba.set(dst + j, v);
                j += 1;
            }
            proof {
                assert forall|r: int, b: int|
                    0 <= r < row + 1 && 0 <= b < new_stride implies #[trigger] row_byte(
                    rgba@,
                    new_stride as int,
                    r,
                    b,
                ) == row_byte(before, stride as int, r, b) by {
                    if r < row {
                        assert(r * new_stride + b < row * new_stride) by (nonlinear_arith)
                            requires
                                0 <= r < row,
                                0 <= b < new_stride,
                        ;
                        assert(0 <= r * new_stride + b) by (nonlinear_arith)
                            requires
                                0 <= r,
                                0 <= b,
                                0 <= new_stride,
                        ;
                        assert(row_byte(at_row, new_stride as int, r, b) == row_byte(
                            before,
                            stride as int,
                            r,
                            b,
                        ));
                    }
                }
            }
            row += 1;
        }
    }
    let ghost packed = rgba@;
    proof {
        assert forall|r: int, b: int|
            0 <= r < new_height && 0 <= b < 4 * new_width implies #[trigger] row_byte(
            packed,
            4 * new_width,
            r,
            b,
        ) == row_byte(before, 4 * width, r, b) by {
            if new_width < width && new_height > 1 {
            } else if new_width == width {
            } else {
                assert(r == 0);
            }
        }
    }
    rgba.truncate(new_width * new_height * 4);
    proof {
        assert forall|r: int, b: int|
            0 <= r < new_height && 0 <= b < 4 * new_width implies #[trigger] row_byte(
            rgba@,
            4 * new_width,
            r,
            b,
        ) == row_byte(before, 4 * width, r, b) by {
            lemma_row_index(4 * new_width, new_height as int, r, b);
            assert((4 * new_width) * new_height == 4 * new_width * new_height)
                by (nonlinear_arith);
            assert(row_byte(packed, 4 * new_width, r, b) == row_byte(before, 4 * width, r, b));
        }
        lemma_rows_are_cropped(rgba@, before, width as int, new_width as int, new_height as int);
    }
    DecodedFrame { width: new_width as u16, height: new_height as u16, rgba }
}

/// A byte's index determines its row and its place in the row.
pub proof fn lemma_row_index(stride: int, rows: int, row: int, b: int)
    requires
        0 <= row < rows,
        0 <= b < stride,
    ensures
        0 <= row * stride + b < stride * rows,
        (row * stride + b) / stride == row,
        (row * stride + b) % stride == b,
{
    vstd::arithmetic::div_mod::lemma_fundamental_div_mod_converse(row * stride + b, stride, row, b);
    assert(row * stride + b < stride * rows) by (nonlinear_arith)
        requires
            0 <= row < rows,
            0 <= b < stride,
    ;
    assert(0 <= row * stride + b) by (nonlinear_arith)
        requires
            0 <= row,
            0 <= b < stride,
    ;
}

} // verus!
