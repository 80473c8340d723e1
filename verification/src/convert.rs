//! Packed-color to planar 4:2:0 conversion.
//!
//! A captured frame arrives as packed 32-bit color (blue, green, red, alpha
//! byte order, rows separated by a stride). The video encoder wants a planar
//! buffer: a full-resolution luma plane followed by two quarter-resolution
//! chroma planes. The conversion uses the standard integer luma/chroma
//! weighting and is a pure function of the input bytes.

use vstd::prelude::*;

verus! {

/// Length of a planar 4:2:0 buffer for the given dimensions:
/// one full luma plane and two half-by-half chroma planes.
pub open spec fn i420_len(width: nat, height: nat) -> nat {
    width * height + 2 * ((width / 2) * (height / 2))
}

/// The row stride (in bytes) implied by a packed source buffer: the buffer
/// holds `height` rows of equal length.
pub open spec fn stride_of(src_len: nat, height: nat) -> nat
    recommends
        height > 0,
{
    src_len / height
}

/// Byte offset of the packed pixel at column `x`, row `y`.
pub open spec fn pixel_offset(stride: nat, x: nat, y: nat) -> nat {
    y * stride + 4 * x
}

/// Luma of the packed pixel at `(x, y)`: the standard broadcast-range
/// weighting, always in `16 ..= 235`.
pub open spec fn luma_at(src: Seq<u8>, stride: nat, x: nat, y: nat) -> u8 {
    let o = pixel_offset(stride, x, y);
    let b = src[o as int] as nat;
    let g = src[o as int + 1] as nat;
    let r = src[o as int + 2] as nat;
    (((66 * r + 129 * g + 25 * b + 128) / 256 + 16) % 256) as u8
}

/// Blue-difference chroma of the packed pixel at `(x, y)`. The weighted sum
/// is biased by `112 * 256` so that it stays non-negative; the bias is taken
/// back out of the final offset, leaving the standard `U` value.
pub open spec fn chroma_u_at(src: Seq<u8>, stride: nat, x: nat, y: nat) -> u8 {
    let o = pixel_offset(stride, x, y);
    let b = src[o as int] as nat;
    let g = src[o as int + 1] as nat;
    let r = src[o as int + 2] as nat;
    ((((112 * b + 28672 + 128) - 38 * r - 74 * g) / 256 + 16) % 256) as u8
}

/// Red-difference chroma of the packed pixel at `(x, y)`, biased the same way.
pub open spec fn chroma_v_at(src: Seq<u8>, stride: nat, x: nat, y: nat) -> u8 {
    let o = pixel_offset(stride, x, y);
    let b = src[o as int] as nat;
    let g = src[o as int + 1] as nat;
    let r = src[o as int + 2] as nat;
    ((((112 * r + 28672 + 128) - 94 * g - 18 * b) / 256 + 16) % 256) as u8
}

/// The whole planar buffer as a function of the source bytes: luma plane,
/// then the `U` plane, then the `V` plane, each in row-major order with the
/// chroma planes sampling every second row and column.
pub open spec fn i420_spec(src: Seq<u8>, width: nat, height: nat) -> Seq<u8> {
    let stride = stride_of(src.len(), height);
    let cw = width / 2;
    let ch = height / 2;
    Seq::new(width * height, |i: int| luma_at(src, stride, (i % (width as int)) as nat, (i / (width as int)) as nat))
        + Seq::new(cw * ch, |i: int| chroma_u_at(src, stride, 2 * ((i % (cw as int)) as nat), 2 * ((i / (cw as int)) as nat)))
        + Seq::new(cw * ch, |i: int| chroma_v_at(src, stride, 2 * ((i % (cw as int)) as nat), 2 * ((i / (cw as int)) as nat)))
}

/// Every packed pixel the conversion reads lies inside the source buffer.
proof fn lemma_offset_in_bounds(src_len: nat, stride: nat, width: nat, height: nat, x: nat, y: nat)
    requires
        height > 0,
        stride == src_len / height,
        4 * width * height <= src_len,
        x < width,
        y < height,
    ensures
        pixel_offset(stride, x, y) + 2 < src_len,
        4 * width <= stride,
{
    vstd::arithmetic::div_mod::lemma_div_is_ordered(4 * (width as int) * (height as int), src_len as int, height as int);
    assert(4 * (width as int) * (height as int) == (4 * width as int) * (height as int)) by (nonlinear_arith);
    vstd::arithmetic::div_mod::lemma_div_multiples_vanish(4 * width as int, height as int);
    assert((height as int) * (4 * width as int) == (4 * width as int) * (height as int)) by (nonlinear_arith);
    assert(4 * width <= stride);

    vstd::arithmetic::div_mod::lemma_fundamental_div_mod(src_len as int, height as int);
    vstd::arithmetic::div_mod::lemma_mod_bound(src_len as int, height as int);
    assert((height as int) * (stride as int) <= src_len);
    vstd::arithmetic::mul::lemma_mul_inequality(y as int + 1, height as int, stride as int);
    assert((y as int + 1) * (stride as int) == (y as int) * (stride as int) + stride) by (nonlinear_arith);
    assert((height as int) * (stride as int) == (stride as int) * (height as int)) by (nonlinear_arith);
    assert((y as int + 1) * (stride as int) == (stride as int) * (y as int + 1)) by (nonlinear_arith);
    vstd::arithmetic::mul::lemma_mul_left_inequality(stride as int, y as int + 1, height as int);
    assert(y * stride + stride <= src_len);
    assert(4 * x + 3 < 4 * width);
}

/// Converts one packed frame to a planar 4:2:0 buffer.
///
/// The destination is a reusable buffer: it is cleared and refilled on every
/// call, and afterwards holds exactly the planar image that `i420_spec`
/// describes — a pure, deterministic function of the source bytes and the
/// dimensions.
pub fn argb_to_i420(width: usize, height: usize, src: &Vec<u8>, dest: &mut Vec<u8>)
    requires
        width % 2 == 0,
        height % 2 == 0,
        4 * width * height <= src.len(),
    ensures
        final(dest)@ == i420_spec(src@, width as nat, height as nat),
        final(dest)@.len() == i420_len(width as nat, height as nat),
{
    dest.clear();
    if height == 0 || width == 0 {
        proof {
            assert(width * height == 0) by (nonlinear_arith)
                requires width == 0 || height == 0;
            assert((width / 2) * (height / 2) == 0) by (nonlinear_arith)
                requires width == 0 || height == 0;
            assert(dest@ =~= i420_spec(src@, width as nat, height as nat));
        }
        return;
    }

    let stride: usize = src.len() / height;
    let ghost gstride = stride_of(src@.len(), height as nat);
    let cw: usize = width / 2;
    let ch: usize = height / 2;

    // Luma plane.
    let mut y: usize = 0;
    while y < height
        invariant
            width % 2 == 0,
            height % 2 == 0,
            0 < width,
            0 < height,
            4 * width * height <= src.len(),
            stride == gstride,
            gstride == stride_of(src@.len(), height as nat),
            y <= height,
            dest@.len() == y * width,
            forall|j: int| 0 <= j < dest@.len() ==> dest@[j] == luma_at(src@, gstride as nat, (j % (width as int)) as nat, (j / (width as int)) as nat),
        decreases height - y,
    {
        let mut x: usize = 0;
        while x < width
            invariant
                width % 2 == 0,
                height % 2 == 0,
                0 < width,
                0 < height,
                4 * width * height <= src.len(),
                stride == gstride,
                gstride == stride_of(src@.len(), height as nat),
                y < height,
                x <= width,
                dest@.len() == y * width + x,
                forall|j: int| 0 <= j < dest@.len() ==> dest@[j] == luma_at(src@, gstride as nat, (j % (width as int)) as nat, (j / (width as int)) as nat),
            decreases width - x,
        {
            proof {
                lemma_offset_in_bounds(src@.len(), gstride as nat, width as nat, height as nat, x as nat, y as nat);
                assert(y * stride + 4 * x + 2 < src.len()) by (nonlinear_arith)
                    requires
                        pixel_offset(gstride as nat, x as nat, y as nat) + 2 < src@.len(),
                        gstride == stride,
                        src@.len() == src.len();
            }
            let o: usize = y * stride + 4 * x;
            let b = src[o] as u32;
            let g = src[o + 1] as u32;
            let r = src[o + 2] as u32;
            let v: u32 = (66 * r + 129 * g + 25 * b + 128) / 256 + 16;
            dest.push(v as u8);
            proof {
                let j = y * width + x;
                assert(j / (width as int) == y && j % (width as int) == x) by (nonlinear_arith)
                    requires 0 <= x < width, 0 <= y, j == y * width + x;
                assert(dest@[j as int] == luma_at(src@, gstride as nat, x as nat, y as nat));
            }
            x = x + 1;
        }
        y = y + 1;
        proof {
            assert((y - 1) * width + width == y * width) by (nonlinear_arith);
        }
    }

    // Chroma planes: sample every second row and column.
    proof {
        assert((height as int) * (width as int) == (width as int) * (height as int)) by (nonlinear_arith);
    }
    let ghost luma = dest@;
    let mut cy: usize = 0;
    while cy < ch
        invariant
            width % 2 == 0,
            height % 2 == 0,
            0 < width,
            0 < height,
            4 * width * height <= src.len(),
            stride == gstride,
            gstride == stride_of(src@.len(), height as nat),
            cw == width / 2,
            ch == height / 2,
            cy <= ch,
            dest@.len() == luma.len() + cy * cw,
            luma.len() == width * height,
            dest@.subrange(0, luma.len() as int) == luma,
            forall|j: int| 0 <= j < luma.len() ==> luma[j] == luma_at(src@, gstride as nat, (j % (width as int)) as nat, (j / (width as int)) as nat),
            forall|j: int| luma.len() <= j < dest@.len() ==> dest@[j] == chroma_u_at(src@, gstride as nat, 2 * (((j - luma.len()) % (cw as int)) as nat), 2 * (((j - luma.len()) / (cw as int)) as nat)),
        decreases ch - cy,
    {
        let mut cx: usize = 0;
        while cx < cw
            invariant
                width % 2 == 0,
                height % 2 == 0,
                0 < width,
                0 < height,
                4 * width * height <= src.len(),
                stride == gstride,
                gstride == stride_of(src@.len(), height as nat),
                cw == width / 2,
                ch == height / 2,
                cy < ch,
                cx <= cw,
                dest@.len() == luma.len() + cy * cw + cx,
                luma.len() == width * height,
                dest@.subrange(0, luma.len() as int) == luma,
            forall|j: int| 0 <= j < luma.len() ==> luma[j] == luma_at(src@, gstride as nat, (j % (width as int)) as nat, (j / (width as int)) as nat),
                forall|j: int| luma.len() <= j < dest@.len() ==> dest@[j] == chroma_u_at(src@, gstride as nat, 2 * (((j - luma.len()) % (cw as int)) as nat), 2 * (((j - luma.len()) / (cw as int)) as nat)),
            decreases cw - cx,
        {
            proof {
                assert(2 * cx < width && 2 * cy < height) by (nonlinear_arith)
                    requires cx < cw, cy < ch, cw == width / 2, ch == height / 2, width % 2 == 0, height % 2 == 0;
                lemma_offset_in_bounds(src@.len(), gstride as nat, width as nat, height as nat, (2 * cx) as nat, (2 * cy) as nat);
                assert((2 * cy) * stride + 4 * (2 * cx) + 2 < src.len()) by (nonlinear_arith)
                    requires
                        pixel_offset(gstride as nat, (2 * cx) as nat, (2 * cy) as nat) + 2 < src@.len(),
                        gstride == stride,
                        src@.len() == src.len();
            }
            let o: usize = (2 * cy) * stride + 4 * (2 * cx);
            let b = src[o] as u32;
            let g = src[o + 1] as u32;
            let r = src[o + 2] as u32;
            let v: u32 = ((112 * b + 28672 + 128) - 38 * r - 74 * g) / 256 + 16;
            dest.push(v as u8);
            proof {
                let j = (cy * cw + cx) as int;
                assert(j / (cw as int) == cy && j % (cw as int) == cx) by (nonlinear_arith)
                    requires 0 <= cx < cw, 0 <= cy, j == cy * cw + cx;
                assert(dest@[luma.len() + j] == chroma_u_at(src@, gstride as nat, (2 * cx) as nat, (2 * cy) as nat));
                assert(dest@.subrange(0, luma.len() as int) == luma);
            }
            cx = cx + 1;
        }
        cy = cy + 1;
        proof {
            assert((cy - 1) * cw + cw == cy * cw) by (nonlinear_arith);
        }
    }

    proof {
        assert((ch as int) * (cw as int) == (cw as int) * (ch as int)) by (nonlinear_arith);
    }
    let ghost with_u = dest@;
    let mut cy2: usize = 0;
    while cy2 < ch
        invariant
            width % 2 == 0,
            height % 2 == 0,
            0 < width,
            0 < height,
            4 * width * height <= src.len(),
            stride == gstride,
            gstride == stride_of(src@.len(), height as nat),
            cw == width / 2,
            ch == height / 2,
            cy2 <= ch,
            dest@.len() == with_u.len() + cy2 * cw,
            with_u.len() == width * height + (cw * ch),
            dest@.subrange(0, with_u.len() as int) == with_u,
            luma.len() == width * height,
            with_u.subrange(0, luma.len() as int) == luma,
            forall|j: int| 0 <= j < luma.len() ==> luma[j] == luma_at(src@, gstride as nat, (j % (width as int)) as nat, (j / (width as int)) as nat),
            forall|j: int| luma.len() <= j < with_u.len() ==> with_u[j] == chroma_u_at(src@, gstride as nat, 2 * (((j - luma.len()) % (cw as int)) as nat), 2 * (((j - luma.len()) / (cw as int)) as nat)),
            forall|j: int| with_u.len() <= j < dest@.len() ==> dest@[j] == chroma_v_at(src@, gstride as nat, 2 * (((j - with_u.len()) % (cw as int)) as nat), 2 * (((j - with_u.len()) / (cw as int)) as nat)),
        decreases ch - cy2,
    {
        let mut cx: usize = 0;
        while cx < cw
            invariant
                width % 2 == 0,
                height % 2 == 0,
                0 < width,
                0 < height,
                4 * width * height <= src.len(),
                stride == gstride,
                gstride == stride_of(src@.len(), height as nat),
                cw == width / 2,
                ch == height / 2,
                cy2 < ch,
                cx <= cw,
                dest@.len() == with_u.len() + cy2 * cw + cx,
                with_u.len() == width * height + (cw * ch),
                dest@.subrange(0, with_u.len() as int) == with_u,
            luma.len() == width * height,
            with_u.subrange(0, luma.len() as int) == luma,
            forall|j: int| 0 <= j < luma.len() ==> luma[j] == luma_at(src@, gstride as nat, (j % (width as int)) as nat, (j / (width as int)) as nat),
            forall|j: int| luma.len() <= j < with_u.len() ==> with_u[j] == chroma_u_at(src@, gstride as nat, 2 * (((j - luma.len()) % (cw as int)) as nat), 2 * (((j - luma.len()) / (cw as int)) as nat)),
                forall|j: int| with_u.len() <= j < dest@.len() ==> dest@[j] == chroma_v_at(src@, gstride as nat, 2 * (((j - with_u.len()) % (cw as int)) as nat), 2 * (((j - with_u.len()) / (cw as int)) as nat)),
            decreases cw - cx,
        {
            proof {
                assert(2 * cx < width && 2 * cy2 < height) by (nonlinear_arith)
                    requires cx < cw, cy2 < ch, cw == width / 2, ch == height / 2, width % 2 == 0, height % 2 == 0;
                lemma_offset_in_bounds(src@.len(), gstride as nat, width as nat, height as nat, (2 * cx) as nat, (2 * cy2) as nat);
                assert((2 * cy2) * stride + 4 * (2 * cx) + 2 < src.len()) by (nonlinear_arith)
                    requires
                        pixel_offset(gstride as nat, (2 * cx) as nat, (2 * cy2) as nat) + 2 < src@.len(),
                        gstride == stride,
                        src@.len() == src.len();
            }
            let o: usize = (2 * cy2) * stride + 4 * (2 * cx);
            let b = src[o] as u32;
            let g = src[o + 1] as u32;
            let r = src[o + 2] as u32;
            let v: u32 = ((112 * r + 28672 + 128) - 94 * g - 18 * b) / 256 + 16;
            dest.push(v as u8);
            proof {
                let j = (cy2 * cw + cx) as int;
                assert(j / (cw as int) == cy2 && j % (cw as int) == cx) by (nonlinear_arith)
                    requires 0 <= cx < cw, 0 <= cy2, j == cy2 * cw + cx;
                assert(dest@[with_u.len() + j] == chroma_v_at(src@, gstride as nat, (2 * cx) as nat, (2 * cy2) as nat));
                assert(dest@.subrange(0, with_u.len() as int) == with_u);
            }
            cx = cx + 1;
        }
        cy2 = cy2 + 1;
        proof {
            assert((cy2 - 1) * cw + cw == cy2 * cw) by (nonlinear_arith);
        }
    }

    proof {
        assert((ch as int) * (cw as int) == (cw as int) * (ch as int)) by (nonlinear_arith);
        assert(dest@.len() == width * height + (cw * ch) + (cw * ch));
        assert forall|j: int| 0 <= j < luma.len() implies dest@[j] == luma[j] by {
            assert(dest@.subrange(0, with_u.len() as int)[j] == with_u[j]);
            assert(with_u.subrange(0, luma.len() as int)[j] == luma[j]);
        }
        assert forall|j: int| luma.len() <= j < with_u.len() implies dest@[j] == with_u[j] by {
            assert(dest@.subrange(0, with_u.len() as int)[j] == with_u[j]);
        }
        let s = i420_spec(src@, width as nat, height as nat);
        let a = Seq::new((width * height) as nat, |i: int| luma_at(src@, gstride as nat, (i % (width as int)) as nat, (i / (width as int)) as nat));
        let bu = Seq::new((cw * ch) as nat, |i: int| chroma_u_at(src@, gstride as nat, 2 * ((i % (cw as int)) as nat), 2 * ((i / (cw as int)) as nat)));
        let bv = Seq::new((cw * ch) as nat, |i: int| chroma_v_at(src@, gstride as nat, 2 * ((i % (cw as int)) as nat), 2 * ((i / (cw as int)) as nat)));
        assert(s == a + bu + bv);
        assert forall|j: int| 0 <= j < dest@.len() implies dest@[j] == s[j] by {
            if j < luma.len() {
                assert(s[j] == a[j]);
                assert(dest@[j] == luma[j]);
            } else if j < with_u.len() {
                assert(s[j] == bu[j - luma.len()]);
                assert(dest@[j] == with_u[j]);
            } else {
                assert(s[j] == bv[j - with_u.len()]);
            }
        }
        assert(dest@ =~= s);
    }
}

} // verus!
