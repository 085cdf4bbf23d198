//! Pictures for a video encoder: a plane of brightness, and two of colour at half the size.

use vstd::prelude::*;

verus! {

/// The smallest multiple of 16 that is at least `w`.
pub open spec fn round16(w: int) -> int {
    (w + 15) / 16 * 16
}

/// The distance of the rows of the brightness plane.
pub fn stride_y(w: usize) -> (r: usize)
    requires
        w <= usize::MAX - 15,
    ensures
        r == round16(w as int),
        r >= w,
        r % 16 == 0,
{
    (w + 15) / 16 * 16
}

/// The distance of the rows of the colour planes: that of half the width, at least 16.
pub fn stride_uv(w: usize) -> (r: usize)
    ensures
        r == if round16(w as int / 2) >= 16 {
            round16(w as int / 2)
        } else {
            16
        },
        r >= w / 2,
        r % 16 == 0,
{
    let half: usize = w / 2;
    let r: usize = (half + 15) / 16 * 16;
    if r >= 16 {
        r
    } else {
        16
    }
}

/// The size of a picture as the encoder takes it: even, and at least two.
pub open spec fn even_size(n: int) -> int {
    let m = if n >= 2 {
        n
    } else {
        2
    };
    m - m % 2
}

pub fn make_even(n: u32) -> (r: u32)
    ensures
        r == even_size(n as int),
        r % 2 == 0,
        r >= 2,
        n >= 2 ==> r <= n,
{
    let m: u32 = if n >= 2 {
        n
    } else {
        2
    };
    m - m % 2
}

/// The three bytes of a pixel of three bytes.
pub fn rgb_at(data: &Vec<u8>, i: usize) -> (r: (u8, u8, u8))
    requires
        i * 3 + 2 < data@.len(),
    ensures
        r == (data@[i * 3], data@[i * 3 + 1], data@[i * 3 + 2]),
{
    let n: usize = data.len();
    (data[i * 3], data[i * 3 + 1], data[i * 3 + 2])
}

/// The first three bytes of a pixel of four bytes.
pub fn rgba_at(data: &Vec<u8>, i: usize) -> (r: (u8, u8, u8))
    requires
        i * 4 + 2 < data@.len(),
    ensures
        r == (data@[i * 4], data@[i * 4 + 1], data@[i * 4 + 2]),
{
    let n: usize = data.len();
    (data[i * 4], data[i * 4 + 1], data[i * 4 + 2])
}

/// A picture for the encoder.
pub struct I420 {
    pub y: Vec<u8>,
    pub u: Vec<u8>,
    pub v: Vec<u8>,
    pub w: usize,
    pub h: usize,
    pub sy: usize,
    pub suv: usize,
}

/// Rows of `w` values, put `stride` bytes apart and filled up with zeros.
pub open spec fn is_spread(plane: Seq<u8>, rows: Seq<u8>, w: int, h: int, stride: int) -> bool {
    &&& plane.len() == h * stride
    &&& forall|j: int, i: int|
        #![trigger plane[j * stride + i]]
        0 <= j < h && 0 <= i < stride ==> plane[j * stride + i] == if i < w {
            rows[j * w + i]
        } else {
            0
        }
}

proof fn lemma_cell(j: int, i: int, h: int, w: int)
    requires
        0 <= j < h,
        0 <= i < w,
    ensures
        0 <= j * w,
        j * w + i < h * w,
{
    assert(j * w + w == (j + 1) * w) by (nonlinear_arith);
    assert((j + 1) * w <= h * w) by (nonlinear_arith)
        requires
            j + 1 <= h,
            0 <= w,
    ;
    assert(0 <= j * w) by (nonlinear_arith)
        requires
            0 <= j,
            0 <= w,
    ;
}

proof fn lemma_cells_apart(j: int, i: int, row: int, stride: int)
    requires
        0 <= j < row,
        0 <= i < stride,
    ensures
        j * stride + i < row * stride,
{
    assert(j * stride + stride == (j + 1) * stride) by (nonlinear_arith);
    assert((j + 1) * stride <= row * stride) by (nonlinear_arith)
        requires
            j + 1 <= row,
            0 <= stride,
    ;
}

fn spread(rows: &Vec<u8>, w: usize, h: usize, stride: usize) -> (plane: Vec<u8>)
    requires
        w <= stride,
        rows@.len() == h * w,
        h * stride <= usize::MAX,
    ensures
        is_spread(plane@, rows@, w as int, h as int, stride as int),
{
    let n: usize = rows.len();
    let mut plane: Vec<u8> = Vec::new();
    let mut j: usize = 0;
    let mut from: usize = 0;
    proof {
        assert(0 * stride == 0) by (nonlinear_arith);
        assert(0 * w == 0) by (nonlinear_arith);
    }
    while j < h
        invariant
            j <= h,
            w <= stride,
            n == rows.len(),
            rows@.len() == h * w,
            h * stride <= usize::MAX,
            from == j * w,
            plane@.len() == j * stride,
            forall|b: int, a: int|
                #![trigger plane@[b * stride + a]]
                0 <= b < j && 0 <= a < stride ==> plane@[b * stride + a] == if a < w {
                    rows@[b * w + a]
                } else {
                    0
                },
        decreases h - j,
    {
        let ghost done = plane@;
        let mut i: usize = 0;
        while i < stride
            invariant
                j < h,
                i <= stride,
                w <= stride,
                n == rows.len(),
                rows@.len() == h * w,
                from == j * w,
                done.len() == j * stride,
                plane@.len() == done.len() + i,
                forall|k: int| 0 <= k < done.len() ==> plane@[k] == done[k],
                forall|a: int|
                    #![trigger plane@[j * stride + a]]
                    0 <= a < i ==> plane@[j * stride + a] == if a < w {
                        rows@[j * w + a]
                    } else {
                        0
                    },
            decreases stride - i,
        {
            if i < w {
                proof {
                    lemma_cell(j as int, i as int, h as int, w as int);
                }
                plane.push(rows[from + i]);
            } else {
                plane.push(0);
            }
            i += 1;
        }
        proof {
            assert((j + 1) * stride == j * stride + stride) by (nonlinear_arith);
            assert((j + 1) * w == j * w + w) by (nonlinear_arith);
            assert forall|b: int, a: int|
                #![trigger plane@[b * stride + a]]
                0 <= b < j + 1 && 0 <= a < stride implies plane@[b * stride + a] == if a < w {
                rows@[b * w + a]
            } else {
                0
            } by {
                if b < j {
                    lemma_cells_apart(b, a, j as int, stride as int);
                    assert(0 <= b * stride + a) by (nonlinear_arith)
                        requires
                            0 <= b,
                            0 <= a,
                            0 <= stride,
                    ;
                    assert(plane@[b * stride + a] == done[b * stride + a]);
                }
            }
            if j + 1 < h {
                lemma_cells_apart(j as int, 0, h as int, w as int + 1);
            }
            assert((j + 1) * w <= h * w) by (nonlinear_arith)
                requires
                    j + 1 <= h,
                    0 <= w,
            ;
        }
        j += 1;
        from += w;
    }
    plane
}

/// Whether the planes of a picture can be held in memory.
pub open spec fn i420_fits(w: int, h: int) -> bool {
    &&& w + 15 <= usize::MAX
    &&& h * round16(w) <= usize::MAX
    &&& h / 2 * round16(w / 2) <= usize::MAX
    &&& h / 2 * 16 <= usize::MAX
}

/// Lays out a picture for the encoder. `luma` holds the brightness of every pixel row by row, `cb`
/// and `cr` the colour of every second pixel of every second row.
pub fn i420_picture(w: usize, h: usize, luma: &Vec<u8>, cb: &Vec<u8>, cr: &Vec<u8>) -> (p: I420)
    requires
        luma@.len() == h * w,
        cb@.len() == h as int / 2 * (w as int / 2),
        cr@.len() == h as int / 2 * (w as int / 2),
        i420_fits(w as int, h as int),
    ensures
        p.w == w && p.h == h,
        p.sy == round16(w as int),
        p.suv >= w / 2 && p.suv >= 16 && p.suv % 16 == 0,
        p.suv == if round16(w as int / 2) >= 16 {
            round16(w as int / 2)
        } else {
            16
        },
        is_spread(p.y@, luma@, w as int, h as int, p.sy as int),
        is_spread(p.u@, cb@, w as int / 2, h as int / 2, p.suv as int),
        is_spread(p.v@, cr@, w as int / 2, h as int / 2, p.suv as int),
{
    let sy: usize = stride_y(w);
    let suv: usize = stride_uv(w);
    I420 {
        y: spread(luma, w, h, sy),
        u: spread(cb, w / 2, h / 2, suv),
        v: spread(cr, w / 2, h / 2, suv),
        w,
        h,
        sy,
        suv,
    }
}

} // verus!
