//! Pictures as rows of bytes: rows that lie close together, and rows at a distance.

use vstd::prelude::*;

verus! {

proof fn lemma_row_bounds(row: int, rows: int, stride: int)
    requires
        0 <= row < rows,
        0 <= stride,
    ensures
        0 <= row * stride,
        row * stride + stride <= rows * stride,
{
    assert(row * stride + stride == (row + 1) * stride) by (nonlinear_arith);
    assert((row + 1) * stride <= rows * stride) by (nonlinear_arith)
        requires
            row + 1 <= rows,
            0 <= stride,
    ;
    assert(0 <= row * stride) by (nonlinear_arith)
        requires
            0 <= row,
            0 <= stride,
    ;
}

/// The first `rows` rows of `len` bytes each, one behind the other; they begin `stride` bytes apart.
pub open spec fn packed(data: Seq<u8>, stride: int, len: int, rows: nat) -> Seq<u8>
    decreases rows,
{
    if rows == 0 {
        Seq::empty()
    } else {
        let from = (rows - 1) * stride;
        packed(data, stride, len, (rows - 1) as nat) + data.subrange(from, from + len)
    }
}

/// Puts rows that lie `stride` bytes apart close together.
pub fn pack_rows(data: &Vec<u8>, stride: usize, len: usize, rows: usize) -> (r: Vec<u8>)
    requires
        len <= stride,
        rows * stride <= data@.len(),
    ensures
        r@ == packed(data@, stride as int, len as int, rows as nat),
{
    let mut r: Vec<u8> = Vec::new();
    let mut row: usize = 0;
    let mut from: usize = 0;
    while row < rows
        invariant
            row <= rows,
            len <= stride,
            from == row * stride,
            rows * stride <= data@.len(),
            data@.len() == data.len(),
            r@ == packed(data@, stride as int, len as int, row as nat),
        decreases rows - row,
    {
        proof {
            lemma_row_bounds(row as int, rows as int, stride as int);
        }
        let ghost sofar = r@;
        let mut k: usize = 0;
        while k < len
            invariant
                k <= len,
                len <= stride,
                from + stride <= data@.len(),
                data@.len() == data.len(),
                r@ == sofar + data@.subrange(from as int, from + k),
            decreases len - k,
        {
            r.push(data[from + k]);
            k += 1;
            proof {
                assert(r@ =~= sofar + data@.subrange(from as int, from + k));
            }
        }
        proof {
            assert((row + 1) * stride == row * stride + stride) by (nonlinear_arith);
        }
        row += 1;
        if row < rows {
            proof {
                lemma_row_bounds(row as int, rows as int, stride as int);
            }
        }
        from += stride;
    }
    r
}

/// The pixels of a picture of four bytes each; nothing where the data is too short for it.
pub open spec fn packed_rgba(data: Seq<u8>, stride: int, width: int, height: int) -> Seq<u8> {
    if data.len() < stride * height {
        Seq::empty()
    } else {
        packed(data, stride, width * 4, height as nat)
    }
}

/// The pixels of a picture whose rows lie `stride` bytes apart.
pub fn pack_rgba(data: &Vec<u8>, stride: usize, width: usize, height: usize) -> (r: Vec<u8>)
    requires
        stride > 0,
        width * 4 <= stride,
    ensures
        r@ == packed_rgba(data@, stride as int, width as int, height as int),
{
    let have: usize = data.len();
    let needed: Option<usize> = stride.checked_mul(height);
    match needed {
        Some(n) => {
            if have < n {
                return Vec::new();
            }
            proof {
                assert(height * stride == stride * height) by (nonlinear_arith);
            }
            pack_rows(data, stride, width * 4, height)
        },
        None => Vec::new(),
    }
}

/// How many bytes of a row are copied.
pub open spec fn copied(width: int, src_stride: int, dst_stride: int) -> int {
    let s = if src_stride <= dst_stride {
        src_stride
    } else {
        dst_stride
    };
    if width <= s {
        width
    } else {
        s
    }
}

/// Whether a row lies inside both planes.
pub open spec fn row_fits(
    row: int,
    len: int,
    src_len: int,
    src_stride: int,
    dst_len: int,
    dst_stride: int,
) -> bool {
    row * src_stride + len <= src_len && row * dst_stride + len <= dst_len
}

/// A byte of a plane once the rows of another were copied into it.
pub open spec fn copied_byte(
    dst: Seq<u8>,
    dst_stride: int,
    src: Seq<u8>,
    src_stride: int,
    len: int,
    height: int,
    k: int,
) -> u8 {
    let row = k / dst_stride;
    let col = k % dst_stride;
    if dst_stride > 0 && row < height && col < len && row_fits(
        row,
        len,
        src.len() as int,
        src_stride,
        dst.len() as int,
        dst_stride,
    ) {
        src[row * src_stride + col]
    } else {
        dst[k]
    }
}

proof fn lemma_position(row: int, col: int, stride: int)
    requires
        0 <= row,
        0 <= col < stride,
    ensures
        (row * stride + col) / stride == row,
        (row * stride + col) % stride == col,
{
    assert((row * stride + col) / stride == row) by (nonlinear_arith)
        requires
            0 <= row,
            0 <= col < stride,
    ;
    assert((row * stride + col) % stride == col) by (nonlinear_arith)
        requires
            0 <= row,
            0 <= col < stride,
    ;
}

proof fn lemma_division(k: int, stride: int)
    requires
        0 <= k,
        0 < stride,
    ensures
        k == (k / stride) * stride + k % stride,
        0 <= k / stride,
        0 <= k % stride < stride,
{
    assert(k == (k / stride) * stride + k % stride && 0 <= k / stride && 0 <= k % stride < stride)
        by (nonlinear_arith)
        requires
            0 <= k,
            0 < stride,
    ;
}

/// Copies the rows of one plane into another. A row that does not lie inside both is left out.
pub fn copy_plane(
    dst: &mut Vec<u8>,
    dst_stride: usize,
    src: &Vec<u8>,
    src_stride: usize,
    width: usize,
    height: usize,
)
    ensures
        final(dst)@.len() == old(dst)@.len(),
        forall|k: int|
            0 <= k < final(dst)@.len() ==> #[trigger] final(dst)@[k] == copied_byte(
                old(dst)@,
                dst_stride as int,
                src@,
                src_stride as int,
                copied(width as int, src_stride as int, dst_stride as int),
                height as int,
                k,
            ),
{
    let s: usize = if src_stride <= dst_stride {
        src_stride
    } else {
        dst_stride
    };
    let len: usize = if width <= s {
        width
    } else {
        s
    };
    let ghost before = dst@;
    if len == 0 {
        return;
    }
    let mut row: usize = 0;
    let mut s_off: usize = 0;
    let mut d_off: usize = 0;
    let mut inside = true;
    while row < height && inside
        invariant
            row <= height,
            0 < len <= src_stride,
            len <= dst_stride,
            len == copied(width as int, src_stride as int, dst_stride as int),
            dst@.len() == before.len(),
            dst@.len() == dst.len(),
            src@.len() == src.len(),
            inside ==> s_off == row * src_stride && d_off == row * dst_stride,
            !inside ==> forall|r: int|
                row <= r ==> !#[trigger] row_fits(
                    r,
                    len as int,
                    src@.len() as int,
                    src_stride as int,
                    before.len() as int,
                    dst_stride as int,
                ),
            forall|k: int|
                0 <= k < dst@.len() ==> #[trigger] dst@[k] == copied_byte(
                    before,
                    dst_stride as int,
                    src@,
                    src_stride as int,
                    len as int,
                    row as int,
                    k,
                ),
        decreases height - row,
    {
        let ghost now = dst@;
        if s_off <= src.len() && len <= src.len() - s_off && d_off <= dst.len() && len <= dst.len()
            - d_off {
            let mut c: usize = 0;
            while c < len
                invariant
                    c <= len,
                    s_off + len <= src.len(),
                    d_off + len <= dst.len(),
                    dst@.len() == now.len(),
                    forall|k: int|
                        0 <= k < now.len() ==> #[trigger] dst@[k] == if d_off <= k < d_off + c {
                            src@[s_off + (k - d_off)]
                        } else {
                            now[k]
                        },
                decreases len - c,
            {
                dst.set(d_off + c, src[s_off + c]);
                c += 1;
            }
        }
        proof {
            assert forall|k: int| 0 <= k < dst@.len() implies #[trigger] dst@[k] == copied_byte(
                before,
                dst_stride as int,
                src@,
                src_stride as int,
                len as int,
                row + 1,
                k,
            ) by {
                lemma_division(k, dst_stride as int);
                let r = k / (dst_stride as int);
                let col = k % (dst_stride as int);
                let old_byte = copied_byte(
                    before,
                    dst_stride as int,
                    src@,
                    src_stride as int,
                    len as int,
                    row as int,
                    k,
                );
                assert(now[k] == old_byte);
                if r == row {
                    assert(k == d_off + col);
                } else {
                    if d_off <= k < d_off + len {
                        lemma_position(row as int, k - d_off, dst_stride as int);
                    }
                }
            }
            assert((row + 1) * src_stride == row * src_stride + src_stride) by (nonlinear_arith);
            assert((row + 1) * dst_stride == row * dst_stride + dst_stride) by (nonlinear_arith);
        }
        row += 1;
        if s_off > src.len() || src_stride > src.len() - s_off || d_off > dst.len() || dst_stride
            > dst.len() - d_off {
            inside = false;
            proof {
                assert forall|r: int| row <= r implies !#[trigger] row_fits(
                    r,
                    len as int,
                    src@.len() as int,
                    src_stride as int,
                    before.len() as int,
                    dst_stride as int,
                ) by {
                    assert(r * src_stride >= row * src_stride) by (nonlinear_arith)
                        requires
                            r >= row,
                            src_stride >= 0,
                    ;
                    assert(r * dst_stride >= row * dst_stride) by (nonlinear_arith)
                        requires
                            r >= row,
                            dst_stride >= 0,
                    ;
                }
            }
        } else {
            s_off += src_stride;
            d_off += dst_stride;
        }
    }
    proof {
        assert forall|k: int| 0 <= k < dst@.len() implies #[trigger] dst@[k] == copied_byte(
            before,
            dst_stride as int,
            src@,
            src_stride as int,
            len as int,
            height as int,
            k,
        ) by {
            lemma_division(k, dst_stride as int);
            let r = k / (dst_stride as int);
            if r >= row && r < height {
                assert(!row_fits(
                    r,
                    len as int,
                    src@.len() as int,
                    src_stride as int,
                    before.len() as int,
                    dst_stride as int,
                ));
            }
        }
    }
}

/// Rows that are put at a distance and then close together again are what they were.
pub proof fn rows_round_trip(
    pixels: Seq<u8>,
    len: int,
    blank: Seq<u8>,
    stride: int,
    rows: nat,
    spread: Seq<u8>,
)
    requires
        0 < len <= stride,
        pixels.len() == rows * len,
        rows * stride <= blank.len(),
        spread.len() == blank.len(),
        forall|k: int|
            0 <= k < spread.len() ==> #[trigger] spread[k] == copied_byte(
                blank,
                stride,
                pixels,
                len,
                len,
                rows as int,
                k,
            ),
    ensures
        packed(spread, stride, len, rows) == pixels,
{
    lemma_rows(pixels, len, blank, stride, rows, spread, rows);
    assert(pixels.take(rows * len) =~= pixels);
}

proof fn lemma_rows(
    pixels: Seq<u8>,
    len: int,
    blank: Seq<u8>,
    stride: int,
    rows: nat,
    spread: Seq<u8>,
    n: nat,
)
    requires
        n <= rows,
        0 < len <= stride,
        pixels.len() == rows * len,
        rows * stride <= blank.len(),
        spread.len() == blank.len(),
        forall|k: int|
            0 <= k < spread.len() ==> #[trigger] spread[k] == copied_byte(
                blank,
                stride,
                pixels,
                len,
                len,
                rows as int,
                k,
            ),
    ensures
        packed(spread, stride, len, n) == pixels.take(n * len),
        0 <= n * len <= pixels.len(),
    decreases n,
{
    assert(0 <= n * len <= rows * len) by (nonlinear_arith)
        requires
            0 <= n <= rows,
            0 < len,
    ;
    if n > 0 {
        let m = (n - 1) as nat;
        lemma_rows(pixels, len, blank, stride, rows, spread, m);
        lemma_row_bounds(m as int, rows as int, stride);
        lemma_row_bounds(m as int, rows as int, len);
        let from = m * stride;
        assert forall|c: int| 0 <= c < len implies spread[from + c] == #[trigger] pixels[m * len
            + c] by {
            lemma_position(m as int, c, stride);
            assert(spread[from + c] == copied_byte(
                blank,
                stride,
                pixels,
                len,
                len,
                rows as int,
                from + c,
            ));
        }
        assert(n * len == m * len + len) by (nonlinear_arith)
            requires
                n == m + 1,
        ;
        assert((n - 1) * stride == from);
        assert(pixels.take(m * len) + spread.subrange(from, from + len) =~= pixels.take(n * len))
            by {
            let a = pixels.take(m * len) + spread.subrange(from, from + len);
            let b = pixels.take(n * len);
            assert(a.len() == b.len());
            assert forall|i: int| 0 <= i < a.len() implies a[i] == b[i] by {
                if i >= m * len {
                    let c = i - m * len;
                    assert(a[i] == spread[from + c]);
                    assert(spread[from + c] == pixels[m * len + c]);
                }
            }
        }
    } else {
        assert(n * len == 0) by (nonlinear_arith)
            requires
                n == 0,
        ;
        assert(pixels.take(0) =~= Seq::empty());
    }
}

} // verus!
