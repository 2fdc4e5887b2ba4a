//! The bitmap rasterizer: serializes the cropped region of a symbol matrix
//! into a flat byte buffer with a fixed layout, two 4-byte big-endian
//! dimensions followed by one 4-byte ARGB pixel per module.

use crate::matrix::{box_is_tight, crop_box, lemma_tight_box_unique, BoundingBox, MatrixView,
    SymbolMatrix};
use vstd::arithmetic::div_mod::{lemma_div_pos_is_pos, lemma_fundamental_div_mod_converse,
    lemma_mod_bound, lemma_multiply_divide_lt};
use vstd::prelude::*;

verus! {

/// The four big-endian bytes of the 32-bit value `n`.
pub open spec fn be32(n: int) -> Seq<u8> {
    seq![
        ((n / 0x1000000) % 256) as u8,
        ((n / 0x10000) % 256) as u8,
        ((n / 0x100) % 256) as u8,
        (n % 256) as u8,
    ]
}

/// The 4-byte ARGB tuple of one module: opaque black where the module is
/// set, opaque white where it is not.
pub open spec fn pixel_bytes(set: bool) -> Seq<u8> {
    if set {
        seq![0xFFu8, 0x00u8, 0x00u8, 0x00u8]
    } else {
        seq![0xFFu8, 0xFFu8, 0xFFu8, 0xFFu8]
    }
}

/// The width of the cropped region, in modules.
pub open spec fn crop_width(b: BoundingBox) -> int {
    b.max_x - b.min_x + 1
}

/// The height of the cropped region, in modules.
pub open spec fn crop_height(b: BoundingBox) -> int {
    b.max_y - b.min_y + 1
}

/// The 8-byte header: cropped width and cropped height, each as 4 bytes
/// big-endian.
pub open spec fn raster_header(b: BoundingBox) -> Seq<u8> {
    be32(crop_width(b)) + be32(crop_height(b))
}

/// The pixel section: the ARGB tuples of the cropped region's modules, in
/// row-major order.
pub open spec fn pixel_section(m: MatrixView, b: BoundingBox) -> Seq<u8> {
    Seq::new(
        (4 * crop_width(b) * crop_height(b)) as nat,
        |i: int|
            {
                let p = i / 4;
                pixel_bytes(
                    m.cell(b.min_x + p % crop_width(b), b.min_y + p / crop_width(b)),
                )[i % 4]
            },
    )
}

/// The full raster buffer of the cropped region of `m`.
pub open spec fn raster_bytes(m: MatrixView, b: BoundingBox) -> Seq<u8> {
    raster_header(b) + pixel_section(m, b)
}

/// Appends the four big-endian bytes of `n`.
fn push_be32(out: &mut Vec<u8>, n: u32)
    ensures
        final(out)@ == old(out)@ + be32(n as int),
{
    out.push((n / 0x1000000) as u8);
    out.push((n / 0x10000 % 256) as u8);
    out.push((n / 0x100 % 256) as u8);
    out.push((n % 256) as u8);
}

/// Serializes the region of `m` that `b` bounds: an 8-byte big-endian
/// header with the cropped dimensions, then one opaque black or white
/// 4-byte ARGB pixel per module, row-major.  Pure, and total for every
/// valid bounding box; the 32-bit header fields bound the cropped
/// dimensions.
pub fn rasterize(m: &SymbolMatrix, b: &BoundingBox) -> (r: Vec<u8>)
    requires
        m@.wf(),
        b.min_x <= b.max_x < m@.width,
        b.min_y <= b.max_y < m@.height,
        crop_width(*b) <= u32::MAX,
        crop_height(*b) <= u32::MAX,
    ensures
        r@ == raster_bytes(m@, *b),
{
    let ghost cw = crop_width(*b);
    let ghost ch = crop_height(*b);
    let ghost sect = pixel_section(m@, *b);
    let crop_w: usize = b.max_x - b.min_x + 1;
    let crop_h: usize = b.max_y - b.min_y + 1;
    let mut out: Vec<u8> = Vec::new();
    push_be32(&mut out, crop_w as u32);
    push_be32(&mut out, crop_h as u32);
    assert(out@ =~= raster_header(*b));
    assert(out@ =~= raster_header(*b) + sect.subrange(0, 0));
    let mut y: usize = b.min_y;
    while y <= b.max_y
        invariant
            m@.wf(),
            b.min_x <= b.max_x < m@.width,
            b.min_y <= b.max_y < m@.height,
            cw == crop_width(*b),
            ch == crop_height(*b),
            sect == pixel_section(m@, *b),
            b.min_y <= y <= b.max_y + 1,
            0 <= 4 * cw * (y - b.min_y) <= sect.len(),
            out@ == raster_header(*b) + sect.subrange(0, 4 * cw * (y - b.min_y)),
        decreases b.max_y + 1 - y,
    {
        let mut x: usize = b.min_x;
        proof {
            assert(4 * cw * (y - b.min_y) + 4 * (x - b.min_x) == 4 * cw * (y - b.min_y));
        }
        while x <= b.max_x
            invariant
                m@.wf(),
                b.min_x <= b.max_x < m@.width,
                b.min_y <= b.max_y < m@.height,
                cw == crop_width(*b),
                ch == crop_height(*b),
                sect == pixel_section(m@, *b),
                b.min_y <= y <= b.max_y,
                b.min_x <= x <= b.max_x + 1,
                0 <= 4 * cw * (y - b.min_y) + 4 * (x - b.min_x) <= sect.len(),
                out@ == raster_header(*b) + sect.subrange(
                    0,
                    4 * cw * (y - b.min_y) + 4 * (x - b.min_x),
                ),
            decreases b.max_x + 1 - x,
        {
            let ghost dy = y - b.min_y;
            let ghost dx = x - b.min_x;
            let ghost p = cw * dy + dx;
            let ghost k = 4 * cw * dy + 4 * dx;
            let set = m.get(x, y);
            if set {
                out.push(0xFF);
                out.push(0x00);
                out.push(0x00);
                out.push(0x00);
            } else {
                out.push(0xFF);
                out.push(0xFF);
                out.push(0xFF);
                out.push(0xFF);
            }
            proof {
                assert(k == 4 * p) by (nonlinear_arith)
                    requires
                        p == cw * dy + dx,
                        k == 4 * cw * dy + 4 * dx,
                ;
                assert(0 <= p && p + 1 <= cw * ch) by (nonlinear_arith)
                    requires
                        p == cw * dy + dx,
                        0 <= dx < cw,
                        0 <= dy < ch,
                ;
                assert(4 * p + 4 <= 4 * (cw * ch)) by (nonlinear_arith)
                    requires
                        p + 1 <= cw * ch,
                ;
                assert(sect.len() == 4 * cw * ch);
                assert(4 * (cw * ch) == 4 * cw * ch) by (nonlinear_arith);
                lemma_fundamental_div_mod_converse(p, cw, dy, dx);
                lemma_fundamental_div_mod_converse(4 * p, 4, p, 0);
                lemma_fundamental_div_mod_converse(4 * p + 1, 4, p, 1);
                lemma_fundamental_div_mod_converse(4 * p + 2, 4, p, 2);
                lemma_fundamental_div_mod_converse(4 * p + 3, 4, p, 3);
                assert(sect[k] == pixel_bytes(m@.cell(x as int, y as int))[0]);
                assert(sect[k + 1] == pixel_bytes(m@.cell(x as int, y as int))[1]);
                assert(sect[k + 2] == pixel_bytes(m@.cell(x as int, y as int))[2]);
                assert(sect[k + 3] == pixel_bytes(m@.cell(x as int, y as int))[3]);
                assert(out@ =~= raster_header(*b) + sect.subrange(0, k + 4));
                assert(4 * cw * dy + 4 * (x + 1 - b.min_x) == k + 4) by (nonlinear_arith)
                    requires
                        k == 4 * cw * dy + 4 * dx,
                        dx == x - b.min_x,
                ;
            }
            x += 1;
        }
        proof {
            assert(4 * cw * (y + 1 - b.min_y) == 4 * cw * (y - b.min_y) + 4 * cw)
                by (nonlinear_arith);
            assert(4 * (x - b.min_x) == 4 * cw);
        }
        y += 1;
    }
    proof {
        assert(4 * cw * (y - b.min_y) == 4 * cw * ch) by (nonlinear_arith)
            requires
                y == b.max_y + 1,
                ch == b.max_y - b.min_y + 1,
                cw == crop_width(*b),
        ;
        assert(sect.subrange(0, sect.len() as int) =~= sect);
        assert(out@ =~= raster_bytes(m@, *b));
    }
    out
}

/// An all-blank matrix crops to its full extent and rasterizes to a
/// buffer whose header holds the full dimensions and whose every pixel
/// byte is opaque white.
pub proof fn lemma_blank_matrix_rasterizes_white(m: MatrixView)
    requires
        m.wf(),
        1 <= m.width <= usize::MAX,
        1 <= m.height <= usize::MAX,
        forall|x: int, y: int| m.in_bounds(x, y) ==> !(#[trigger] m.cell(x, y)),
    ensures
        crop_box(m) == (BoundingBox {
            min_x: 0,
            max_x: (m.width - 1) as usize,
            min_y: 0,
            max_y: (m.height - 1) as usize,
        }),
        raster_bytes(m, crop_box(m)).len() == 8 + 4 * m.width * m.height,
        raster_bytes(m, crop_box(m)).subrange(0, 4) == be32(m.width),
        raster_bytes(m, crop_box(m)).subrange(4, 8) == be32(m.height),
        forall|i: int|
            8 <= i < 8 + 4 * m.width * m.height ==> #[trigger] raster_bytes(m, crop_box(m))[i]
                == 0xFF,
{
    let full = BoundingBox {
        min_x: 0,
        max_x: (m.width - 1) as usize,
        min_y: 0,
        max_y: (m.height - 1) as usize,
    };
    assert(!m.has_set_module());
    assert(box_is_tight(m, full));
    assert(box_is_tight(m, crop_box(m)));
    lemma_tight_box_unique(m, full, crop_box(m));
    let cw = crop_width(full);
    let ch = crop_height(full);
    assert(cw == m.width);
    assert(ch == m.height);
    let sect = pixel_section(m, full);
    assert(4 * cw * ch == 4 * (cw * ch)) by (nonlinear_arith);
    assert forall|j: int| 0 <= j < sect.len() implies #[trigger] sect[j] == 0xFF by {
        let p = j / 4;
        lemma_div_pos_is_pos(j, 4);
        lemma_multiply_divide_lt(j, 4, cw * ch);
        lemma_mod_bound(p, cw);
        lemma_div_pos_is_pos(p, cw);
        lemma_multiply_divide_lt(p, cw, ch);
        assert(m.in_bounds(full.min_x + p % cw, full.min_y + p / cw));
        assert(!m.cell(full.min_x + p % cw, full.min_y + p / cw));
        lemma_mod_bound(j, 4);
        assert(pixel_bytes(false)[j % 4] == 0xFF);
    }
    let whole = raster_bytes(m, full);
    assert(whole.subrange(0, 4) =~= be32(cw));
    assert(whole.subrange(4, 8) =~= be32(ch));
    assert forall|i: int| 8 <= i < 8 + 4 * m.width * m.height implies #[trigger] whole[i]
        == 0xFF by {
        assert(whole[i] == sect[i - 8]);
    }
}

} // verus!
