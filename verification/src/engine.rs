//! The trusted boundary to the detection and encoding engines of the
//! `rxing` crate.  Each engine call sits behind a wrapper whose contract
//! names its result; the engines' outputs are pure functions of the call's
//! arguments, so the names pin the pipelines' contracts down without
//! restating the symbology algorithms themselves.

use crate::codec::HintSet;
use crate::matrix::{MatrixView, SymbolMatrix};
use vstd::prelude::*;

verus! {

/// rxing's bit matrix, the encoding engine's output, held opaque; its
/// contents are reached only through the wrappers below.
#[verifier::external_type_specification]
#[verifier::external_body]
pub struct ExBitMatrix(rxing::common::BitMatrix);

/// What the detection engine returns for a luminance plane: the decoded
/// text and the engine's display string for the format, or nothing where
/// no symbol is found, the buffer length does not match the dimensions, or
/// a dimension is zero.
pub uninterp spec fn detection_of(
    luma: Seq<u8>,
    width: u32,
    height: u32,
    try_harder: bool,
) -> Option<(Seq<char>, Seq<char>)>;

/// What the encoding engine returns for a content string, a format name
/// and a target size: the symbol matrix it renders, or nothing where the
/// content does not fit the format or the name denotes no encodable
/// format.
pub uninterp spec fn encoding_of(
    content: Seq<char>,
    format_name: Seq<char>,
    width: i32,
    height: i32,
) -> Option<MatrixView>;

/// The modules a bit matrix holds, row-major.
pub uninterp spec fn engine_cells(m: rxing::common::BitMatrix) -> Seq<bool>;

/// The column count of a bit matrix.
pub uninterp spec fn engine_width(m: rxing::common::BitMatrix) -> nat;

/// The row count of a bit matrix.
pub uninterp spec fn engine_height(m: rxing::common::BitMatrix) -> nat;

/// The view of a bit matrix as a matrix of plain values.
pub open spec fn engine_matrix_view(m: rxing::common::BitMatrix) -> MatrixView {
    MatrixView {
        width: engine_width(m) as int,
        height: engine_height(m) as int,
        cells: engine_cells(m),
    }
}

/// An optional pair of strings, seen through its views.
pub open spec fn detection_view(r: Option<(String, String)>) -> Option<(Seq<char>, Seq<char>)> {
    match r {
        Option::None => Option::None,
        Option::Some(p) => Option::Some((p.0@, p.1@)),
    }
}

/// Relies on `rxing::helpers::detect_in_luma_with_hints`: a pure scan of
/// the luminance plane that returns `Err` where no symbol is found, where
/// the buffer length does not match `width * height`, or where a dimension
/// is zero; and on `rxing::BarcodeFormat`'s `Display`, a fixed string per
/// format variant, for rendering the detected format.
#[verifier::external_body]
pub(crate) fn detect_symbol(luma: Vec<u8>, width: u32, height: u32, hints: &HintSet) -> (r: Option<
    (String, String),
>)
    ensures
        detection_view(r) == detection_of(luma@, width, height, hints.try_harder),
{
    let mut engine_hints = rxing::DecodeHints::default();
    engine_hints.TryHarder = hints.try_harder.then_some(true);
    match rxing::helpers::detect_in_luma_with_hints(luma, width, height, None, &mut engine_hints) {
        Ok(found) => Some((found.getText().to_owned(), format!("{}", found.getBarcodeFormat()))),
        Err(_) => None,
    }
}

/// Relies on `rxing::MultiFormatWriter::encode`: renders a symbol matrix,
/// at least 1 x 1 and with 32-bit dimensions, or returns `Err`; and on
/// `rxing::BarcodeFormat`'s `From<&str>`, which maps each canonical
/// uppercase name to its format, for reading the name.
#[verifier::external_body]
pub(crate) fn write_symbol(content: &str, format_name: &str, width: i32, height: i32) -> (r:
    Option<rxing::common::BitMatrix>)
    ensures
        match r {
            Option::None => encoding_of(content@, format_name@, width, height) is None,
            Option::Some(m) => {
                &&& encoding_of(content@, format_name@, width, height) == Some(
                    engine_matrix_view(m),
                )
                &&& 1 <= engine_width(m) <= u32::MAX
                &&& 1 <= engine_height(m) <= u32::MAX
                &&& engine_cells(m).len() == engine_width(m) * engine_height(m)
            },
        },
{
    let format = rxing::BarcodeFormat::from(format_name);
    let writer = rxing::MultiFormatWriter::default();
    match rxing::Writer::encode(&writer, content, &format, width, height) {
        Ok(m) => Some(m),
        Err(_) => None,
    }
}

/// Relies on `rxing::common::BitMatrix::getWidth`.
#[verifier::external_body]
pub(crate) fn symbol_width(m: &rxing::common::BitMatrix) -> (r: u32)
    ensures
        r as nat == engine_width(*m),
{
    m.getWidth()
}

/// Relies on `rxing::common::BitMatrix::getHeight`.
#[verifier::external_body]
pub(crate) fn symbol_height(m: &rxing::common::BitMatrix) -> (r: u32)
    ensures
        r as nat == engine_height(*m),
{
    m.getHeight()
}

/// Relies on `rxing::common::BitMatrix::get`: the module at column `x` of
/// row `y`, read within bounds.
#[verifier::external_body]
pub(crate) fn symbol_get(m: &rxing::common::BitMatrix, x: u32, y: u32) -> (r: bool)
    requires
        (x as nat) < engine_width(*m),
        (y as nat) < engine_height(*m),
    ensures
        r == engine_cells(*m)[y as int * engine_width(*m) as int + x as int],
{
    m.get(x, y)
}

/// Copies the engine's bit matrix into a symbol matrix of plain values.
pub(crate) fn matrix_from_engine(m: &rxing::common::BitMatrix) -> (r: SymbolMatrix)
    requires
        1 <= engine_width(*m) <= u32::MAX,
        1 <= engine_height(*m) <= u32::MAX,
        engine_cells(*m).len() == engine_width(*m) * engine_height(*m),
    ensures
        r@ == engine_matrix_view(*m),
        r@.wf(),
        r.width >= 1,
        r.height >= 1,
        r.width <= u32::MAX,
        r.height <= u32::MAX,
{
    let w: u32 = symbol_width(m);
    let h: u32 = symbol_height(m);
    let mut cells: Vec<bool> = Vec::new();
    let mut y: u32 = 0;
    while y < h
        invariant
            w as nat == engine_width(*m),
            h as nat == engine_height(*m),
            engine_cells(*m).len() == w as int * h as int,
            1 <= w,
            1 <= h,
            y <= h,
            cells@.len() == y as int * w as int,
            cells@ == engine_cells(*m).subrange(0, y as int * w as int),
        decreases h - y,
    {
        let mut x: u32 = 0;
        while x < w
            invariant
                w as nat == engine_width(*m),
                h as nat == engine_height(*m),
                engine_cells(*m).len() == w as int * h as int,
                1 <= w,
                1 <= h,
                y < h,
                x <= w,
                cells@.len() == y as int * w as int + x as int,
                cells@ == engine_cells(*m).subrange(0, y as int * w as int + x as int),
            decreases w - x,
        {
            proof {
                crate::matrix::lemma_row_major_index(h as int, w as int, y as int, x as int);
                assert((y as int) * (w as int) + (x as int) < (w as int) * (h as int)) by (nonlinear_arith)
                    requires
                        0 <= x < w,
                        0 <= y < h,
                ;
            }
            let bit = symbol_get(m, x, y);
            cells.push(bit);
            assert(cells@ =~= engine_cells(*m).subrange(0, y as int * w as int + x as int + 1));
            x += 1;
        }
        proof {
            assert((y as int + 1) * w as int == y as int * w as int + w as int)
                by (nonlinear_arith);
        }
        y += 1;
    }
    proof {
        assert(h as int * w as int == w as int * h as int) by (nonlinear_arith);
        assert(cells@ =~= engine_cells(*m));
        assert((w as usize) as int * (h as usize) as int == w as int * h as int);
    }
    SymbolMatrix { width: w as usize, height: h as usize, cells }
}

} // verus!
