//! The two codec pipelines.  Decode: a raw luminance plane plus its
//! dimensions, through the detection engine, to a text-plus-format result
//! or nothing.  Encode: a content string plus a format name and target
//! size, through the encoding engine, to the cropped symbol's raster
//! bytes or nothing.

use crate::engine;
use crate::format::Symbology;
use crate::matrix::{box_is_tight, crop_box, MatrixView, SymbolMatrix};
use crate::raster;
use crate::raster::raster_bytes;
use vstd::prelude::*;

verus! {

/// The decode configuration: currently only the "try harder" flag, which
/// asks the detection engine for a more thorough scan.
pub struct HintSet {
    pub try_harder: bool,
}

/// Builds the hint set for one decode call: the "try harder" flag is set
/// exactly when asked for.  Pure, with no failure modes.
pub fn build_hints(try_harder: bool) -> (r: HintSet)
    ensures
        r.try_harder == try_harder,
{
    HintSet { try_harder }
}

/// A successful decode: the decoded text and the boundary name of the
/// symbol's format.
pub struct BarcodeResult {
    pub text: String,
    pub format: String,
}

/// What decode yields: nothing where the buffer length does not match the
/// dimensions or the engine finds no symbol; otherwise the decoded text
/// and the canonical boundary name of the detected format.
pub open spec fn decode_spec(luma: Seq<u8>, width: u32, height: u32, try_harder: bool) -> Option<
    (Seq<char>, Seq<char>),
> {
    if luma.len() != width * height {
        Option::None
    } else {
        match engine::detection_of(luma, width, height, try_harder) {
            Option::None => Option::None,
            Option::Some(found) => Option::Some((found.0, crate::format::display_canonical(found.1))),
        }
    }
}

/// Decodes a symbol from a raw luminance plane of `width * height`
/// single-byte samples.  A buffer whose length does not match the
/// dimensions is rejected up front; every other failure inside the engine
/// collapses to the same absent result.
pub fn decode(luma: Vec<u8>, width: u32, height: u32, try_harder: bool) -> (r: Option<
    BarcodeResult,
>)
    ensures
        match r {
            Option::None => decode_spec(luma@, width, height, try_harder) is None,
            Option::Some(found) => decode_spec(luma@, width, height, try_harder) == Some(
                (found.text@, found.format@),
            ),
        },
{
    proof {
        assert((width as int) * (height as int) <= 0xffff_ffff * 0xffff_ffff) by (nonlinear_arith)
            requires
                0 <= width as int <= 0xffff_ffff,
                0 <= height as int <= 0xffff_ffff,
        ;
    }
    let expected: u64 = (width as u64) * (height as u64);
    if luma.len() as u64 != expected {
        return None;
    }
    let hints = build_hints(try_harder);
    match engine::detect_symbol(luma, width, height, &hints) {
        None => None,
        Some(found) => {
            let (text, display) = found;
            let sym = crate::format::symbology_from_display(display.as_str());
            let name = crate::format::symbology_to_name(&sym);
            Some(BarcodeResult { text, format: name })
        },
    }
}

/// The size handed to the encoding engine: QR symbols are inherently
/// square, so for them the requested width serves for both axes and the
/// height is ignored; every other symbology keeps the size as given.
pub open spec fn target_size(s: Symbology, width: i32, height: i32) -> (i32, i32) {
    if s is QrCode {
        (width, width)
    } else {
        (width, height)
    }
}

/// The symbol matrix encode obtains from the engine: the format name is
/// mapped to a symbology (unrecognized names fall back to QR code), the
/// target size is squared for QR, and the engine is called with the
/// symbology's canonical name.
pub open spec fn encode_matrix_spec(
    content: Seq<char>,
    format_name: Seq<char>,
    width: i32,
    height: i32,
) -> Option<MatrixView> {
    let sym = crate::format::symbology_for_name(format_name);
    let size = target_size(sym, width, height);
    engine::encoding_of(content, sym.name_seq(), size.0, size.1)
}

/// What encode yields: the raster bytes of the engine's matrix, cropped to
/// the tight bounding box of its set modules.
pub open spec fn encode_spec(
    content: Seq<char>,
    format_name: Seq<char>,
    width: i32,
    height: i32,
) -> Option<Seq<u8>> {
    match encode_matrix_spec(content, format_name, width, height) {
        Option::None => Option::None,
        Option::Some(m) => Option::Some(raster_bytes(m, crop_box(m))),
    }
}

/// Encodes `content` into a symbol matrix.  The format name is mapped
/// through the format-name mapper, so an unrecognized name encodes as a
/// QR code; for QR the engine is asked for a square `width * width`
/// target.  Engine failure yields nothing.
pub fn encode_matrix(content: &str, format_name: &str, width: i32, height: i32) -> (r: Option<
    SymbolMatrix,
>)
    ensures
        match r {
            Option::None => encode_matrix_spec(content@, format_name@, width, height) is None,
            Option::Some(m) => {
                &&& encode_matrix_spec(content@, format_name@, width, height) == Some(m@)
                &&& m@.wf()
                &&& 1 <= m.width <= u32::MAX
                &&& 1 <= m.height <= u32::MAX
            },
        },
{
    let sym = crate::format::name_to_symbology(format_name);
    let name = crate::format::symbology_to_name(&sym);
    let engine_matrix = if matches!(sym, Symbology::QrCode) {
        engine::write_symbol(content, name.as_str(), width, width)
    } else {
        engine::write_symbol(content, name.as_str(), width, height)
    };
    match engine_matrix {
        None => None,
        Some(m) => Some(engine::matrix_from_engine(&m)),
    }
}

/// Encodes `content` into the raster bytes of the cropped symbol: an
/// 8-byte big-endian header holding the cropped dimensions, then one
/// 4-byte ARGB pixel per module.  Engine failure yields nothing; a matrix
/// without any set module is not a failure and rasterizes over its full
/// extent.
pub fn encode(content: &str, format_name: &str, width: i32, height: i32) -> (r: Option<Vec<u8>>)
    ensures
        match r {
            Option::None => encode_spec(content@, format_name@, width, height) is None,
            Option::Some(bytes) => encode_spec(content@, format_name@, width, height) == Some(
                bytes@,
            ),
        },
{
    match encode_matrix(content, format_name, width, height) {
        None => None,
        Some(m) => {
            let bounds = m.crop();
            proof {
                if m@.has_set_module() {
                    assert(box_is_tight(m@, bounds));
                }
                assert(bounds.min_x <= bounds.max_x < m@.width);
                assert(bounds.min_y <= bounds.max_y < m@.height);
            }
            let bytes = raster::rasterize(&m, &bounds);
            Some(bytes)
        },
    }
}

/// An unrecognized format name encodes identically to the canonical QR
/// code name: both map to the QR symbology, so the engine sees the same
/// call and the pipelines yield the same result.
pub proof fn lemma_unknown_name_encodes_as_qr(
    content: Seq<char>,
    format_name: Seq<char>,
    width: i32,
    height: i32,
)
    requires
        !crate::format::is_known_name(format_name),
    ensures
        encode_matrix_spec(content, format_name, width, height) == encode_matrix_spec(
            content,
            "QR_CODE"@,
            width,
            height,
        ),
        encode_spec(content, format_name, width, height) == encode_spec(
            content,
            "QR_CODE"@,
            width,
            height,
        ),
{
    assert(crate::format::symbology_for_name(format_name) == Symbology::QrCode);
    assert(crate::format::symbology_for_name("QR_CODE"@) == Symbology::QrCode);
}

/// For the canonical QR code name the engine is asked for a square
/// `width * width` target: the requested height plays no part.
pub proof fn lemma_qr_requests_square(content: Seq<char>, width: i32, height: i32)
    ensures
        encode_matrix_spec(content, "QR_CODE"@, width, height) == engine::encoding_of(
            content,
            "QR_CODE"@,
            width,
            width,
        ),
{
    assert(crate::format::symbology_for_name("QR_CODE"@) == Symbology::QrCode);
}

} // verus!
