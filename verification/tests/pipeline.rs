use calmqr::codec::{build_hints, decode, encode, encode_matrix};
use calmqr::format::{name_to_symbology, symbology_from_display, symbology_to_name, Symbology};
use calmqr::matrix::{BoundingBox, SymbolMatrix};
use calmqr::raster::rasterize;

fn be32_at(bytes: &[u8], off: usize) -> u32 {
    ((bytes[off] as u32) << 24)
        | ((bytes[off + 1] as u32) << 16)
        | ((bytes[off + 2] as u32) << 8)
        | (bytes[off + 3] as u32)
}

/// Converts an ARGB raster back to a luminance plane (black module -> 0,
/// white module -> 255), with a white margin around it so the detector
/// sees a quiet zone again.
fn raster_to_luminance(raster: &[u8], margin: usize) -> (Vec<u8>, u32, u32) {
    let w = be32_at(raster, 0) as usize;
    let h = be32_at(raster, 4) as usize;
    assert_eq!(raster.len(), 8 + w * h * 4);
    let out_w = w + 2 * margin;
    let out_h = h + 2 * margin;
    let mut luma = vec![255u8; out_w * out_h];
    for y in 0..h {
        for x in 0..w {
            let px = 8 + (y * w + x) * 4;
            // the red channel is 0x00 for a black module, 0xFF for white
            luma[(y + margin) * out_w + (x + margin)] = raster[px + 1];
        }
    }
    (luma, out_w as u32, out_h as u32)
}

#[test]
fn round_trip_qr() {
    let content = "hello world";
    let raster = encode(content, "QR_CODE", 200, 200).expect("QR encoding should succeed");
    let (luma, w, h) = raster_to_luminance(&raster, 30);
    let found = decode(luma, w, h, true).expect("the encoded QR symbol should decode");
    assert_eq!(found.text, content);
    assert_eq!(found.format, "QR_CODE");
}

#[test]
fn round_trip_code_128() {
    let content = "RUST-123";
    let raster = encode(content, "CODE_128", 400, 120).expect("encoding should succeed");
    let (luma, w, h) = raster_to_luminance(&raster, 40);
    let found = decode(luma, w, h, true).expect("the encoded symbol should decode");
    assert_eq!(found.text, content);
    assert_eq!(found.format, "CODE_128");
}

#[test]
fn crop_tightness_scenario() {
    let mut cells = vec![false; 20];
    cells[1 * 5 + 1] = true;
    cells[2 * 5 + 3] = true;
    let m = SymbolMatrix { width: 5, height: 4, cells };
    let b = m.crop();
    assert_eq!(b, BoundingBox { min_x: 1, max_x: 3, min_y: 1, max_y: 2 });
}

#[test]
fn crop_single_module() {
    let mut cells = vec![false; 9];
    cells[4] = true;
    let m = SymbolMatrix { width: 3, height: 3, cells };
    let b = m.crop();
    assert_eq!(b, BoundingBox { min_x: 1, max_x: 1, min_y: 1, max_y: 1 });
}

#[test]
fn degenerate_matrix_full_extent_white() {
    let m = SymbolMatrix { width: 3, height: 2, cells: vec![false; 6] };
    let b = m.crop();
    assert_eq!(b, BoundingBox { min_x: 0, max_x: 2, min_y: 0, max_y: 1 });
    let raster = rasterize(&m, &b);
    assert_eq!(raster.len(), 8 + 3 * 2 * 4);
    assert_eq!(be32_at(&raster, 0), 3);
    assert_eq!(be32_at(&raster, 4), 2);
    for byte in &raster[8..] {
        assert_eq!(*byte, 0xFF);
    }
}

#[test]
fn format_fallback_unknown_name() {
    let with_unknown = encode("fallback", "NOT_A_FORMAT", 120, 60);
    let with_qr = encode("fallback", "QR_CODE", 120, 60);
    assert!(with_unknown.is_some());
    assert_eq!(with_unknown, with_qr);
}

#[test]
fn qr_squareness() {
    let m = encode_matrix("hello", "QR_CODE", 300, 100).expect("QR encoding should succeed");
    assert_eq!(m.width, 300);
    assert_eq!(m.height, 300);
}

#[test]
fn buffer_length_mismatch_is_not_found() {
    assert!(decode(vec![0u8; 5], 2, 2, false).is_none());
    assert!(decode(vec![0u8; 5], 2, 2, true).is_none());
}

#[test]
fn blank_plane_is_not_found() {
    assert!(decode(vec![255u8; 80 * 80], 80, 80, false).is_none());
}

#[test]
fn byte_layout_two_modules() {
    let m = SymbolMatrix { width: 2, height: 1, cells: vec![true, false] };
    let b = BoundingBox { min_x: 0, max_x: 1, min_y: 0, max_y: 0 };
    let raster = rasterize(&m, &b);
    assert_eq!(
        raster,
        vec![0, 0, 0, 2, 0, 0, 0, 1, 0xFF, 0, 0, 0, 0xFF, 0xFF, 0xFF, 0xFF],
    );
}

#[test]
fn mapper_round_trips_known_names() {
    let names = [
        "QR_CODE",
        "CODE_128",
        "CODE_39",
        "CODE_93",
        "EAN_13",
        "EAN_8",
        "UPC_A",
        "UPC_E",
        "ITF",
        "CODABAR",
        "PDF_417",
        "AZTEC",
        "DATA_MATRIX",
    ];
    for name in names {
        let sym = name_to_symbology(name);
        assert_eq!(symbology_to_name(&sym), name);
    }
}

#[test]
fn mapper_unknown_name_falls_back_to_qr() {
    let sym = name_to_symbology("SOMETHING_ELSE");
    assert!(matches!(sym, Symbology::QrCode));
    assert_eq!(symbology_to_name(&sym), "QR_CODE");
}

#[test]
fn display_mapping_known_and_unknown() {
    let qr = symbology_from_display("qrcode");
    assert!(matches!(qr, Symbology::QrCode));
    assert_eq!(symbology_to_name(&qr), "QR_CODE");
    let other = symbology_from_display("maxicode");
    assert!(matches!(other, Symbology::Other(_)));
    assert_eq!(symbology_to_name(&other), "maxicode");
}

#[test]
fn hints_carry_the_flag() {
    assert!(build_hints(true).try_harder);
    assert!(!build_hints(false).try_harder);
}

#[test]
fn encode_rejects_unencodable_content() {
    // EAN-13 takes digits only
    assert!(encode("letters", "EAN_13", 200, 100).is_none());
}

#[test]
fn round_trip_aztec() {
    let content = "aztec payload";
    let raster = encode(content, "AZTEC", 200, 200).expect("encoding should succeed");
    let (luma, w, h) = raster_to_luminance(&raster, 20);
    let found = decode(luma, w, h, true).expect("the encoded symbol should decode");
    assert_eq!(found.text, content);
    assert_eq!(found.format, "AZTEC");
}

#[test]
fn round_trip_ean_13() {
    let content = "5901234123457";
    let raster = encode(content, "EAN_13", 400, 120).expect("encoding should succeed");
    let (luma, w, h) = raster_to_luminance(&raster, 40);
    let found = decode(luma, w, h, true).expect("the encoded symbol should decode");
    assert_eq!(found.text, content);
    assert_eq!(found.format, "EAN_13");
}
