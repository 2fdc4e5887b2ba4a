//! The format-name mapper: the two-way mapping between barcode symbologies
//! and the canonical uppercase names used at the boundary.

use vstd::prelude::*;

verus! {

/// A barcode symbology.  The thirteen named variants are the formats the
/// boundary maps to canonical uppercase names; any other format the
/// detection engine may report is carried through as `Other` with the
/// engine's own display string.
pub enum Symbology {
    QrCode,
    Code128,
    Code39,
    Code93,
    Ean13,
    Ean8,
    UpcA,
    UpcE,
    Itf,
    Codabar,
    Pdf417,
    Aztec,
    DataMatrix,
    Other(String),
}

impl Symbology {
    /// The boundary name of this symbology: the canonical uppercase name for
    /// the named variants, the carried display string for `Other`.
    pub open spec fn name_seq(self) -> Seq<char> {
        match self {
            Symbology::QrCode => "QR_CODE"@,
            Symbology::Code128 => "CODE_128"@,
            Symbology::Code39 => "CODE_39"@,
            Symbology::Code93 => "CODE_93"@,
            Symbology::Ean13 => "EAN_13"@,
            Symbology::Ean8 => "EAN_8"@,
            Symbology::UpcA => "UPC_A"@,
            Symbology::UpcE => "UPC_E"@,
            Symbology::Itf => "ITF"@,
            Symbology::Codabar => "CODABAR"@,
            Symbology::Pdf417 => "PDF_417"@,
            Symbology::Aztec => "AZTEC"@,
            Symbology::DataMatrix => "DATA_MATRIX"@,
            Symbology::Other(s) => s@,
        }
    }
}

/// Whether `n` is one of the thirteen canonical names recognized on the
/// encode side.
pub open spec fn is_known_name(n: Seq<char>) -> bool {
    ||| n == "QR_CODE"@
    ||| n == "CODE_128"@
    ||| n == "CODE_39"@
    ||| n == "CODE_93"@
    ||| n == "EAN_13"@
    ||| n == "EAN_8"@
    ||| n == "UPC_A"@
    ||| n == "UPC_E"@
    ||| n == "ITF"@
    ||| n == "CODABAR"@
    ||| n == "PDF_417"@
    ||| n == "AZTEC"@
    ||| n == "DATA_MATRIX"@
}

/// The symbology a canonical name denotes; any unrecognized name falls back
/// to QR code.
pub open spec fn symbology_for_name(n: Seq<char>) -> Symbology {
    if n == "QR_CODE"@ {
        Symbology::QrCode
    } else if n == "CODE_128"@ {
        Symbology::Code128
    } else if n == "CODE_39"@ {
        Symbology::Code39
    } else if n == "CODE_93"@ {
        Symbology::Code93
    } else if n == "EAN_13"@ {
        Symbology::Ean13
    } else if n == "EAN_8"@ {
        Symbology::Ean8
    } else if n == "UPC_A"@ {
        Symbology::UpcA
    } else if n == "UPC_E"@ {
        Symbology::UpcE
    } else if n == "ITF"@ {
        Symbology::Itf
    } else if n == "CODABAR"@ {
        Symbology::Codabar
    } else if n == "PDF_417"@ {
        Symbology::Pdf417
    } else if n == "AZTEC"@ {
        Symbology::Aztec
    } else if n == "DATA_MATRIX"@ {
        Symbology::DataMatrix
    } else {
        Symbology::QrCode
    }
}

/// Whether `d` is the detection engine's display string for one of the
/// thirteen symbologies with a canonical name.
pub open spec fn is_known_display(d: Seq<char>) -> bool {
    ||| d == "qrcode"@
    ||| d == "code 128"@
    ||| d == "code 39"@
    ||| d == "code 93"@
    ||| d == "ean 13"@
    ||| d == "ean 8"@
    ||| d == "upc a"@
    ||| d == "upc e"@
    ||| d == "itf"@
    ||| d == "codabar"@
    ||| d == "pdf 417"@
    ||| d == "aztec"@
    ||| d == "datamatrix"@
}

/// The symbology behind a known engine display string.  The fallback arm is
/// never reached: callers handle unknown display strings as `Other`.
pub open spec fn symbology_for_display(d: Seq<char>) -> Symbology {
    if d == "qrcode"@ {
        Symbology::QrCode
    } else if d == "code 128"@ {
        Symbology::Code128
    } else if d == "code 39"@ {
        Symbology::Code39
    } else if d == "code 93"@ {
        Symbology::Code93
    } else if d == "ean 13"@ {
        Symbology::Ean13
    } else if d == "ean 8"@ {
        Symbology::Ean8
    } else if d == "upc a"@ {
        Symbology::UpcA
    } else if d == "upc e"@ {
        Symbology::UpcE
    } else if d == "itf"@ {
        Symbology::Itf
    } else if d == "codabar"@ {
        Symbology::Codabar
    } else if d == "pdf 417"@ {
        Symbology::Pdf417
    } else if d == "aztec"@ {
        Symbology::Aztec
    } else {
        Symbology::DataMatrix
    }
}

/// The boundary name a decoded symbol ends up with, given the engine's
/// display string for its format: the canonical uppercase name where the
/// display string is recognized, the display string itself otherwise.
pub open spec fn display_canonical(d: Seq<char>) -> Seq<char> {
    if is_known_display(d) {
        symbology_for_display(d).name_seq()
    } else {
        d
    }
}

/// String equality, stated over the views.
fn str_eq(a: &str, b: &str) -> (r: bool)
    ensures
        r == (a@ == b@),
{
    let aa: String = a.to_owned();
    let bb: String = b.to_owned();
    aa == bb
}

/// Maps a boundary format name to its symbology; unrecognized names fall
/// back to QR code, so this never fails.
pub fn name_to_symbology(name: &str) -> (r: Symbology)
    ensures
        r == symbology_for_name(name@),
{
    if str_eq(name, "QR_CODE") {
        Symbology::QrCode
    } else if str_eq(name, "CODE_128") {
        Symbology::Code128
    } else if str_eq(name, "CODE_39") {
        Symbology::Code39
    } else if str_eq(name, "CODE_93") {
        Symbology::Code93
    } else if str_eq(name, "EAN_13") {
        Symbology::Ean13
    } else if str_eq(name, "EAN_8") {
        Symbology::Ean8
    } else if str_eq(name, "UPC_A") {
        Symbology::UpcA
    } else if str_eq(name, "UPC_E") {
        Symbology::UpcE
    } else if str_eq(name, "ITF") {
        Symbology::Itf
    } else if str_eq(name, "CODABAR") {
        Symbology::Codabar
    } else if str_eq(name, "PDF_417") {
        Symbology::Pdf417
    } else if str_eq(name, "AZTEC") {
        Symbology::Aztec
    } else if str_eq(name, "DATA_MATRIX") {
        Symbology::DataMatrix
    } else {
        Symbology::QrCode
    }
}

/// Maps a symbology to its boundary name.
pub fn symbology_to_name(s: &Symbology) -> (r: String)
    ensures
        r@ == s.name_seq(),
{
    match s {
        Symbology::QrCode => "QR_CODE".to_owned(),
        Symbology::Code128 => "CODE_128".to_owned(),
        Symbology::Code39 => "CODE_39".to_owned(),
        Symbology::Code93 => "CODE_93".to_owned(),
        Symbology::Ean13 => "EAN_13".to_owned(),
        Symbology::Ean8 => "EAN_8".to_owned(),
        Symbology::UpcA => "UPC_A".to_owned(),
        Symbology::UpcE => "UPC_E".to_owned(),
        Symbology::Itf => "ITF".to_owned(),
        Symbology::Codabar => "CODABAR".to_owned(),
        Symbology::Pdf417 => "PDF_417".to_owned(),
        Symbology::Aztec => "AZTEC".to_owned(),
        Symbology::DataMatrix => "DATA_MATRIX".to_owned(),
        Symbology::Other(s) => s.clone(),
    }
}

/// Maps the detection engine's display string for a format to the
/// symbology it stands for; an unrecognized display string is carried
/// through as `Other`.
pub fn symbology_from_display(d: &str) -> (r: Symbology)
    ensures
        is_known_display(d@) ==> r == symbology_for_display(d@),
        !is_known_display(d@) ==> (r matches Symbology::Other(s) && s@ == d@),
        r.name_seq() == display_canonical(d@),
{
    if str_eq(d, "qrcode") {
        Symbology::QrCode
    } else if str_eq(d, "code 128") {
        Symbology::Code128
    } else if str_eq(d, "code 39") {
        Symbology::Code39
    } else if str_eq(d, "code 93") {
        Symbology::Code93
    } else if str_eq(d, "ean 13") {
        Symbology::Ean13
    } else if str_eq(d, "ean 8") {
        Symbology::Ean8
    } else if str_eq(d, "upc a") {
        Symbology::UpcA
    } else if str_eq(d, "upc e") {
        Symbology::UpcE
    } else if str_eq(d, "itf") {
        Symbology::Itf
    } else if str_eq(d, "codabar") {
        Symbology::Codabar
    } else if str_eq(d, "pdf 417") {
        Symbology::Pdf417
    } else if str_eq(d, "aztec") {
        Symbology::Aztec
    } else if str_eq(d, "datamatrix") {
        Symbology::DataMatrix
    } else {
        Symbology::Other(d.to_owned())
    }
}

} // verus!
