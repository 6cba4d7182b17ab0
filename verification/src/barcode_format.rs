//! The symbologies that a detection can be tagged with.

use vstd::prelude::*;
use vstd::std_specs::convert::FromSpecImpl;

verus! {

/// The barcode formats known to this library, in alphabetical order.
#[allow(non_camel_case_types)]
#[derive(Clone, Copy, Debug, PartialEq, Eq, Hash, Structural)]
pub enum BarcodeFormat {
    /// Aztec 2D barcode format.
    AZTEC,
    /// CODABAR 1D format.
    CODABAR,
    /// Code 39 1D format.
    CODE_39,
    /// Code 93 1D format.
    CODE_93,
    /// Code 128 1D format.
    CODE_128,
    /// Data Matrix 2D barcode format.
    DATA_MATRIX,
    /// EAN-8 1D format.
    EAN_8,
    /// EAN-13 1D format.
    EAN_13,
    /// ITF (Interleaved Two of Five) 1D format.
    ITF,
    /// MaxiCode 2D barcode format.
    MAXICODE,
    /// PDF417 format.
    PDF_417,
    /// QR Code 2D barcode format.
    QR_CODE,
    /// RSS 14.
    RSS_14,
    /// RSS EXPANDED.
    RSS_EXPANDED,
    /// UPC-A 1D format.
    UPC_A,
    /// UPC-E 1D format.
    UPC_E,
    /// UPC/EAN extension format. Not a stand-alone format.
    UPC_EAN_EXTENSION,
}

/// The text that `str::to_lowercase` of the standard library returns for
/// the text `text`: its lowercase equivalent by the rules of Unicode.
pub uninterp spec fn lowercase_of(text: Seq<char>) -> Seq<char>;

/// Calls `str::to_lowercase` of the standard library. The result is named,
/// not described: it is the lowercase equivalent of `text`, which depends on
/// nothing but `text`.
#[verifier::external_body]
fn lowercase(text: &str) -> (lower: String)
    ensures
        lower@ == lowercase_of(text@),
{
    text.to_lowercase()
}

/// Compares two string slices with `==` of the standard library, which holds
/// if and only if they consist of the same characters.
#[verifier::external_body]
fn same_text(a: &str, b: &str) -> (same: bool)
    ensures
        same == (a@ == b@),
{
    a == b
}

impl BarcodeFormat {
    /// The name of the format in lower case.
    pub open spec fn spec_name(self) -> Seq<char> {
        match self {
            BarcodeFormat::AZTEC => "aztec"@,
            BarcodeFormat::CODABAR => "codabar"@,
            BarcodeFormat::CODE_39 => "code 39"@,
            BarcodeFormat::CODE_93 => "code 93"@,
            BarcodeFormat::CODE_128 => "code 128"@,
            BarcodeFormat::DATA_MATRIX => "datamatrix"@,
            BarcodeFormat::EAN_8 => "ean 8"@,
            BarcodeFormat::EAN_13 => "ean 13"@,
            BarcodeFormat::ITF => "itf"@,
            BarcodeFormat::MAXICODE => "maxicode"@,
            BarcodeFormat::PDF_417 => "pdf 417"@,
            BarcodeFormat::QR_CODE => "qrcode"@,
            BarcodeFormat::RSS_14 => "rss 14"@,
            BarcodeFormat::RSS_EXPANDED => "rss expanded"@,
            BarcodeFormat::UPC_A => "upc a"@,
            BarcodeFormat::UPC_E => "upc e"@,
            BarcodeFormat::UPC_EAN_EXTENSION => "upc/ean extension"@,
        }
    }

    /// The format that the lower-case name `name` stands for. Each format
    /// has a few names; a name that stands for none gives `QR_CODE`.
    pub open spec fn spec_from_lowercase_name(name: Seq<char>) -> BarcodeFormat {
        if name == "aztec"@ {
            BarcodeFormat::AZTEC
        } else if name == "codabar"@ {
            BarcodeFormat::CODABAR
        } else if name == "code 39"@ || name == "code_39"@ || name == "code39"@ {
            BarcodeFormat::CODE_39
        } else if name == "code 93"@ || name == "code_93"@ || name == "code93"@ {
            BarcodeFormat::CODE_93
        } else if name == "code 128"@ || name == "code_129"@ || name == "code128"@ {
            BarcodeFormat::CODE_128
        } else if name == "datamatrix"@ || name == "data matrix"@ || name == "data_matrix"@ {
            BarcodeFormat::DATA_MATRIX
        } else if name == "ean 8"@ || name == "ean_8"@ || name == "ean8"@ {
            BarcodeFormat::EAN_8
        } else if name == "ean 13"@ || name == "ean_13"@ || name == "ean13"@ {
            BarcodeFormat::EAN_13
        } else if name == "itf"@ || name == "itf_code"@ || name == "itf14"@ || name == "itf 14"@
            || name == "itf_14"@ || name == "interleaved 2 of 5"@ {
            BarcodeFormat::ITF
        } else if name == "maxicode"@ || name == "maxi_code"@ {
            BarcodeFormat::MAXICODE
        } else if name == "pdf 417"@ || name == "pdf_417"@ || name == "pdf417"@ {
            BarcodeFormat::PDF_417
        } else if name == "qrcode"@ || name == "qr_code"@ || name == "qr code"@ {
            BarcodeFormat::QR_CODE
        } else if name == "rss 14"@ || name == "rss_14"@ || name == "rss14"@
            || name == "gs1 databar"@ {
            BarcodeFormat::RSS_14
        } else if name == "rss expanded"@ || name == "expanded rss"@ || name == "rss_expanded"@ {
            BarcodeFormat::RSS_EXPANDED
        } else if name == "upc a"@ || name == "upc_a"@ || name == "upca"@ {
            BarcodeFormat::UPC_A
        } else if name == "upc e"@ || name == "upc_e"@ || name == "upce"@ {
            BarcodeFormat::UPC_E
        } else if name == "upc ean extension"@ || name == "upc extension"@
            || name == "ean extension"@ || name == "upc/ean extension"@
            || name == "upc_ean_extension"@ {
            BarcodeFormat::UPC_EAN_EXTENSION
        } else {
            BarcodeFormat::QR_CODE
        }
    }

    /// The name of the format in lower case, as it is shown to a reader.
    pub fn name(&self) -> (name: &'static str)
        ensures
            name@ == self.spec_name(),
    {
        match self {
            BarcodeFormat::AZTEC => "aztec",
            BarcodeFormat::CODABAR => "codabar",
            BarcodeFormat::CODE_39 => "code 39",
            BarcodeFormat::CODE_93 => "code 93",
            BarcodeFormat::CODE_128 => "code 128",
            BarcodeFormat::DATA_MATRIX => "datamatrix",
            BarcodeFormat::EAN_8 => "ean 8",
            BarcodeFormat::EAN_13 => "ean 13",
            BarcodeFormat::ITF => "itf",
            BarcodeFormat::MAXICODE => "maxicode",
            BarcodeFormat::PDF_417 => "pdf 417",
            BarcodeFormat::QR_CODE => "qrcode",
            BarcodeFormat::RSS_14 => "rss 14",
            BarcodeFormat::RSS_EXPANDED => "rss expanded",
            BarcodeFormat::UPC_A => "upc a",
            BarcodeFormat::UPC_E => "upc e",
            BarcodeFormat::UPC_EAN_EXTENSION => "upc/ean extension",
        }
    }

    /// The format that the lower-case name `name` stands for, and `QR_CODE`
    /// where it stands for none.
    pub fn from_lowercase_name(name: &str) -> (format: BarcodeFormat)
        ensures
            format == BarcodeFormat::spec_from_lowercase_name(name@),
    {
        if same_text(name, "aztec") {
            BarcodeFormat::AZTEC
        } else if same_text(name, "codabar") {
            BarcodeFormat::CODABAR
        } else if same_text(name, "code 39") || same_text(name, "code_39")
            || same_text(name, "code39") {
            BarcodeFormat::CODE_39
        } else if same_text(name, "code 93") || same_text(name, "code_93")
            || same_text(name, "code93") {
            BarcodeFormat::CODE_93
        } else if same_text(name, "code 128") || same_text(name, "code_129")
            || same_text(name, "code128") {
            BarcodeFormat::CODE_128
        } else if same_text(name, "datamatrix") || same_text(name, "data matrix")
            || same_text(name, "data_matrix") {
            BarcodeFormat::DATA_MATRIX
        } else if same_text(name, "ean 8") || same_text(name, "ean_8") || same_text(name, "ean8") {
            BarcodeFormat::EAN_8
        } else if same_text(name, "ean 13") || same_text(name, "ean_13")
            || same_text(name, "ean13") {
            BarcodeFormat::EAN_13
        } else if same_text(name, "itf") || same_text(name, "itf_code")
            || same_text(name, "itf14") || same_text(name, "itf 14")
            || same_text(name, "itf_14") || same_text(name, "interleaved 2 of 5") {
            BarcodeFormat::ITF
        } else if same_text(name, "maxicode") || same_text(name, "maxi_code") {
            BarcodeFormat::MAXICODE
        } else if same_text(name, "pdf 417") || same_text(name, "pdf_417")
            || same_text(name, "pdf417") {
            BarcodeFormat::PDF_417
        } else if same_text(name, "qrcode") || same_text(name, "qr_code")
            || same_text(name, "qr code") {
            BarcodeFormat::QR_CODE
        } else if same_text(name, "rss 14") || same_text(name, "rss_14")
            || same_text(name, "rss14") || same_text(name, "gs1 databar") {
            BarcodeFormat::RSS_14
        } else if same_text(name, "rss expanded") || same_text(name, "expanded rss")
            || same_text(name, "rss_expanded") {
            BarcodeFormat::RSS_EXPANDED
        } else if same_text(name, "upc a") || same_text(name, "upc_a") || same_text(name, "upca") {
            BarcodeFormat::UPC_A
        } else if same_text(name, "upc e") || same_text(name, "upc_e") || same_text(name, "upce") {
            BarcodeFormat::UPC_E
        } else if same_text(name, "upc ean extension") || same_text(name, "upc extension")
            || same_text(name, "ean extension") || same_text(name, "upc/ean extension")
            || same_text(name, "upc_ean_extension") {
            BarcodeFormat::UPC_EAN_EXTENSION
        } else {
            BarcodeFormat::QR_CODE
        }
    }
}

impl FromSpecImpl<&str> for BarcodeFormat {
    open spec fn obeys_from_spec() -> bool {
        true
    }

    open spec fn from_spec(value: &str) -> BarcodeFormat {
        BarcodeFormat::spec_from_lowercase_name(lowercase_of(value@))
    }
}

/// The format that a name stands for, whatever the case of its letters;
/// `QR_CODE` where the name stands for none.
impl From<&str> for BarcodeFormat {
    fn from(value: &str) -> (format: BarcodeFormat) {
        let lower = lowercase(value);
        BarcodeFormat::from_lowercase_name(lower.as_str())
    }
}

/// Every format is read back from its own name.
pub proof fn lemma_name_is_read_back(format: BarcodeFormat)
    ensures
        BarcodeFormat::spec_from_lowercase_name(format.spec_name()) == format,
{
    reveal_strlit("aztec");
    reveal_strlit("codabar");
    reveal_strlit("code 39");
    reveal_strlit("code_39");
    reveal_strlit("code39");
    reveal_strlit("code 93");
    reveal_strlit("code_93");
    reveal_strlit("code93");
    reveal_strlit("code 128");
    reveal_strlit("code_129");
    reveal_strlit("code128");
    reveal_strlit("datamatrix");
    reveal_strlit("data matrix");
    reveal_strlit("data_matrix");
    reveal_strlit("ean 8");
    reveal_strlit("ean_8");
    reveal_strlit("ean8");
    reveal_strlit("ean 13");
    reveal_strlit("ean_13");
    reveal_strlit("ean13");
    reveal_strlit("itf");
    reveal_strlit("itf_code");
    reveal_strlit("itf14");
    reveal_strlit("itf 14");
    reveal_strlit("itf_14");
    reveal_strlit("interleaved 2 of 5");
    reveal_strlit("maxicode");
    reveal_strlit("maxi_code");
    reveal_strlit("pdf 417");
    reveal_strlit("pdf_417");
    reveal_strlit("pdf417");
    reveal_strlit("qrcode");
    reveal_strlit("qr_code");
    reveal_strlit("qr code");
    reveal_strlit("rss 14");
    reveal_strlit("rss_14");
    reveal_strlit("rss14");
    reveal_strlit("gs1 databar");
    reveal_strlit("rss expanded");
    reveal_strlit("expanded rss");
    reveal_strlit("rss_expanded");
    reveal_strlit("upc a");
    reveal_strlit("upc_a");
    reveal_strlit("upca");
    reveal_strlit("upc e");
    reveal_strlit("upc_e");
    reveal_strlit("upce");
    reveal_strlit("upc ean extension");
    reveal_strlit("upc extension");
    reveal_strlit("ean extension");
    reveal_strlit("upc/ean extension");
    reveal_strlit("upc_ean_extension");
    // The length of each name, and a letter wherever two names of one length differ.
    assert("aztec"@.len() == 5 && "aztec"@[0] == 'a');
    assert("codabar"@.len() == 7 && "codabar"@[0] == 'c' && "codabar"@[3] == 'a');
    assert("code 39"@.len() == 7
        && "code 39"@[0] == 'c'
        && "code 39"@[3] == 'e'
        && "code 39"@[5] == '3');
    assert("code_39"@.len() == 7 && "code_39"@[0] == 'c' && "code_39"@[4] == '_');
    assert("code39"@.len() == 6 && "code39"@[0] == 'c');
    assert("code 93"@.len() == 7
        && "code 93"@[0] == 'c'
        && "code 93"@[3] == 'e'
        && "code 93"@[4] == ' '
        && "code 93"@[5] == '9');
    assert("code_93"@.len() == 7 && "code_93"@[0] == 'c');
    assert("code93"@.len() == 6 && "code93"@[0] == 'c');
    assert("code 128"@.len() == 8 && "code 128"@[0] == 'c');
    assert("code_129"@.len() == 8 && "code_129"@[0] == 'c');
    assert("code128"@.len() == 7 && "code128"@[0] == 'c');
    assert("datamatrix"@.len() == 10);
    assert("data matrix"@.len() == 11);
    assert("data_matrix"@.len() == 11);
    assert("ean 8"@.len() == 5 && "ean 8"@[0] == 'e');
    assert("ean_8"@.len() == 5 && "ean_8"@[0] == 'e');
    assert("ean8"@.len() == 4);
    assert("ean 13"@.len() == 6 && "ean 13"@[0] == 'e');
    assert("ean_13"@.len() == 6 && "ean_13"@[0] == 'e');
    assert("ean13"@.len() == 5 && "ean13"@[0] == 'e');
    assert("itf"@.len() == 3);
    assert("itf_code"@.len() == 8 && "itf_code"@[0] == 'i');
    assert("itf14"@.len() == 5 && "itf14"@[0] == 'i');
    assert("itf 14"@.len() == 6 && "itf 14"@[0] == 'i');
    assert("itf_14"@.len() == 6 && "itf_14"@[0] == 'i');
    assert("interleaved 2 of 5"@.len() == 18);
    assert("maxicode"@.len() == 8 && "maxicode"@[0] == 'm');
    assert("maxi_code"@.len() == 9);
    assert("pdf 417"@.len() == 7 && "pdf 417"@[0] == 'p');
    assert("pdf_417"@.len() == 7);
    assert("pdf417"@.len() == 6 && "pdf417"@[0] == 'p');
    assert("qrcode"@.len() == 6 && "qrcode"@[0] == 'q');
    assert("qr_code"@.len() == 7);
    assert("qr code"@.len() == 7);
    assert("rss 14"@.len() == 6 && "rss 14"@[0] == 'r');
    assert("rss_14"@.len() == 6);
    assert("rss14"@.len() == 5 && "rss14"@[0] == 'r');
    assert("gs1 databar"@.len() == 11);
    assert("rss expanded"@.len() == 12);
    assert("expanded rss"@.len() == 12);
    assert("rss_expanded"@.len() == 12);
    assert("upc a"@.len() == 5 && "upc a"@[0] == 'u' && "upc a"@[4] == 'a');
    assert("upc_a"@.len() == 5 && "upc_a"@[3] == '_');
    assert("upca"@.len() == 4);
    assert("upc e"@.len() == 5 && "upc e"@[0] == 'u' && "upc e"@[3] == ' ' && "upc e"@[4] == 'e');
    assert("upc_e"@.len() == 5);
    assert("upce"@.len() == 4);
    assert("upc ean extension"@.len() == 17);
    assert("upc extension"@.len() == 13);
    assert("ean extension"@.len() == 13);
    assert("upc/ean extension"@.len() == 17);
    assert("upc_ean_extension"@.len() == 17);
}

} // verus!
