use rxing_multi::barcode_format::BarcodeFormat;

const ALL: [BarcodeFormat; 17] = [
    BarcodeFormat::AZTEC,
    BarcodeFormat::CODABAR,
    BarcodeFormat::CODE_39,
    BarcodeFormat::CODE_93,
    BarcodeFormat::CODE_128,
    BarcodeFormat::DATA_MATRIX,
    BarcodeFormat::EAN_8,
    BarcodeFormat::EAN_13,
    BarcodeFormat::ITF,
    BarcodeFormat::MAXICODE,
    BarcodeFormat::PDF_417,
    BarcodeFormat::QR_CODE,
    BarcodeFormat::RSS_14,
    BarcodeFormat::RSS_EXPANDED,
    BarcodeFormat::UPC_A,
    BarcodeFormat::UPC_E,
    BarcodeFormat::UPC_EAN_EXTENSION,
];

#[test]
fn names_of_the_formats() {
    let names: Vec<&str> = ALL.iter().map(|f| f.name()).collect();
    assert_eq!(
        names,
        vec![
            "aztec",
            "codabar",
            "code 39",
            "code 93",
            "code 128",
            "datamatrix",
            "ean 8",
            "ean 13",
            "itf",
            "maxicode",
            "pdf 417",
            "qrcode",
            "rss 14",
            "rss expanded",
            "upc a",
            "upc e",
            "upc/ean extension",
        ]
    );
}

#[test]
fn every_format_is_read_back_from_its_name() {
    for format in ALL {
        assert_eq!(BarcodeFormat::from_lowercase_name(format.name()), format);
        assert_eq!(BarcodeFormat::from(format.name()), format);
    }
}

#[test]
fn from_does_not_look_at_the_case_of_letters() {
    assert_eq!(BarcodeFormat::from("AZTEC"), BarcodeFormat::AZTEC);
    assert_eq!(BarcodeFormat::from("Data Matrix"), BarcodeFormat::DATA_MATRIX);
    assert_eq!(BarcodeFormat::from("UPC_EAN_EXTENSION"), BarcodeFormat::UPC_EAN_EXTENSION);
    assert_eq!(BarcodeFormat::from("Interleaved 2 of 5"), BarcodeFormat::ITF);
    assert_eq!(BarcodeFormat::from("GS1 DataBar"), BarcodeFormat::RSS_14);
}

#[test]
fn from_lowercase_name_looks_at_the_case_of_letters() {
    assert_eq!(BarcodeFormat::from_lowercase_name("aztec"), BarcodeFormat::AZTEC);
    assert_eq!(BarcodeFormat::from_lowercase_name("AZTEC"), BarcodeFormat::QR_CODE);
    assert_eq!(BarcodeFormat::from_lowercase_name("Aztec"), BarcodeFormat::QR_CODE);
}

#[test]
fn every_name_of_a_format_is_read() {
    let names = [
        (BarcodeFormat::AZTEC, vec!["aztec"]),
        (BarcodeFormat::CODABAR, vec!["codabar"]),
        (BarcodeFormat::CODE_39, vec!["code 39", "code_39", "code39"]),
        (BarcodeFormat::CODE_93, vec!["code 93", "code_93", "code93"]),
        (BarcodeFormat::CODE_128, vec!["code 128", "code_129", "code128"]),
        (BarcodeFormat::DATA_MATRIX, vec!["datamatrix", "data matrix", "data_matrix"]),
        (BarcodeFormat::EAN_8, vec!["ean 8", "ean_8", "ean8"]),
        (BarcodeFormat::EAN_13, vec!["ean 13", "ean_13", "ean13"]),
        (
            BarcodeFormat::ITF,
            vec!["itf", "itf_code", "itf14", "itf 14", "itf_14", "interleaved 2 of 5"],
        ),
        (BarcodeFormat::MAXICODE, vec!["maxicode", "maxi_code"]),
        (BarcodeFormat::PDF_417, vec!["pdf 417", "pdf_417", "pdf417"]),
        (BarcodeFormat::QR_CODE, vec!["qrcode", "qr_code", "qr code"]),
        (BarcodeFormat::RSS_14, vec!["rss 14", "rss_14", "rss14", "gs1 databar"]),
        (BarcodeFormat::RSS_EXPANDED, vec!["rss expanded", "expanded rss", "rss_expanded"]),
        (BarcodeFormat::UPC_A, vec!["upc a", "upc_a", "upca"]),
        (BarcodeFormat::UPC_E, vec!["upc e", "upc_e", "upce"]),
        (
            BarcodeFormat::UPC_EAN_EXTENSION,
            vec![
                "upc ean extension",
                "upc extension",
                "ean extension",
                "upc/ean extension",
                "upc_ean_extension",
            ],
        ),
    ];
    for (format, list) in names {
        for name in list {
            assert_eq!(BarcodeFormat::from_lowercase_name(name), format);
            assert_eq!(BarcodeFormat::from(name), format);
            assert_eq!(BarcodeFormat::from(name.to_uppercase().as_str()), format);
        }
    }
}

#[test]
fn a_name_of_no_format_gives_qr_code() {
    for name in ["", "telepen", "code_128", "aztec ", " aztec", "qr", "ean"] {
        assert_eq!(BarcodeFormat::from(name), BarcodeFormat::QR_CODE);
        assert_eq!(BarcodeFormat::from_lowercase_name(name), BarcodeFormat::QR_CODE);
    }
}
