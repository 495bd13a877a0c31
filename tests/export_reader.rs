use aheadlibex_rs::dll::{
    dll_exports_from_bytes, exports_from_image, ExportError, Forward, PeExport, PeImage,
};

fn export(name: Option<&str>, forward: Option<Forward>) -> PeExport {
    PeExport { name: name.map(|n| n.to_string()), forward }
}

#[test]
fn ordinals_are_biased_by_the_base() {
    let img = PeImage {
        is_64: true,
        export_table: Some((5, vec![0, 2])),
        exports: vec![export(Some("First"), None), export(None, None), export(Some(""), None)],
    };
    let d = exports_from_image(&img).unwrap();
    assert_eq!(d.arch, "x64");
    assert_eq!(d.exports.len(), 3);
    assert_eq!((d.exports[0].name.as_str(), d.exports[0].ordinal), ("First", 5));
    assert_eq!((d.exports[1].name.as_str(), d.exports[1].ordinal), ("#7", 7));
    // the ordinal table is shorter than the export list: the base alone
    assert_eq!((d.exports[2].name.as_str(), d.exports[2].ordinal), ("#5", 5));
}

#[test]
fn ordinals_saturate_and_clamp_to_sixteen_bits() {
    let img = PeImage {
        is_64: false,
        export_table: Some((u32::MAX - 3, vec![10])),
        exports: vec![export(None, None)],
    };
    let d = exports_from_image(&img).unwrap();
    assert_eq!(d.arch, "x86");
    assert_eq!(d.exports[0].ordinal, u16::MAX);
    assert_eq!(d.exports[0].name, "#65535");
}

#[test]
fn forwarders_are_rendered_by_name_and_by_ordinal() {
    let img = PeImage {
        is_64: true,
        export_table: Some((1, vec![0, 1])),
        exports: vec![
            export(Some("HeapAlloc"), Some(Forward::ByName("NTDLL".to_string(), "RtlAllocateHeap".to_string()))),
            export(Some("Recv"), Some(Forward::ByOrdinal("ws2_32".to_string(), 16))),
        ],
    };
    let d = exports_from_image(&img).unwrap();
    assert_eq!(d.exports[0].forwarder.as_deref(), Some("NTDLL!RtlAllocateHeap"));
    assert_eq!(d.exports[1].forwarder.as_deref(), Some("ws2_32!#16"));
    assert_eq!(d.exports[1].ordinal, 2);
}

#[test]
fn image_without_export_directory_fails() {
    let img = PeImage { is_64: true, export_table: None, exports: vec![] };
    assert!(matches!(exports_from_image(&img), Err(ExportError::NoExportTable)));
}

#[test]
fn bytes_that_are_no_pe_image_fail_to_parse() {
    match dll_exports_from_bytes(b"not a portable executable") {
        Err(ExportError::ParseFailed(msg)) => assert!(!msg.is_empty()),
        other => panic!("unexpected: {:?}", other),
    }
    assert!(matches!(dll_exports_from_bytes(&[]), Err(ExportError::ParseFailed(_))));
}
