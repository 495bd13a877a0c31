use aheadlibex_rs::dll::{dll_exports_from_bytes, ExportEntry};
use aheadlibex_rs::templates::{OriginLoadMode, OriginLoadModeOwned};
use aheadlibex_rs::ui_events::{
    build_origin_load_mode, generate_cli, generate_project, is_x64_arch, parse_target, validate_paths,
    GenerateError, GeneratedFile, OriginModeChoice, OutputTarget,
};

fn put(buf: &mut [u8], at: usize, bytes: &[u8]) {
    buf[at..at + bytes.len()].copy_from_slice(bytes);
}

/// A minimal 64-bit DLL whose export directory names one export, `Bar`,
/// with ordinal base 1.
fn tiny_x64_dll() -> Vec<u8> {
    let mut b = vec![0u8; 0x400];
    put(&mut b, 0, b"MZ");
    put(&mut b, 0x3c, &0x40u32.to_le_bytes());
    put(&mut b, 0x40, b"PE\0\0");
    // COFF header
    put(&mut b, 0x44, &0x8664u16.to_le_bytes());
    put(&mut b, 0x46, &1u16.to_le_bytes());
    put(&mut b, 0x54, &240u16.to_le_bytes());
    put(&mut b, 0x56, &0x2022u16.to_le_bytes());
    // optional header (PE32+)
    let oh = 0x58;
    put(&mut b, oh, &0x20bu16.to_le_bytes());
    put(&mut b, oh + 20, &0x1000u32.to_le_bytes());
    put(&mut b, oh + 24, &0x1_8000_0000u64.to_le_bytes());
    put(&mut b, oh + 32, &0x1000u32.to_le_bytes());
    put(&mut b, oh + 36, &0x200u32.to_le_bytes());
    put(&mut b, oh + 40, &6u16.to_le_bytes());
    put(&mut b, oh + 48, &6u16.to_le_bytes());
    put(&mut b, oh + 56, &0x2000u32.to_le_bytes());
    put(&mut b, oh + 60, &0x200u32.to_le_bytes());
    put(&mut b, oh + 68, &2u16.to_le_bytes());
    put(&mut b, oh + 108, &16u32.to_le_bytes());
    // export data directory
    put(&mut b, oh + 112, &0x1000u32.to_le_bytes());
    put(&mut b, oh + 116, &0x100u32.to_le_bytes());
    // one section
    let sh = oh + 240;
    put(&mut b, sh, b".edata\0\0");
    put(&mut b, sh + 8, &0x200u32.to_le_bytes());
    put(&mut b, sh + 12, &0x1000u32.to_le_bytes());
    put(&mut b, sh + 16, &0x200u32.to_le_bytes());
    put(&mut b, sh + 20, &0x200u32.to_le_bytes());
    put(&mut b, sh + 36, &0x4000_0040u32.to_le_bytes());
    // export directory at RVA 0x1000 (file offset 0x200)
    let ed = 0x200;
    put(&mut b, ed + 12, &0x1050u32.to_le_bytes());
    put(&mut b, ed + 16, &1u32.to_le_bytes());
    put(&mut b, ed + 20, &2u32.to_le_bytes());
    put(&mut b, ed + 24, &1u32.to_le_bytes());
    put(&mut b, ed + 28, &0x1028u32.to_le_bytes());
    put(&mut b, ed + 32, &0x1030u32.to_le_bytes());
    put(&mut b, ed + 36, &0x1034u32.to_le_bytes());
    put(&mut b, ed + 0x28, &0x1100u32.to_le_bytes());
    put(&mut b, ed + 0x2c, &0x1104u32.to_le_bytes());
    put(&mut b, ed + 0x30, &0x1060u32.to_le_bytes());
    put(&mut b, ed + 0x34, &0u16.to_le_bytes());
    put(&mut b, ed + 0x50, b"B.dll\0");
    put(&mut b, ed + 0x60, b"Bar\0");
    b
}

fn names(files: &[GeneratedFile]) -> Vec<&str> {
    files.iter().map(|f| f.name.as_str()).collect()
}

fn bar() -> Vec<ExportEntry> {
    vec![ExportEntry { name: "Bar".to_string(), ordinal: 1, forwarder: None }]
}

#[test]
fn reader_recovers_the_exports_of_a_real_image() {
    let d = dll_exports_from_bytes(&tiny_x64_dll()).unwrap();
    assert_eq!(d.arch, "x64");
    assert_eq!(d.exports.len(), 1);
    assert_eq!(d.exports[0].name, "Bar");
    assert_eq!(d.exports[0].ordinal, 1);
    assert!(d.exports[0].forwarder.is_none());
}

#[test]
fn end_to_end_source_target_for_x64() {
    let mode = OriginLoadModeOwned::system_dir();
    let files = generate_cli(OutputTarget::Source, "B.dll", "B", &tiny_x64_dll(), mode.as_borrowed()).unwrap();
    assert_eq!(names(&files), vec!["B_x64.c", "B_x64_jump.asm", "B.def"]);
    assert_eq!(files[2].contents, "LIBRARY B\nEXPORTS\n    Bar=AheadLibEx_Bar @1\n");
    assert!(files[0].contents.contains("/EXPORT:\\\"Bar=AheadLibEx_Bar,@1\\\""));
    assert!(files[0].contents.contains("pfnAheadLibEx_Bar = get_address(\"Bar\");"));
    assert!(files[0].contents.contains("TEXT(\"B.dll\")"));
    assert!(files[1].contents.contains("AheadLibEx_Bar PROC\n    jmp pfnAheadLibEx_Bar\nAheadLibEx_Bar ENDP"));
}

#[test]
fn x64_selects_only_x64_artifacts() {
    let files = generate_project(OutputTarget::Source, "B.dll", "B", "X64", OriginLoadMode::SystemDir, &bar()).unwrap();
    assert_eq!(names(&files), vec!["B_x64.c", "B_x64_jump.asm", "B.def"]);
    assert!(files.iter().all(|f| !f.name.contains("x86")));
}

#[test]
fn x86_selects_only_x86_artifacts() {
    let files = generate_project(OutputTarget::Source, "B.dll", "B", "x86", OriginLoadMode::SystemDir, &bar()).unwrap();
    assert_eq!(names(&files), vec!["B_x86.c", "B_x86_jump.asm", "B_x86_jump.S", "B.def"]);
    assert!(files[0].contents.contains(
        "__declspec(naked) AHEADLIB_EXTERN void __cdecl AheadLibEx_Bar(void) { __asm { jmp dword ptr [pfnAheadLibEx_Bar] } }"
    ));
    assert!(files[2].contents.contains("_AheadLibEx_Bar:\n    jmp dword ptr [_pfnAheadLibEx_Bar]"));
}

#[test]
fn ide_and_cmake_targets_add_their_project_files() {
    let f = generate_project(OutputTarget::Vs2022, "B.dll", "B", "x64", OriginLoadMode::SystemDir, &bar()).unwrap();
    assert_eq!(
        names(&f),
        vec!["AheadlibEx_B.sln", "B.vcxproj", "B.vcxproj.filters", "B.vcxproj.user", "B_x64.c", "B_x64_jump.asm", "B.def"]
    );
    assert!(f[1].contents.contains("<PlatformToolset>v143</PlatformToolset>"));
    assert!(f[1].contents.contains("<MASM Include=\"B_x64_jump.asm\" />"));
    assert!(f[1].contents.contains("_DEBUG;B_EXPORTS;"));
    assert!(!f[1].contents.contains("{{"));
    let f = generate_project(OutputTarget::Vs2026, "B.dll", "B", "x86", OriginLoadMode::SystemDir, &bar()).unwrap();
    assert_eq!(
        names(&f),
        vec!["AheadlibEx_B.slnx", "B.vcxproj", "B.vcxproj.filters", "B.vcxproj.user", "B_x86.c", "B_x86_jump.asm", "B_x86_jump.S", "B.def"]
    );
    assert!(f[0].contents.contains("<Platform Name=\"x86\" />"));
    assert!(f[1].contents.contains("<PlatformToolset>v145</PlatformToolset>"));
    assert!(f[1].contents.contains("WIN32;NDEBUG;B_EXPORTS;"));
    let f = generate_project(OutputTarget::CMake, "B.dll", "B", "x64", OriginLoadMode::SystemDir, &bar()).unwrap();
    assert_eq!(names(&f), vec!["CMakeLists.txt", "B_x64.c", "B_x64_jump.asm", "B.def"]);
    assert!(f[0].contents.contains("project(B LANGUAGES C ASM_MASM)"));
    assert!(f[0].contents.contains("    B_x64.c\n    B_x64_jump.asm\n"));
}

#[test]
fn solution_identity_tokens_are_braced_and_fresh() {
    let f = generate_project(OutputTarget::Vs2022, "B.dll", "B", "x64", OriginLoadMode::SystemDir, &bar()).unwrap();
    let sln = &f[0].contents;
    let at = sln.find("SolutionGuid = ").unwrap() + "SolutionGuid = ".len();
    let guid = &sln[at..at + 38];
    assert!(guid.starts_with('{') && guid.ends_with('}'));
    assert!(!f[1].contents.contains(guid));
    assert!(f[2].contents.contains("<UniqueIdentifier>{"));
}

#[test]
fn empty_export_table_still_generates_scaffolding() {
    let files = generate_project(OutputTarget::Source, "B.dll", "B", "x86", OriginLoadMode::SystemDir, &[]).unwrap();
    assert_eq!(files.len(), 4);
    assert_eq!(files[3].contents, "LIBRARY B\nEXPORTS\n");
    assert!(!files[0].contents.contains("pfnAheadLibEx_"));
    assert!(!files[0].contents.contains("__declspec(naked)"));
    assert!(files[0].contents.contains("load_original_module(module)"));
    assert!(!files[1].contents.contains(" PROC"));
    assert!(!files[2].contents.contains(".globl"));
}

#[test]
fn empty_stem_is_an_invalid_dll_name() {
    let r = generate_project(OutputTarget::Source, ".dll", "", "x64", OriginLoadMode::SystemDir, &bar());
    assert!(matches!(r, Err(GenerateError::InvalidDllName)));
}

#[test]
fn unreadable_image_is_reported_before_anything_is_rendered() {
    let r = generate_cli(OutputTarget::Source, "B.dll", "B", b"MZ", OriginLoadMode::SystemDir);
    assert!(matches!(r, Err(GenerateError::Export(_))));
}

#[test]
fn architecture_names_are_read_without_case() {
    assert!(is_x64_arch("x64"));
    assert!(is_x64_arch("X64"));
    assert!(!is_x64_arch("x86"));
    assert!(!is_x64_arch("x644"));
}

#[test]
fn target_names_are_read_without_case() {
    assert_eq!(parse_target("source"), Some(OutputTarget::Source));
    assert_eq!(parse_target("SRC"), Some(OutputTarget::Source));
    assert_eq!(parse_target("c"), Some(OutputTarget::Source));
    assert_eq!(parse_target("VS2022"), Some(OutputTarget::Vs2022));
    assert_eq!(parse_target("2026"), Some(OutputTarget::Vs2026));
    assert_eq!(parse_target("CMake"), Some(OutputTarget::CMake));
    assert_eq!(parse_target("make"), None);
}

#[test]
fn origin_modes_are_built_from_the_choice() {
    assert!(matches!(
        build_origin_load_mode(OriginModeChoice::SystemDir, "", "", "Foo"),
        Ok(OriginLoadModeOwned::SystemDir)
    ));
    match build_origin_load_mode(OriginModeChoice::SameDir, "", "", "Foo") {
        Ok(OriginLoadModeOwned::SameDir { original_name }) => assert_eq!(original_name, "Foo_orig.dll"),
        other => panic!("unexpected: {:?}", other),
    }
    match build_origin_load_mode(OriginModeChoice::SameDir, "real.dll", "", "Foo") {
        Ok(OriginLoadModeOwned::SameDir { original_name }) => assert_eq!(original_name, "real.dll"),
        other => panic!("unexpected: {:?}", other),
    }
    assert!(matches!(
        build_origin_load_mode(OriginModeChoice::CustomPath, "", "", "Foo"),
        Err(GenerateError::MissingCustomPath)
    ));
    match build_origin_load_mode(OriginModeChoice::CustomPath, "", r"D:\x.dll", "Foo") {
        Ok(OriginLoadModeOwned::CustomPath { path }) => assert_eq!(path, r"D:\x.dll"),
        other => panic!("unexpected: {:?}", other),
    }
}

#[test]
fn blank_origin_text_counts_as_missing() {
    assert!(matches!(
        build_origin_load_mode(OriginModeChoice::CustomPath, "", " \t", "Foo"),
        Err(GenerateError::MissingCustomPath)
    ));
    match build_origin_load_mode(OriginModeChoice::SameDir, "  ", "", "Foo") {
        Ok(OriginLoadModeOwned::SameDir { original_name }) => assert_eq!(original_name, "Foo_orig.dll"),
        other => panic!("unexpected: {:?}", other),
    }
    match build_origin_load_mode(OriginModeChoice::SameDir, " real.dll\n", "", "Foo") {
        Ok(OriginLoadModeOwned::SameDir { original_name }) => assert_eq!(original_name, "real.dll"),
        other => panic!("unexpected: {:?}", other),
    }
    match build_origin_load_mode(OriginModeChoice::CustomPath, "", "  D:\\x.dll ", "Foo") {
        Ok(OriginLoadModeOwned::CustomPath { path }) => assert_eq!(path, "D:\\x.dll"),
        other => panic!("unexpected: {:?}", other),
    }
}

#[test]
fn blank_paths_are_missing_and_kept_paths_are_trimmed() {
    assert!(matches!(validate_paths("", "out"), Err(GenerateError::MissingDllPath)));
    assert!(matches!(validate_paths(" \u{3000}", "out"), Err(GenerateError::MissingDllPath)));
    assert!(matches!(validate_paths("a.dll", " "), Err(GenerateError::MissingOutputDir)));
    match validate_paths("  a.dll ", "\tout\n") {
        Ok((dll, dir)) => {
            assert_eq!(dll, "a.dll");
            assert_eq!(dir, "out");
        }
        other => panic!("unexpected: {:?}", other),
    }
}
