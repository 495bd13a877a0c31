//! The generation orchestrator: which files a target needs for an
//! architecture, their names, and their contents.

use crate::dll::{dll_exports_from_bytes, export_outcome, ExportEntry, ExportError};
use crate::prepare::entry_views;
use crate::project_files::{
    cmake_pairs, filters_pairs, render_cmake_lists, render_filters, render_slnx_2026,
    render_solution, render_user, render_vcxproj, render_vcxproj_2026, slnx_pairs,
    solution_pairs, vcxproj_pairs, CMAKE_TEMPLATE, FILTERS_TEMPLATE, SLNX_TEMPLATE,
    SOLUTION_TEMPLATE, USER_TEMPLATE, VCXPROJ_TEMPLATE, VS2022_TOOLSET, VS2026_TOOLSET,
};
use crate::fill::filled;
use crate::templates::{
    c_source, def_source, gas_source, masm_source, render_asm_x64, render_asm_x86,
    render_asm_x86_gas, render_c, render_c_x64, render_def, ContextView, GuidsView,
    OriginLoadMode, OriginLoadModeOwned, VsGuids, VsTemplateContext,
};
use crate::text::{ascii_upper, to_ascii_upper, trim, trimmed};
use vstd::prelude::*;
use vstd::string::*;

verus! {

/// What a generation request produces.
#[derive(Clone, Copy, Debug, PartialEq, Eq, Structural)]
pub enum OutputTarget {
    /// The source files alone.
    Source,
    /// A Visual Studio 2022 solution and project around the sources.
    Vs2022,
    /// A Visual Studio 2026 solution and project around the sources.
    Vs2026,
    /// A CMake list file around the sources.
    CMake,
}

/// How the user chose to locate the original library.
#[derive(Clone, Copy, Debug, PartialEq, Eq, Structural)]
pub enum OriginModeChoice {
    SystemDir,
    SameDir,
    CustomPath,
}

/// Why a generation request failed.
#[derive(Debug, Clone)]
pub enum GenerateError {
    MissingDllPath,
    MissingOutputDir,
    DllNotFound(String),
    InvalidDllName,
    MissingCustomPath,
    Export(ExportError),
    Io(String),
}

/// One file of the generated project.
#[derive(Debug, Clone)]
pub struct GeneratedFile {
    pub name: String,
    pub contents: String,
}

pub struct GeneratedFileView {
    pub name: Seq<char>,
    pub contents: Seq<char>,
}

impl View for GeneratedFile {
    type V = GeneratedFileView;

    open spec fn view(&self) -> GeneratedFileView {
        GeneratedFileView { name: self.name@, contents: self.contents@ }
    }
}

pub open spec fn file_views(fs: Seq<GeneratedFile>) -> Seq<GeneratedFileView> {
    fs.map_values(|f: GeneratedFile| f@)
}

/// The kinds of file that generation writes.
#[derive(Clone, Copy, Debug, PartialEq, Eq, Structural)]
pub enum Artifact {
    CSource,
    MasmStubs,
    GasStubs,
    ModuleDefinition,
    Solution,
    SolutionXml,
    Project2022,
    Project2026,
    Filters,
    UserSettings,
    CMakeLists,
}

/// The sources of one architecture: the C file, the jump stubs (x86 in
/// both assembler dialects, x64 in MASM) and the module-definition file.
pub open spec fn source_artifacts(x64: bool) -> Seq<Artifact> {
    if x64 {
        seq![Artifact::CSource, Artifact::MasmStubs, Artifact::ModuleDefinition]
    } else {
        seq![Artifact::CSource, Artifact::MasmStubs, Artifact::GasStubs, Artifact::ModuleDefinition]
    }
}

/// The files of a target: the project files of its build system, then the
/// sources.
pub open spec fn target_artifacts(target: OutputTarget, x64: bool) -> Seq<Artifact> {
    match target {
        OutputTarget::Source => source_artifacts(x64),
        OutputTarget::Vs2022 => seq![
            Artifact::Solution,
            Artifact::Project2022,
            Artifact::Filters,
            Artifact::UserSettings,
        ] + source_artifacts(x64),
        OutputTarget::Vs2026 => seq![
            Artifact::SolutionXml,
            Artifact::Project2026,
            Artifact::Filters,
            Artifact::UserSettings,
        ] + source_artifacts(x64),
        OutputTarget::CMake => seq![Artifact::CMakeLists] + source_artifacts(x64),
    }
}

pub open spec fn arch_tag(x64: bool) -> Seq<char> {
    if x64 {
        "x64"@
    } else {
        "x86"@
    }
}

/// The name of an artifact's file.
pub open spec fn artifact_name(a: Artifact, ctx: ContextView, x64: bool) -> Seq<char> {
    match a {
        Artifact::CSource => ctx.base_name + "_"@ + arch_tag(x64) + ".c"@,
        Artifact::MasmStubs => ctx.base_name + "_"@ + arch_tag(x64) + "_jump.asm"@,
        Artifact::GasStubs => ctx.base_name + "_"@ + arch_tag(x64) + "_jump.S"@,
        Artifact::ModuleDefinition => ctx.base_name + ".def"@,
        Artifact::Solution => "AheadlibEx_"@ + ctx.project_name + ".sln"@,
        Artifact::SolutionXml => "AheadlibEx_"@ + ctx.project_name + ".slnx"@,
        Artifact::Project2022 => ctx.project_name + ".vcxproj"@,
        Artifact::Project2026 => ctx.project_name + ".vcxproj"@,
        Artifact::Filters => ctx.project_name + ".vcxproj.filters"@,
        Artifact::UserSettings => ctx.project_name + ".vcxproj.user"@,
        Artifact::CMakeLists => "CMakeLists.txt"@,
    }
}

/// The contents of an artifact's file.
pub open spec fn artifact_text(a: Artifact, ctx: ContextView, x64: bool) -> Seq<char> {
    match a {
        Artifact::CSource => c_source(ctx, x64),
        Artifact::MasmStubs => masm_source(ctx, x64),
        Artifact::GasStubs => gas_source(ctx, x64),
        Artifact::ModuleDefinition => def_source(ctx),
        Artifact::Solution => filled(SOLUTION_TEMPLATE@, solution_pairs(ctx, x64)),
        Artifact::SolutionXml => filled(SLNX_TEMPLATE@, slnx_pairs(ctx, x64)),
        Artifact::Project2022 => filled(VCXPROJ_TEMPLATE@, vcxproj_pairs(ctx, x64, VS2022_TOOLSET@)),
        Artifact::Project2026 => filled(VCXPROJ_TEMPLATE@, vcxproj_pairs(ctx, x64, VS2026_TOOLSET@)),
        Artifact::Filters => filled(FILTERS_TEMPLATE@, filters_pairs(ctx, x64)),
        Artifact::UserSettings => USER_TEMPLATE@,
        Artifact::CMakeLists => filled(CMAKE_TEMPLATE@, cmake_pairs(ctx, x64)),
    }
}

pub open spec fn artifact_file(a: Artifact, ctx: ContextView, x64: bool) -> GeneratedFileView {
    GeneratedFileView { name: artifact_name(a, ctx, x64), contents: artifact_text(a, ctx, x64) }
}

/// The files that generation writes for a target and an architecture.
pub open spec fn planned_files(ctx: ContextView, target: OutputTarget, x64: bool) -> Seq<
    GeneratedFileView,
> {
    target_artifacts(target, x64).map_values(|a: Artifact| artifact_file(a, ctx, x64))
}

fn target_artifact_list(target: OutputTarget, x64: bool) -> (r: Vec<Artifact>)
    ensures
        r@ == target_artifacts(target, x64),
{
    let mut v: Vec<Artifact> = Vec::new();
    match target {
        OutputTarget::Source => {},
        OutputTarget::Vs2022 => {
            v.push(Artifact::Solution);
            v.push(Artifact::Project2022);
            v.push(Artifact::Filters);
            v.push(Artifact::UserSettings);
        },
        OutputTarget::Vs2026 => {
            v.push(Artifact::SolutionXml);
            v.push(Artifact::Project2026);
            v.push(Artifact::Filters);
            v.push(Artifact::UserSettings);
        },
        OutputTarget::CMake => {
            v.push(Artifact::CMakeLists);
        },
    }
    let ghost head = v@;
    v.push(Artifact::CSource);
    v.push(Artifact::MasmStubs);
    if !x64 {
        v.push(Artifact::GasStubs);
    }
    v.push(Artifact::ModuleDefinition);
    assert(v@ =~= head + source_artifacts(x64));
    assert(v@ =~= target_artifacts(target, x64));
    v
}

fn artifact_file_name(a: Artifact, ctx: &VsTemplateContext, x64: bool) -> (r: String)
    ensures
        r@ == artifact_name(a, ctx@, x64),
{
    let arch = if x64 {
        "x64"
    } else {
        "x86"
    };
    let mut s = String::new();
    match a {
        Artifact::CSource | Artifact::MasmStubs | Artifact::GasStubs => {
            s.append(ctx.base_name);
            s.append("_");
            s.append(arch);
            match a {
                Artifact::CSource => s.append(".c"),
                Artifact::MasmStubs => s.append("_jump.asm"),
                _ => s.append("_jump.S"),
            }
        },
        Artifact::ModuleDefinition => {
            s.append(ctx.base_name);
            s.append(".def");
        },
        Artifact::Solution => {
            s.append("AheadlibEx_");
            s.append(ctx.project_name);
            s.append(".sln");
        },
        Artifact::SolutionXml => {
            s.append("AheadlibEx_");
            s.append(ctx.project_name);
            s.append(".slnx");
        },
        Artifact::Project2022 | Artifact::Project2026 => {
            s.append(ctx.project_name);
            s.append(".vcxproj");
        },
        Artifact::Filters => {
            s.append(ctx.project_name);
            s.append(".vcxproj.filters");
        },
        Artifact::UserSettings => {
            s.append(ctx.project_name);
            s.append(".vcxproj.user");
        },
        Artifact::CMakeLists => {
            s.append("CMakeLists.txt");
        },
    }
    assert(s@ =~= artifact_name(a, ctx@, x64));
    s
}

fn render_artifact(a: Artifact, ctx: &VsTemplateContext, x64: bool) -> (r: String)
    ensures
        r@ == artifact_text(a, ctx@, x64),
{
    match a {
        Artifact::CSource => if x64 {
            render_c_x64(ctx)
        } else {
            render_c(ctx)
        },
        Artifact::MasmStubs => if x64 {
            render_asm_x64(ctx)
        } else {
            render_asm_x86(ctx)
        },
        Artifact::GasStubs => if x64 {
            crate::templates::render_asm_x64_gas(ctx)
        } else {
            render_asm_x86_gas(ctx)
        },
        Artifact::ModuleDefinition => render_def(ctx),
        Artifact::Solution => render_solution(ctx, x64),
        Artifact::SolutionXml => render_slnx_2026(ctx, x64),
        Artifact::Project2022 => render_vcxproj(ctx, x64),
        Artifact::Project2026 => render_vcxproj_2026(ctx, x64),
        Artifact::Filters => render_filters(ctx, x64),
        Artifact::UserSettings => render_user(),
        Artifact::CMakeLists => render_cmake_lists(ctx, x64),
    }
}

/// Renders every file of `target` for one architecture, in order: the
/// build system's project files, the C source, the jump stubs and the
/// module-definition file.
pub fn plan_files(ctx: &VsTemplateContext, target: OutputTarget, is_x64: bool) -> (r: Vec<GeneratedFile>)
    ensures
        file_views(r@) == planned_files(ctx@, target, is_x64),
        r@.len() == target_artifacts(target, is_x64).len(),
{
    let kinds = target_artifact_list(target, is_x64);
    let ghost want = planned_files(ctx@, target, is_x64);
    let mut out: Vec<GeneratedFile> = Vec::new();
    let mut k: usize = 0;
    while k < kinds.len()
        invariant
            kinds@ == target_artifacts(target, is_x64),
            want == planned_files(ctx@, target, is_x64),
            k <= kinds@.len(),
            file_views(out@) == want.take(k as int),
        decreases kinds.len() - k,
    {
        let a = kinds[k];
        let f = GeneratedFile { name: artifact_file_name(a, ctx, is_x64), contents: render_artifact(a, ctx, is_x64) };
        let ghost before = out@;
        out.push(f);
        assert(file_views(out@) =~= file_views(before).push(f@));
        k = k + 1;
        assert(file_views(out@) =~= want.take(k as int));
    }
    assert(want.take(kinds@.len() as int) =~= want);
    assert(file_views(out@).len() == out@.len());
    out
}

/// `arch` names the 64-bit architecture: `x64`, in any letter case.
pub open spec fn names_x64(arch: Seq<char>) -> bool {
    arch.len() == 3 && (arch[0] == 'x' || arch[0] == 'X') && arch[1] == '6' && arch[2] == '4'
}

pub fn is_x64_arch(arch: &str) -> (r: bool)
    ensures
        r == names_x64(arch@),
{
    arch.unicode_len() == 3 && (arch.get_char(0) == 'x' || arch.get_char(0) == 'X') && arch.get_char(1) == '6'
        && arch.get_char(2) == '4'
}

/// Relies on uuid's `Uuid::new_v4` and the `Display` of its braced form:
/// a random identifier, its 36 hyphenated characters in braces.
#[verifier::external_body]
fn new_guid_braced() -> (r: String)
    ensures
        r@.len() == 38,
        r@[0] == '{',
        r@[37] == '}',
{
    uuid::Uuid::new_v4().braced().to_string()
}

/// A drawn identity token: 38 characters in braces.
pub open spec fn braced_token(t: Seq<char>) -> bool {
    t.len() == 38 && t[0] == '{' && t[37] == '}'
}

pub open spec fn braced_tokens(g: GuidsView) -> bool {
    braced_token(g.solution) && braced_token(g.project) && braced_token(g.filter_source)
        && braced_token(g.filter_header) && braced_token(g.filter_resource)
}

/// The context of a generation request once its identity tokens are drawn.
pub open spec fn request_context(
    dll_name: Seq<char>,
    dll_stem: Seq<char>,
    origin: crate::templates::OriginView,
    exports: Seq<crate::dll::ExportEntryView>,
    guids: GuidsView,
) -> ContextView {
    ContextView {
        project_name: dll_stem,
        dll_name,
        base_name: dll_stem,
        origin,
        exports,
        guids,
    }
}

/// Renders the files of `target` for a library with file name `dll_name`
/// and stem `dll_stem`, whose architecture is `arch` (`x64` in any case, or
/// else x86). Fails with `InvalidDllName` when the stem is empty; otherwise
/// draws fresh identity tokens (random, braced) and renders the planned
/// files with them.
pub fn generate_project(
    target: OutputTarget,
    dll_name: &str,
    dll_stem: &str,
    arch: &str,
    origin: OriginLoadMode,
    exports: &[ExportEntry],
) -> (r: Result<Vec<GeneratedFile>, GenerateError>)
    ensures
        dll_stem@.len() == 0 ==> r == Err::<Vec<GeneratedFile>, GenerateError>(GenerateError::InvalidDllName),
        dll_stem@.len() > 0 ==> r is Ok && r->Ok_0@.len() == target_artifacts(target, names_x64(arch@)).len()
            && exists|g: GuidsView|
            braced_tokens(g) && file_views(r->Ok_0@) == planned_files(
                #[trigger] request_context(dll_name@, dll_stem@, origin@, entry_views(exports@), g),
                target,
                names_x64(arch@),
            ),
{
    if dll_stem.is_empty() {
        return Err(GenerateError::InvalidDllName);
    }
    let is_x64 = is_x64_arch(arch);
    let solution = new_guid_braced();
    let project = new_guid_braced();
    let filter_source = new_guid_braced();
    let filter_header = new_guid_braced();
    let filter_resource = new_guid_braced();
    let guids = VsGuids {
        solution: solution.as_str(),
        project: project.as_str(),
        filter_source: filter_source.as_str(),
        filter_header: filter_header.as_str(),
        filter_resource: filter_resource.as_str(),
    };
    let ctx = VsTemplateContext {
        project_name: dll_stem,
        dll_name,
        base_name: dll_stem,
        origin_load_mode: origin,
        exports,
        guids,
    };
    let files = plan_files(&ctx, target, is_x64);
    assert(ctx@ == request_context(dll_name@, dll_stem@, origin@, entry_views(exports@), guids@));
    assert(braced_tokens(guids@));
    Ok(files)
}

/// Reads the export table of the library image `image` and renders the
/// files of `target` for it. Fails with the reader's error when the image
/// has no readable export table, and with `InvalidDllName` when the stem
/// is empty.
pub fn generate_cli(
    target: OutputTarget,
    dll_name: &str,
    dll_stem: &str,
    image: &[u8],
    origin: OriginLoadMode,
) -> (r: Result<Vec<GeneratedFile>, GenerateError>)
    ensures
        match export_outcome(image@) {
            Err(e) => r == Err::<Vec<GeneratedFile>, GenerateError>(GenerateError::Export(e)),
            Ok(d) => {
                &&& dll_stem@.len() == 0 ==> r == Err::<Vec<GeneratedFile>, GenerateError>(
                    GenerateError::InvalidDllName,
                )
                &&& dll_stem@.len() > 0 ==> r is Ok && exists|g: GuidsView|
                    braced_tokens(g) && file_views(r->Ok_0@) == planned_files(
                        #[trigger] request_context(dll_name@, dll_stem@, origin@, d.exports, g),
                        target,
                        names_x64(d.arch),
                    )
            },
        },
{
    match dll_exports_from_bytes(image) {
        Err(e) => Err(GenerateError::Export(e)),
        Ok(info) => {
            let r = generate_project(target, dll_name, dll_stem, info.arch.as_str(), origin, info.exports.as_slice());
            proof {
                assert(entry_views(info.exports@) == info@.exports);
            }
            r
        },
    }
}

/// Architecture selection: a 64-bit library gets the x64 C file and the x64
/// MASM stubs and nothing for x86; a 32-bit one gets the x86 C file and x86
/// stubs in both assembler dialects and nothing for x64. Every target ends
/// with these sources.
pub proof fn lemma_architecture_selection(ctx: ContextView, target: OutputTarget, x64: bool)
    ensures
        planned_files(ctx, OutputTarget::Source, x64).map_values(|f: GeneratedFileView| f.name) == (if x64 {
            seq![
                ctx.base_name + "_x64.c"@,
                ctx.base_name + "_x64_jump.asm"@,
                ctx.base_name + ".def"@,
            ]
        } else {
            seq![
                ctx.base_name + "_x86.c"@,
                ctx.base_name + "_x86_jump.asm"@,
                ctx.base_name + "_x86_jump.S"@,
                ctx.base_name + ".def"@,
            ]
        }),
        target_artifacts(target, x64).subrange(
            target_artifacts(target, x64).len() - source_artifacts(x64).len(),
            target_artifacts(target, x64).len() as int,
        ) == source_artifacts(x64),
{
    let names = planned_files(ctx, OutputTarget::Source, x64).map_values(|f: GeneratedFileView| f.name);
    if x64 {
        assert(ctx.base_name + "_"@ + "x64"@ + ".c"@ =~= ctx.base_name + "_x64.c"@) by {
            reveal_strlit("_");
            reveal_strlit("x64");
            reveal_strlit(".c");
            reveal_strlit("_x64.c");
        }
        assert(ctx.base_name + "_"@ + "x64"@ + "_jump.asm"@ =~= ctx.base_name + "_x64_jump.asm"@) by {
            reveal_strlit("_");
            reveal_strlit("x64");
            reveal_strlit("_jump.asm");
            reveal_strlit("_x64_jump.asm");
        }
        assert(names =~= seq![
            ctx.base_name + "_x64.c"@,
            ctx.base_name + "_x64_jump.asm"@,
            ctx.base_name + ".def"@,
        ]);
    } else {
        assert(ctx.base_name + "_"@ + "x86"@ + ".c"@ =~= ctx.base_name + "_x86.c"@) by {
            reveal_strlit("_");
            reveal_strlit("x86");
            reveal_strlit(".c");
            reveal_strlit("_x86.c");
        }
        assert(ctx.base_name + "_"@ + "x86"@ + "_jump.asm"@ =~= ctx.base_name + "_x86_jump.asm"@) by {
            reveal_strlit("_");
            reveal_strlit("x86");
            reveal_strlit("_jump.asm");
            reveal_strlit("_x86_jump.asm");
        }
        assert(ctx.base_name + "_"@ + "x86"@ + "_jump.S"@ =~= ctx.base_name + "_x86_jump.S"@) by {
            reveal_strlit("_");
            reveal_strlit("x86");
            reveal_strlit("_jump.S");
            reveal_strlit("_x86_jump.S");
        }
        assert(names =~= seq![
            ctx.base_name + "_x86.c"@,
            ctx.base_name + "_x86_jump.asm"@,
            ctx.base_name + "_x86_jump.S"@,
            ctx.base_name + ".def"@,
        ]);
    }
    let t = target_artifacts(target, x64);
    assert(t.subrange(t.len() - source_artifacts(x64).len(), t.len() as int) =~= source_artifacts(x64));
}

/// With no exports, generation still plans a non-empty set of files, and
/// the last one is the module-definition file with an empty `EXPORTS`
/// section.
pub proof fn lemma_empty_table_generation(ctx: ContextView, target: OutputTarget, x64: bool)
    requires
        ctx.exports.len() == 0,
    ensures
        planned_files(ctx, target, x64).len() >= 3,
        planned_files(ctx, target, x64).last() == (GeneratedFileView {
            name: ctx.base_name + ".def"@,
            contents: "LIBRARY "@ + ctx.base_name + "\nEXPORTS\n"@,
        }),
{
    crate::templates::lemma_empty_export_table(ctx, crate::templates::LineKind::DefExport);
    let t = target_artifacts(target, x64);
    assert(t.last() == Artifact::ModuleDefinition);
}

/// The target that a command-line name stands for, in any letter case.
pub open spec fn target_named(name: Seq<char>) -> Option<OutputTarget> {
    let u = ascii_upper(name);
    if u == "SOURCE"@ || u == "SRC"@ || u == "C"@ {
        Some(OutputTarget::Source)
    } else if u == "VS2022"@ || u == "2022"@ {
        Some(OutputTarget::Vs2022)
    } else if u == "VS2026"@ || u == "2026"@ {
        Some(OutputTarget::Vs2026)
    } else if u == "CMAKE"@ {
        Some(OutputTarget::CMake)
    } else {
        None
    }
}

/// Reads a target name: `source` (or `src`, `c`), `vs2022` (or `2022`),
/// `vs2026` (or `2026`), `cmake`, in any letter case.
pub fn parse_target(name: &str) -> (r: Option<OutputTarget>)
    ensures
        r == target_named(name@),
{
    let u = to_ascii_upper(name);
    if u == String::from_str("SOURCE") || u == String::from_str("SRC") || u == String::from_str("C") {
        Some(OutputTarget::Source)
    } else if u == String::from_str("VS2022") || u == String::from_str("2022") {
        Some(OutputTarget::Vs2022)
    } else if u == String::from_str("VS2026") || u == String::from_str("2026") {
        Some(OutputTarget::Vs2026)
    } else if u == String::from_str("CMAKE") {
        Some(OutputTarget::CMake)
    } else {
        None
    }
}

/// The name of the renamed original next to the proxy when none is given.
pub open spec fn default_same_dir_name(dll_stem: Seq<char>) -> Seq<char> {
    dll_stem + "_orig.dll"@
}

/// Builds the origin mode from the user's choice, on text trimmed of
/// surrounding white space: the system directory; the given renamed file
/// next to the proxy (`<stem>_orig.dll` when the name is blank); or the
/// given path, which must not be blank.
pub fn build_origin_load_mode(
    choice: OriginModeChoice,
    same_dir_name: &str,
    custom_path: &str,
    dll_stem: &str,
) -> (r: Result<OriginLoadModeOwned, GenerateError>)
    ensures
        choice == OriginModeChoice::SystemDir ==> r is Ok && r->Ok_0 is SystemDir,
        choice == OriginModeChoice::SameDir ==> r is Ok && r->Ok_0 is SameDir
            && r->Ok_0->original_name@ == (if trimmed(same_dir_name@).len() == 0 {
            default_same_dir_name(dll_stem@)
        } else {
            trimmed(same_dir_name@)
        }),
        choice == OriginModeChoice::CustomPath ==> (trimmed(custom_path@).len() == 0 <==> r is Err),
        choice == OriginModeChoice::CustomPath && trimmed(custom_path@).len() == 0 ==> r
            == Err::<OriginLoadModeOwned, GenerateError>(GenerateError::MissingCustomPath),
        choice == OriginModeChoice::CustomPath && trimmed(custom_path@).len() > 0 ==> r is Ok
            && r->Ok_0 is CustomPath && r->Ok_0->path@ == trimmed(custom_path@),
{
    match choice {
        OriginModeChoice::SystemDir => Ok(OriginLoadModeOwned::system_dir()),
        OriginModeChoice::SameDir => {
            let name = trim(same_dir_name);
            if name.as_str().is_empty() {
                let mut name = String::from_str(dll_stem);
                name.append("_orig.dll");
                Ok(OriginLoadModeOwned::same_dir(name))
            } else {
                Ok(OriginLoadModeOwned::same_dir(name))
            }
        },
        OriginModeChoice::CustomPath => {
            let path = trim(custom_path);
            if path.as_str().is_empty() {
                Err(GenerateError::MissingCustomPath)
            } else {
                Ok(OriginLoadModeOwned::custom_path(path))
            }
        },
    }
}

/// The paths of a request, trimmed of surrounding white space, must not be
/// blank: `MissingDllPath` when the library path is, else `MissingOutputDir`
/// when the output directory is; otherwise both trimmed paths.
pub fn validate_paths(dll_path: &str, output_dir: &str) -> (r: Result<(String, String), GenerateError>)
    ensures
        trimmed(dll_path@).len() == 0 ==> r == Err::<(String, String), GenerateError>(
            GenerateError::MissingDllPath,
        ),
        trimmed(dll_path@).len() > 0 && trimmed(output_dir@).len() == 0 ==> r == Err::<
            (String, String),
            GenerateError,
        >(GenerateError::MissingOutputDir),
        trimmed(dll_path@).len() > 0 && trimmed(output_dir@).len() > 0 ==> r is Ok && r->Ok_0.0@
            == trimmed(dll_path@) && r->Ok_0.1@ == trimmed(output_dir@),
{
    let dll = trim(dll_path);
    if dll.as_str().is_empty() {
        return Err(GenerateError::MissingDllPath);
    }
    let dir = trim(output_dir);
    if dir.as_str().is_empty() {
        return Err(GenerateError::MissingOutputDir);
    }
    Ok((dll, dir))
}

} // verus!
