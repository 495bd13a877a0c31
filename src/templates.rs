//! The renderers of the proxy sources: C for x86 and x64, MASM and GAS
//! jump stubs, and the module-definition file. Each one prepares the export
//! table and assembles fixed text around one line per export.

use crate::dll::ExportEntry;
use crate::prepare::{
    entry_views, is_noname, prepare_exports, prepared, prepared_views, PreparedExport,
    PreparedView,
};
use crate::prepare::{
    lemma_prepare_sorted_entry, lemma_prepare_sorted_len, lemma_sort_props, sort_by_key,
};
use crate::text::{
    c_escaped, contains, decimal, lemma_c_escaped_plain, lemma_contains_extend,
    lemma_contains_middle, needs_no_escape, push_c_escaped, push_decimal, sanitized,
};
use vstd::prelude::*;
use vstd::string::*;

pub use crate::project_files::{
    exports_macro, render_cmake_lists, render_filters, render_filters_2026, render_slnx_2026,
    render_solution, render_user, render_user_2026, render_vcxproj, render_vcxproj_2026,
};


verus! {

/// Identity tokens that tie the generated IDE files to each other.
#[derive(Clone, Copy, Debug)]
pub struct VsGuids<'a> {
    pub solution: &'a str,
    pub project: &'a str,
    pub filter_source: &'a str,
    pub filter_header: &'a str,
    pub filter_resource: &'a str,
}

/// How the proxy finds the original library when it is loaded.
#[derive(Clone, Copy, Debug)]
pub enum OriginLoadMode<'a> {
    /// The original file name, looked up in the system directory.
    SystemDir,
    /// A renamed copy next to the proxy.
    SameDir { original_name: &'a str },
    /// A literal path.
    CustomPath { path: &'a str },
}

/// An [`OriginLoadMode`] that owns its text.
#[derive(Clone, Debug)]
pub enum OriginLoadModeOwned {
    SystemDir,
    SameDir { original_name: String },
    CustomPath { path: String },
}

impl OriginLoadModeOwned {
    pub fn system_dir() -> (r: Self)
        ensures
            r is SystemDir,
    {
        OriginLoadModeOwned::SystemDir
    }

    pub fn same_dir(original_name: String) -> (r: Self)
        ensures
            r == (OriginLoadModeOwned::SameDir { original_name }),
    {
        OriginLoadModeOwned::SameDir { original_name }
    }

    pub fn custom_path(path: String) -> (r: Self)
        ensures
            r == (OriginLoadModeOwned::CustomPath { path }),
    {
        OriginLoadModeOwned::CustomPath { path }
    }

    pub fn as_borrowed(&self) -> (r: OriginLoadMode<'_>)
        ensures
            match *self {
                OriginLoadModeOwned::SystemDir => r is SystemDir,
                OriginLoadModeOwned::SameDir { original_name } => r@ == (OriginView::SameDir {
                    original_name: original_name@,
                }),
                OriginLoadModeOwned::CustomPath { path } => r@ == (OriginView::CustomPath {
                    path: path@,
                }),
            },
    {
        match self {
            OriginLoadModeOwned::SystemDir => OriginLoadMode::SystemDir,
            OriginLoadModeOwned::SameDir { original_name } => OriginLoadMode::SameDir {
                original_name: original_name.as_str(),
            },
            OriginLoadModeOwned::CustomPath { path } => OriginLoadMode::CustomPath {
                path: path.as_str(),
            },
        }
    }
}

/// Everything a renderer reads.
#[derive(Clone, Copy, Debug)]
pub struct VsTemplateContext<'a> {
    pub project_name: &'a str,
    /// File name of the original library, e.g. `version.dll`.
    pub dll_name: &'a str,
    /// Stem used for the generated file names.
    pub base_name: &'a str,
    pub origin_load_mode: OriginLoadMode<'a>,
    pub exports: &'a [ExportEntry],
    pub guids: VsGuids<'a>,
}

pub struct GuidsView {
    pub solution: Seq<char>,
    pub project: Seq<char>,
    pub filter_source: Seq<char>,
    pub filter_header: Seq<char>,
    pub filter_resource: Seq<char>,
}

impl<'a> View for VsGuids<'a> {
    type V = GuidsView;

    open spec fn view(&self) -> GuidsView {
        GuidsView {
            solution: self.solution@,
            project: self.project@,
            filter_source: self.filter_source@,
            filter_header: self.filter_header@,
            filter_resource: self.filter_resource@,
        }
    }
}

pub enum OriginView {
    SystemDir,
    SameDir { original_name: Seq<char> },
    CustomPath { path: Seq<char> },
}

impl<'a> View for OriginLoadMode<'a> {
    type V = OriginView;

    open spec fn view(&self) -> OriginView {
        match *self {
            OriginLoadMode::SystemDir => OriginView::SystemDir,
            OriginLoadMode::SameDir { original_name } => OriginView::SameDir {
                original_name: original_name@,
            },
            OriginLoadMode::CustomPath { path } => OriginView::CustomPath { path: path@ },
        }
    }
}

/// The model of a render context: its text and its export table.
pub struct ContextView {
    pub project_name: Seq<char>,
    pub dll_name: Seq<char>,
    pub base_name: Seq<char>,
    pub origin: OriginView,
    pub exports: Seq<crate::dll::ExportEntryView>,
    pub guids: GuidsView,
}

impl<'a> View for VsTemplateContext<'a> {
    type V = ContextView;

    open spec fn view(&self) -> ContextView {
        ContextView {
            project_name: self.project_name@,
            dll_name: self.dll_name@,
            base_name: self.base_name@,
            origin: self.origin_load_mode@,
            exports: entry_views(self.exports@),
            guids: self.guids@,
        }
    }
}

/// The prepared exports of a context.
pub open spec fn ctx_prepared(ctx: ContextView) -> Seq<PreparedView> {
    prepared(ctx.exports)
}

/// The kinds of per-export line that the renderers emit.
#[derive(Clone, Copy, Debug)]
pub enum LineKind {
    /// A linker directive exporting the label as the internal symbol; x86
    /// symbols carry the leading underscore of the C calling convention.
    ExportPragma { x64: bool },
    /// The function-pointer variable that holds the real export.
    ForwardDecl,
    /// A naked x86 function that jumps through the pointer.
    Trampoline,
    /// The statement that resolves the pointer in the original module.
    InitForwarder,
    MasmExtern { x64: bool },
    MasmJump { x64: bool },
    GasJump { x64: bool },
    /// An `EXPORTS` line of the module-definition file.
    DefExport,
}

pub open spec fn noname_suffix(p: PreparedView) -> Seq<char> {
    if is_noname(p.raw_name) {
        ",NONAME"@
    } else {
        ""@
    }
}

/// The text of one line for one prepared export.
pub open spec fn line_text(kind: LineKind, p: PreparedView) -> Seq<char> {
    match kind {
        LineKind::ExportPragma { x64 } => "#pragma comment(linker, \"/EXPORT:\\\""@ + p.label + (if x64 {
            "=AheadLibEx_"@
        } else {
            "=_AheadLibEx_"@
        }) + p.stub + ",@"@ + decimal(p.ordinal as nat) + noname_suffix(p) + "\\\"\")\n"@,
        LineKind::ForwardDecl => "AHEADLIB_EXTERN PVOID pfnAheadLibEx_"@ + p.stub + ";\n"@,
        LineKind::Trampoline => "__declspec(naked) AHEADLIB_EXTERN void __cdecl AheadLibEx_"@ + p.stub
            + "(void) { __asm { jmp dword ptr [pfnAheadLibEx_"@ + p.stub + "] } }\n"@,
        LineKind::InitForwarder => if is_noname(p.raw_name) {
            "    pfnAheadLibEx_"@ + p.stub + " = get_address(MAKEINTRESOURCEA("@ + decimal(
                p.ordinal as nat,
            ) + "));\n"@
        } else {
            "    pfnAheadLibEx_"@ + p.stub + " = get_address(\""@ + c_escaped(p.raw_name)
                + "\");\n"@
        },
        LineKind::MasmExtern { x64 } => "EXTERN pfnAheadLibEx_"@ + p.stub + (if x64 {
            ":dq;\n"@
        } else {
            ":DWORD\n"@
        }),
        LineKind::MasmJump { x64 } => "AheadLibEx_"@ + p.stub + " PROC\n"@ + (if x64 {
            "    jmp pfnAheadLibEx_"@ + p.stub + "\n"@
        } else {
            "    jmp dword ptr [pfnAheadLibEx_"@ + p.stub + "]\n"@
        }) + "AheadLibEx_"@ + p.stub + " ENDP\n\n"@,
        LineKind::GasJump { x64 } => if x64 {
            "    .globl AheadLibEx_"@ + p.stub + "\nAheadLibEx_"@ + p.stub
                + ":\n    jmp qword ptr [rip + pfnAheadLibEx_"@ + p.stub + "]\n\n"@
        } else {
            "    .globl _AheadLibEx_"@ + p.stub + "\n_AheadLibEx_"@ + p.stub
                + ":\n    jmp dword ptr [_pfnAheadLibEx_"@ + p.stub + "]\n\n"@
        },
        LineKind::DefExport => "    "@ + p.label + "=AheadLibEx_"@ + p.stub + " @"@ + decimal(
            p.ordinal as nat,
        ) + (if is_noname(p.raw_name) {
            " NONAME"@
        } else {
            ""@
        }) + "\n"@,
    }
}

/// One line of the given kind per export, in order.
pub open spec fn section_text(ps: Seq<PreparedView>, kind: LineKind) -> Seq<char>
    decreases ps.len(),
{
    if ps.len() == 0 {
        seq![]
    } else {
        section_text(ps.drop_last(), kind) + line_text(kind, ps.last())
    }
}

fn is_noname_exec(name: &str) -> (r: bool)
    ensures
        r == is_noname(name@),
{
    name.unicode_len() > 0 && name.get_char(0) == '#'
}

fn push_line(out: &mut String, kind: LineKind, p: &PreparedExport)
    ensures
        final(out)@ == old(out)@ + line_text(kind, p@),
{
    let stub = p.stub.as_str();
    match kind {
        LineKind::ExportPragma { x64 } => {
            out.append("#pragma comment(linker, \"/EXPORT:\\\"");
            out.append(p.label.as_str());
            if x64 {
                out.append("=AheadLibEx_");
            } else {
                out.append("=_AheadLibEx_");
            }
            out.append(stub);
            out.append(",@");
            push_decimal(out, p.ordinal as u64);
            if is_noname_exec(p.raw_name) {
                out.append(",NONAME");
            }
            out.append("\\\"\")\n");
        },
        LineKind::ForwardDecl => {
            out.append("AHEADLIB_EXTERN PVOID pfnAheadLibEx_");
            out.append(stub);
            out.append(";\n");
        },
        LineKind::Trampoline => {
            out.append("__declspec(naked) AHEADLIB_EXTERN void __cdecl AheadLibEx_");
            out.append(stub);
            out.append("(void) { __asm { jmp dword ptr [pfnAheadLibEx_");
            out.append(stub);
            out.append("] } }\n");
        },
        LineKind::InitForwarder => {
            out.append("    pfnAheadLibEx_");
            out.append(stub);
            if is_noname_exec(p.raw_name) {
                out.append(" = get_address(MAKEINTRESOURCEA(");
                push_decimal(out, p.ordinal as u64);
                out.append("));\n");
            } else {
                out.append(" = get_address(\"");
                push_c_escaped(out, p.raw_name);
                out.append("\");\n");
            }
        },
        LineKind::MasmExtern { x64 } => {
            out.append("EXTERN pfnAheadLibEx_");
            out.append(stub);
            if x64 {
                out.append(":dq;\n");
            } else {
                out.append(":DWORD\n");
            }
        },
        LineKind::MasmJump { x64 } => {
            out.append("AheadLibEx_");
            out.append(stub);
            out.append(" PROC\n");
            if x64 {
                out.append("    jmp pfnAheadLibEx_");
                out.append(stub);
                out.append("\n");
            } else {
                out.append("    jmp dword ptr [pfnAheadLibEx_");
                out.append(stub);
                out.append("]\n");
            }
            out.append("AheadLibEx_");
            out.append(stub);
            out.append(" ENDP\n\n");
        },
        LineKind::GasJump { x64 } => {
            if x64 {
                out.append("    .globl AheadLibEx_");
                out.append(stub);
                out.append("\nAheadLibEx_");
                out.append(stub);
                out.append(":\n    jmp qword ptr [rip + pfnAheadLibEx_");
                out.append(stub);
                out.append("]\n\n");
            } else {
                out.append("    .globl _AheadLibEx_");
                out.append(stub);
                out.append("\n_AheadLibEx_");
                out.append(stub);
                out.append(":\n    jmp dword ptr [_pfnAheadLibEx_");
                out.append(stub);
                out.append("]\n\n");
            }
        },
        LineKind::DefExport => {
            out.append("    ");
            out.append(p.label.as_str());
            out.append("=AheadLibEx_");
            out.append(stub);
            out.append(" @");
            push_decimal(out, p.ordinal as u64);
            if is_noname_exec(p.raw_name) {
                out.append(" NONAME");
            }
            out.append("\n");
        },
    }
    proof {
        reveal_strlit("");
    }
    assert(final(out)@ =~= old(out)@ + line_text(kind, p@));
}

/// Appends one line of `kind` per prepared export.
fn push_section(out: &mut String, ps: &Vec<PreparedExport>, kind: LineKind)
    ensures
        final(out)@ == old(out)@ + section_text(prepared_views(ps@), kind),
{
    let ghost start = out@;
    let ghost pv = prepared_views(ps@);
    let mut k: usize = 0;
    while k < ps.len()
        invariant
            pv == prepared_views(ps@),
            k <= ps@.len(),
            old(out)@ == start,
            out@ == start + section_text(pv.take(k as int), kind),
        decreases ps.len() - k,
    {
        push_line(out, kind, &ps[k]);
        assert(pv.take(k + 1).drop_last() =~= pv.take(k as int));
        k = k + 1;
        assert(out@ =~= start + section_text(pv.take(k as int), kind));
    }
    assert(pv.take(ps@.len() as int) =~= pv);
}

pub const C_HEAD_X86: &'static str = r#"// Forwarding proxy (x86): every export jumps to the original library.
#include <windows.h>
#include <tchar.h>

#define AHEADLIB_EXTERN EXTERN_C

"#;

pub const C_HEAD_X64: &'static str = r#"// Forwarding proxy (x64): the jump stubs live in the assembly file.
#include <windows.h>
#include <tchar.h>

#define AHEADLIB_EXTERN EXTERN_C

"#;

pub const C_STATE: &'static str = r#"
static HMODULE g_original_module = NULL;

"#;

pub const C_GET_ADDRESS: &'static str = r#"
static FARPROC get_address(LPCSTR name)
{
    FARPROC address = GetProcAddress(g_original_module, name);
    if (address == NULL)
    {
        MessageBoxA(NULL, "An export of the original library could not be resolved.", "AheadLibEx", MB_ICONERROR);
    }
    return address;
}

static VOID init_forwarders(VOID)
{
"#;

pub const C_INIT_END: &'static str = "}\n\n";

pub const C_DLLMAIN: &'static str = r#"
BOOL WINAPI DllMain(HMODULE module, DWORD reason, PVOID reserved)
{
    UNREFERENCED_PARAMETER(reserved);
    if (reason == DLL_PROCESS_ATTACH)
    {
        DisableThreadLibraryCalls(module);
        if (!load_original_module(module))
        {
            return FALSE;
        }
        init_forwarders();
    }
    else if (reason == DLL_PROCESS_DETACH && g_original_module != NULL)
    {
        FreeLibrary(g_original_module);
        g_original_module = NULL;
    }
    return TRUE;
}
"#;

pub const SYSTEM_DIR_HEAD: &'static str = r#"static BOOL load_original_module(HMODULE module)
{
    TCHAR path[MAX_PATH];
    UINT length;
    UNREFERENCED_PARAMETER(module);
    length = "#;

pub const SYSTEM_DIR_MID: &'static str = r#"path, MAX_PATH);
    if (length == 0 || length >= MAX_PATH)
    {
        return FALSE;
    }
    lstrcat(path, TEXT("\\"));
    lstrcat(path, "#;

pub const SAME_DIR_HEAD: &'static str = r#"static BOOL load_original_module(HMODULE module)
{
    TCHAR path[MAX_PATH];
    TCHAR *slash;
    DWORD length = "#;

pub const SAME_DIR_MID: &'static str = r#"module, path, MAX_PATH);
    if (length == 0 || length >= MAX_PATH)
    {
        return FALSE;
    }
    slash = _tcsrchr(path, TEXT('\\'));
    if (slash == NULL)
    {
        return FALSE;
    }
    *(slash + 1) = TEXT('\0');
    lstrcat(path, "#;

pub const LOADER_TAIL: &'static str = r#");
    g_original_module = LoadLibrary(path);
    return g_original_module != NULL;
}
"#;

pub const CUSTOM_PATH_HEAD: &'static str = "static const TCHAR origin_cfg[] = ";

pub const CUSTOM_PATH_TAIL: &'static str = r#";

static BOOL load_original_module(HMODULE module)
{
    UNREFERENCED_PARAMETER(module);
    g_original_module = LoadLibrary(origin_cfg);
    return g_original_module != NULL;
}
"#;

pub const MASM_HEAD_X64: &'static str = "; x64 jump stubs: each export jumps through its resolved pointer.\n\n";

pub const MASM_HEAD_X86: &'static str = "; x86 jump stubs: each export jumps through its resolved pointer.\n.386\n.model flat, C\n\n";

pub const MASM_CODE: &'static str = "\n.code\n\n";

pub const MASM_END: &'static str = "END\n";

pub const GAS_HEAD: &'static str = "    .intel_syntax noprefix\n    .text\n\n";

/// `s` as a C `TEXT("...")` literal.
pub open spec fn text_literal(s: Seq<char>) -> Seq<char> {
    "TEXT(\""@ + c_escaped(s) + "\")"@
}

/// The C function `load_original_module` for the chosen origin mode.
pub open spec fn origin_loader(mode: OriginView, dll_name: Seq<char>) -> Seq<char> {
    match mode {
        OriginView::SystemDir => SYSTEM_DIR_HEAD@ + "GetSystemDirectory("@ + SYSTEM_DIR_MID@
            + text_literal(dll_name) + LOADER_TAIL@,
        OriginView::SameDir { original_name } => SAME_DIR_HEAD@ + "GetModuleFileName("@
            + SAME_DIR_MID@ + text_literal(original_name) + LOADER_TAIL@,
        OriginView::CustomPath { path } => CUSTOM_PATH_HEAD@ + text_literal(path) + CUSTOM_PATH_TAIL@,
    }
}

/// The C source of the proxy: export directives, pointer variables, the
/// loader of the original library, pointer resolution, and (x86 only) the
/// naked jump functions.
pub open spec fn c_source(ctx: ContextView, x64: bool) -> Seq<char> {
    let ps = ctx_prepared(ctx);
    (if x64 {
        C_HEAD_X64@
    } else {
        C_HEAD_X86@
    }) + section_text(ps, LineKind::ExportPragma { x64 }) + "\n"@ + section_text(ps, LineKind::ForwardDecl)
        + C_STATE@ + origin_loader(ctx.origin, ctx.dll_name) + C_GET_ADDRESS@
        + section_text(ps, LineKind::InitForwarder) + C_INIT_END@ + (if x64 {
        seq![]
    } else {
        section_text(ps, LineKind::Trampoline)
    }) + C_DLLMAIN@
}

/// The MASM file: one `EXTERN` per pointer and one procedure per export.
pub open spec fn masm_source(ctx: ContextView, x64: bool) -> Seq<char> {
    let ps = ctx_prepared(ctx);
    (if x64 {
        MASM_HEAD_X64@
    } else {
        MASM_HEAD_X86@
    }) + section_text(ps, LineKind::MasmExtern { x64 }) + MASM_CODE@ + section_text(
        ps,
        LineKind::MasmJump { x64 },
    ) + MASM_END@
}

/// The GNU assembler file: one global jump label per export.
pub open spec fn gas_source(ctx: ContextView, x64: bool) -> Seq<char> {
    GAS_HEAD@ + section_text(ctx_prepared(ctx), LineKind::GasJump { x64 })
}

/// The module-definition file: a `LIBRARY` line and one `EXPORTS` line per
/// export.
pub open spec fn def_source(ctx: ContextView) -> Seq<char> {
    "LIBRARY "@ + ctx.base_name + "\nEXPORTS\n"@ + section_text(ctx_prepared(ctx), LineKind::DefExport)
}

fn push_text_literal(out: &mut String, s: &str)
    ensures
        final(out)@ == old(out)@ + text_literal(s@),
{
    out.append("TEXT(\"");
    push_c_escaped(out, s);
    out.append("\")");
    assert(final(out)@ =~= old(out)@ + text_literal(s@));
}

fn push_origin_loader(out: &mut String, mode: OriginLoadMode, dll_name: &str)
    ensures
        final(out)@ == old(out)@ + origin_loader(mode@, dll_name@),
{
    match mode {
        OriginLoadMode::SystemDir => {
            out.append(SYSTEM_DIR_HEAD);
            out.append("GetSystemDirectory(");
            out.append(SYSTEM_DIR_MID);
            push_text_literal(out, dll_name);
            out.append(LOADER_TAIL);
        },
        OriginLoadMode::SameDir { original_name } => {
            out.append(SAME_DIR_HEAD);
            out.append("GetModuleFileName(");
            out.append(SAME_DIR_MID);
            push_text_literal(out, original_name);
            out.append(LOADER_TAIL);
        },
        OriginLoadMode::CustomPath { path } => {
            out.append(CUSTOM_PATH_HEAD);
            push_text_literal(out, path);
            out.append(CUSTOM_PATH_TAIL);
        },
    }
    assert(final(out)@ =~= old(out)@ + origin_loader(mode@, dll_name@));
}

fn render_c_source(ctx: &VsTemplateContext, x64: bool) -> (r: String)
    ensures
        r@ == c_source(ctx@, x64),
{
    let ps = prepare_exports(ctx.exports);
    let mut out = if x64 {
        String::from_str(C_HEAD_X64)
    } else {
        String::from_str(C_HEAD_X86)
    };
    push_section(&mut out, &ps, LineKind::ExportPragma { x64 });
    out.append("\n");
    push_section(&mut out, &ps, LineKind::ForwardDecl);
    out.append(C_STATE);
    push_origin_loader(&mut out, ctx.origin_load_mode, ctx.dll_name);
    out.append(C_GET_ADDRESS);
    push_section(&mut out, &ps, LineKind::InitForwarder);
    out.append(C_INIT_END);
    if !x64 {
        push_section(&mut out, &ps, LineKind::Trampoline);
    }
    out.append(C_DLLMAIN);
    assert(out@ =~= c_source(ctx@, x64));
    out
}

/// The x86 C source of the proxy, naked jump functions included.
pub fn render_c(ctx: &VsTemplateContext) -> (r: String)
    ensures
        r@ == c_source(ctx@, false),
{
    render_c_source(ctx, false)
}

/// The x64 C source of the proxy; its jump stubs are in the assembly file.
pub fn render_c_x64(ctx: &VsTemplateContext) -> (r: String)
    ensures
        r@ == c_source(ctx@, true),
{
    render_c_source(ctx, true)
}

fn render_masm(ctx: &VsTemplateContext, x64: bool) -> (r: String)
    ensures
        r@ == masm_source(ctx@, x64),
{
    let ps = prepare_exports(ctx.exports);
    let mut out = if x64 {
        String::from_str(MASM_HEAD_X64)
    } else {
        String::from_str(MASM_HEAD_X86)
    };
    push_section(&mut out, &ps, LineKind::MasmExtern { x64 });
    out.append(MASM_CODE);
    push_section(&mut out, &ps, LineKind::MasmJump { x64 });
    out.append(MASM_END);
    assert(out@ =~= masm_source(ctx@, x64));
    out
}

fn render_gas(ctx: &VsTemplateContext, x64: bool) -> (r: String)
    ensures
        r@ == gas_source(ctx@, x64),
{
    let ps = prepare_exports(ctx.exports);
    let mut out = String::from_str(GAS_HEAD);
    push_section(&mut out, &ps, LineKind::GasJump { x64 });
    out
}

/// The x64 MASM jump stubs.
pub fn render_asm_x64(ctx: &VsTemplateContext) -> (r: String)
    ensures
        r@ == masm_source(ctx@, true),
{
    render_masm(ctx, true)
}

/// The x86 MASM jump stubs.
pub fn render_asm_x86(ctx: &VsTemplateContext) -> (r: String)
    ensures
        r@ == masm_source(ctx@, false),
{
    render_masm(ctx, false)
}

/// The x64 jump stubs for the GNU assembler.
pub fn render_asm_x64_gas(ctx: &VsTemplateContext) -> (r: String)
    ensures
        r@ == gas_source(ctx@, true),
{
    render_gas(ctx, true)
}

/// The x86 jump stubs for the GNU assembler.
pub fn render_asm_x86_gas(ctx: &VsTemplateContext) -> (r: String)
    ensures
        r@ == gas_source(ctx@, false),
{
    render_gas(ctx, false)
}

/// The module-definition file of the proxy.
pub fn render_def(ctx: &VsTemplateContext) -> (r: String)
    ensures
        r@ == def_source(ctx@),
{
    let ps = prepare_exports(ctx.exports);
    let mut out = String::from_str("LIBRARY ");
    out.append(ctx.base_name);
    out.append("\nEXPORTS\n");
    push_section(&mut out, &ps, LineKind::DefExport);
    assert(out@ =~= def_source(ctx@));
    out
}

proof fn lemma_c_source_split(ctx: ContextView, x64: bool, t: Seq<char>)
    requires
        contains(origin_loader(ctx.origin, ctx.dll_name), t),
    ensures
        contains(c_source(ctx, x64), t),
{
    let ps = ctx_prepared(ctx);
    let a = (if x64 {
        C_HEAD_X64@
    } else {
        C_HEAD_X86@
    }) + section_text(ps, LineKind::ExportPragma { x64 }) + "\n"@ + section_text(ps, LineKind::ForwardDecl)
        + C_STATE@;
    let ol = origin_loader(ctx.origin, ctx.dll_name);
    let b = C_GET_ADDRESS@ + section_text(ps, LineKind::InitForwarder) + C_INIT_END@ + (if x64 {
        seq![]
    } else {
        section_text(ps, LineKind::Trampoline)
    }) + C_DLLMAIN@;
    assert(c_source(ctx, x64) =~= a + ol + b);
    lemma_contains_extend(a, ol, b, t);
}

/// The C source reflects the origin mode: in system-directory mode it calls
/// `GetSystemDirectory` and holds the original file name as a literal; in
/// same-directory mode it calls `GetModuleFileName` and holds the renamed
/// file's name; in custom-path mode it embeds the path as `origin_cfg`.
/// Names are escaped for C; a name with no backslash or double quote
/// stands in the literal as it is.
pub proof fn lemma_origin_mode_rendering(ctx: ContextView, x64: bool)
    ensures
        forall|n: Seq<char>| needs_no_escape(n) ==> #[trigger] text_literal(n) == "TEXT(\""@ + n + "\")"@,
        ctx.origin is SystemDir ==> contains(c_source(ctx, x64), "GetSystemDirectory("@)
            && contains(c_source(ctx, x64), text_literal(ctx.dll_name)),
        ctx.origin is SameDir ==> contains(c_source(ctx, x64), "GetModuleFileName("@)
            && contains(
            c_source(ctx, x64),
            text_literal(ctx.origin->original_name),
        ),
        ctx.origin is CustomPath ==> contains(
            c_source(ctx, x64),
            CUSTOM_PATH_HEAD@ + text_literal(ctx.origin->path),
        ),
{
    assert forall|n: Seq<char>| needs_no_escape(n) implies #[trigger] text_literal(n) == "TEXT(\""@ + n + "\")"@ by {
        lemma_c_escaped_plain(n);
    }
    let ol = origin_loader(ctx.origin, ctx.dll_name);
    match ctx.origin {
        OriginView::SystemDir => {
            let lit = text_literal(ctx.dll_name);
            lemma_contains_middle(SYSTEM_DIR_HEAD@, "GetSystemDirectory("@, SYSTEM_DIR_MID@ + lit + LOADER_TAIL@);
            assert(ol =~= SYSTEM_DIR_HEAD@ + "GetSystemDirectory("@ + (SYSTEM_DIR_MID@ + lit + LOADER_TAIL@));
            lemma_c_source_split(ctx, x64, "GetSystemDirectory("@);
            lemma_contains_middle(SYSTEM_DIR_HEAD@ + "GetSystemDirectory("@ + SYSTEM_DIR_MID@, lit, LOADER_TAIL@);
            lemma_c_source_split(ctx, x64, lit);
        },
        OriginView::SameDir { original_name } => {
            let lit = text_literal(original_name);
            lemma_contains_middle(SAME_DIR_HEAD@, "GetModuleFileName("@, SAME_DIR_MID@ + lit + LOADER_TAIL@);
            assert(ol =~= SAME_DIR_HEAD@ + "GetModuleFileName("@ + (SAME_DIR_MID@ + lit + LOADER_TAIL@));
            lemma_c_source_split(ctx, x64, "GetModuleFileName("@);
            lemma_contains_middle(SAME_DIR_HEAD@ + "GetModuleFileName("@ + SAME_DIR_MID@, lit, LOADER_TAIL@);
            lemma_c_source_split(ctx, x64, lit);
        },
        OriginView::CustomPath { path } => {
            let t = CUSTOM_PATH_HEAD@ + text_literal(path);
            lemma_contains_middle(seq![], t, CUSTOM_PATH_TAIL@);
            assert(ol =~= seq![] + t + CUSTOM_PATH_TAIL@);
            lemma_c_source_split(ctx, x64, t);
        },
    }
}

/// With no exports, the module-definition file is its `LIBRARY` line and an
/// empty `EXPORTS` section, and the sources hold no per-export text: no
/// directives, pointers, jump functions or stubs, only the scaffolding.
pub proof fn lemma_empty_export_table(ctx: ContextView, kind: LineKind)
    requires
        ctx.exports.len() == 0,
    ensures
        def_source(ctx) == "LIBRARY "@ + ctx.base_name + "\nEXPORTS\n"@,
        section_text(ctx_prepared(ctx), kind) == Seq::<char>::empty(),
        c_source(ctx, false) == C_HEAD_X86@ + "\n"@ + C_STATE@ + origin_loader(ctx.origin, ctx.dll_name) + C_GET_ADDRESS@ + C_INIT_END@ + C_DLLMAIN@,
        c_source(ctx, true) == C_HEAD_X64@ + "\n"@ + C_STATE@ + origin_loader(ctx.origin, ctx.dll_name) + C_GET_ADDRESS@ + C_INIT_END@ + C_DLLMAIN@,
        masm_source(ctx, true) == MASM_HEAD_X64@ + MASM_CODE@ + MASM_END@,
        masm_source(ctx, false) == MASM_HEAD_X86@ + MASM_CODE@ + MASM_END@,
        gas_source(ctx, true) == GAS_HEAD@,
        gas_source(ctx, false) == GAS_HEAD@,
{
    assert(ctx_prepared(ctx) =~= Seq::<PreparedView>::empty());
    assert(def_source(ctx) =~= "LIBRARY "@ + ctx.base_name + "\nEXPORTS\n"@);
    assert(c_source(ctx, false) =~= C_HEAD_X86@ + "\n"@ + C_STATE@ + origin_loader(ctx.origin, ctx.dll_name) + C_GET_ADDRESS@ + C_INIT_END@ + C_DLLMAIN@);
    assert(c_source(ctx, true) =~= C_HEAD_X64@ + "\n"@ + C_STATE@ + origin_loader(ctx.origin, ctx.dll_name) + C_GET_ADDRESS@ + C_INIT_END@ + C_DLLMAIN@);
    assert(masm_source(ctx, true) =~= MASM_HEAD_X64@ + MASM_CODE@ + MASM_END@);
    assert(masm_source(ctx, false) =~= MASM_HEAD_X86@ + MASM_CODE@ + MASM_END@);
    assert(gas_source(ctx, true) =~= GAS_HEAD@);
    assert(gas_source(ctx, false) =~= GAS_HEAD@);
}

proof fn lemma_section_contains(ps: Seq<PreparedView>, kind: LineKind, i: int)
    requires
        0 <= i < ps.len(),
    ensures
        contains(section_text(ps, kind), line_text(kind, ps[i])),
    decreases ps.len(),
{
    let prefix = section_text(ps.drop_last(), kind);
    let line = line_text(kind, ps.last());
    if i == ps.len() - 1 {
        lemma_contains_middle(prefix, line, seq![]);
        assert(prefix + line + seq![] =~= section_text(ps, kind));
    } else {
        lemma_section_contains(ps.drop_last(), kind, i);
        lemma_contains_extend(seq![], prefix, line, line_text(kind, ps[i]));
        assert(seq![] + prefix + line =~= section_text(ps, kind));
    }
}

/// Every prepared export has its linker directive in the C source. A named
/// export keeps its exact name, decoration included, as the public label,
/// and binds it to an internal symbol built from the sanitized name
/// (suffixed with `_<ordinal>` when an earlier export took it). An export
/// named `#<ordinal>` is marked `NONAME`; a named one is not.
pub proof fn lemma_export_directives(ctx: ContextView, x64: bool, i: int)
    requires
        0 <= i < ctx_prepared(ctx).len(),
    ensures
        contains(c_source(ctx, x64), line_text(LineKind::ExportPragma { x64 }, ctx_prepared(ctx)[i])),
        ctx_prepared(ctx)[i].raw_name == seq!['#'] + decimal(ctx_prepared(ctx)[i].ordinal as nat)
            ==> noname_suffix(ctx_prepared(ctx)[i]) == ",NONAME"@,
        !is_noname(ctx_prepared(ctx)[i].raw_name) ==> noname_suffix(ctx_prepared(ctx)[i]) == ""@,
        !is_noname(ctx_prepared(ctx)[i].raw_name) ==> ctx_prepared(ctx)[i].label
            == ctx_prepared(ctx)[i].raw_name && (ctx_prepared(ctx)[i].stub == sanitized(
            ctx_prepared(ctx)[i].raw_name,
        ) || ctx_prepared(ctx)[i].stub == sanitized(ctx_prepared(ctx)[i].raw_name) + seq!['_']
            + decimal(ctx_prepared(ctx)[i].ordinal as nat)),
{
    let ps = ctx_prepared(ctx);
    let ev = ctx.exports;
    lemma_sort_props(ev);
    lemma_prepare_sorted_len(sort_by_key(ev));
    lemma_prepare_sorted_entry(sort_by_key(ev), i);
    lemma_section_contains(ps, LineKind::ExportPragma { x64 }, i);
    let head = if x64 {
        C_HEAD_X64@
    } else {
        C_HEAD_X86@
    };
    let pr = section_text(ps, LineKind::ExportPragma { x64 });
    let rest = "\n"@ + section_text(ps, LineKind::ForwardDecl) + C_STATE@ + origin_loader(ctx.origin, ctx.dll_name) + C_GET_ADDRESS@ + section_text(ps, LineKind::InitForwarder) + C_INIT_END@ + (if x64 {
        seq![]
    } else {
        section_text(ps, LineKind::Trampoline)
    }) + C_DLLMAIN@;
    assert(c_source(ctx, x64) =~= head + pr + rest);
    lemma_contains_extend(head, pr, rest, line_text(LineKind::ExportPragma { x64 }, ps[i]));
}

proof fn lemma_not_contains_missing_char(s: Seq<char>, t: Seq<char>, k: int)
    requires
        0 <= k < t.len(),
        forall|j: int| 0 <= j < s.len() ==> #[trigger] s[j] != t[k],
    ensures
        !contains(s, t),
{
    if contains(s, t) {
        let i = choose|i: int| 0 <= i <= s.len() - t.len() && #[trigger] s.subrange(i, i + t.len()) == t;
        assert(s.subrange(i, i + t.len())[k] == s[i + k]);
    }
}

/// With no exports, the assembly files hold no stub: the MASM files no
/// procedure and no pointer declaration, the GNU files no label and no jump.
pub proof fn lemma_empty_assembly_has_no_stubs(ctx: ContextView, x64: bool)
    requires
        ctx.exports.len() == 0,
    ensures
        !contains(masm_source(ctx, x64), " PROC"@),
        !contains(masm_source(ctx, x64), "EXTERN "@),
        !contains(gas_source(ctx, x64), ".globl"@),
        !contains(gas_source(ctx, x64), "jmp"@),
{
    lemma_empty_export_table(ctx, LineKind::MasmJump { x64 });
    reveal_strlit(" PROC");
    reveal_strlit("EXTERN ");
    reveal_strlit("; x64 jump stubs: each export jumps through its resolved pointer.\n\n");
    reveal_strlit("; x86 jump stubs: each export jumps through its resolved pointer.\n.386\n.model flat, C\n\n");
    reveal_strlit("\n.code\n\n");
    reveal_strlit("END\n");
    let m = masm_source(ctx, x64);
    assert forall|j: int| 0 <= j < m.len() implies #[trigger] m[j] != 'P' && m[j] != 'X' by {}
    lemma_not_contains_missing_char(m, " PROC"@, 1);
    lemma_not_contains_missing_char(m, "EXTERN "@, 1);
    reveal_strlit(".globl");
    reveal_strlit("jmp");
    reveal_strlit("    .intel_syntax noprefix\n    .text\n\n");
    let g = gas_source(ctx, x64);
    assert forall|j: int| 0 <= j < g.len() implies #[trigger] g[j] != 'g' && g[j] != 'j' by {}
    lemma_not_contains_missing_char(g, ".globl"@, 1);
    lemma_not_contains_missing_char(g, "jmp"@, 0);
}

} // verus!
