//! The project-file renderers: static templates whose tokens are filled
//! with the project's identity and with fragments chosen by architecture.
//! A fragment may hold tokens of its own, which later rounds of `fill`
//! resolve.

use crate::fill::{fill, filled, pair_views};
use crate::templates::{ContextView, VsTemplateContext};
use crate::text::{ascii_upper, sanitize_identifier, sanitized, to_ascii_upper};
use vstd::prelude::*;
use vstd::string::*;

verus! {

pub const SOLUTION_TEMPLATE: &'static str = r#"
Microsoft Visual Studio Solution File, Format Version 12.00
# Visual Studio Version 17
VisualStudioVersion = 17.0.31903.59
MinimumVisualStudioVersion = 10.0.40219.1
Project("{8BC9CEB8-8B4A-11D0-8D11-00A0C91BC942}") = "{{PROJECT_NAME}}", "{{PROJECT_NAME}}.vcxproj", "{{PROJECT_GUID}}"
EndProject
Global
	GlobalSection(SolutionConfigurationPlatforms) = preSolution
{{SOLUTION_CONFIGS}}	EndGlobalSection
	GlobalSection(ProjectConfigurationPlatforms) = postSolution
{{PROJECT_CONFIGS}}	EndGlobalSection
	GlobalSection(SolutionProperties) = preSolution
		HideSolutionNode = FALSE
	EndGlobalSection
	GlobalSection(ExtensibilityGlobals) = postSolution
		SolutionGuid = {{SOLUTION_GUID}}
	EndGlobalSection
EndGlobal
"#;

pub const SOLUTION_CONFIGS: &'static str = "\t\tDebug|{{SLN_PLATFORM}} = Debug|{{SLN_PLATFORM}}\n\t\tRelease|{{SLN_PLATFORM}} = Release|{{SLN_PLATFORM}}\n";

pub const SOLUTION_PROJECT_CONFIGS: &'static str = "\t\t{{PROJECT_GUID}}.Debug|{{SLN_PLATFORM}}.ActiveCfg = Debug|{{PLATFORM}}\n\t\t{{PROJECT_GUID}}.Debug|{{SLN_PLATFORM}}.Build.0 = Debug|{{PLATFORM}}\n\t\t{{PROJECT_GUID}}.Release|{{SLN_PLATFORM}}.ActiveCfg = Release|{{PLATFORM}}\n\t\t{{PROJECT_GUID}}.Release|{{SLN_PLATFORM}}.Build.0 = Release|{{PLATFORM}}\n";

pub const VCXPROJ_TEMPLATE: &'static str = r#"<?xml version="1.0" encoding="utf-8"?>
<Project DefaultTargets="Build" xmlns="http://schemas.microsoft.com/developer/msbuild/2003">
  <ItemGroup Label="ProjectConfigurations">
{{PROJECT_CONFIGS}}  </ItemGroup>
  <PropertyGroup Label="Globals">
    <Keyword>Win32Proj</Keyword>
    <ProjectGuid>{{PROJECT_GUID}}</ProjectGuid>
    <RootNamespace>{{PROJECT_NAME}}</RootNamespace>
    <ProjectName>{{PROJECT_NAME}}</ProjectName>
  </PropertyGroup>
  <Import Project="$(VCTargetsPath)\Microsoft.Cpp.Default.props" />
{{CONFIG_GROUPS}}  <Import Project="$(VCTargetsPath)\Microsoft.Cpp.props" />
  <ImportGroup Label="ExtensionSettings">
{{EXTENSION_SETTINGS}}  </ImportGroup>
{{PROPERTY_SHEETS}}  <PropertyGroup Label="UserMacros" />
{{ITEM_DEFINITIONS}}{{CL_ITEM_GROUP}}{{ASM_ITEM_GROUP}}  <ItemGroup>
    <None Include="{{BASE}}.def" />
  </ItemGroup>
  <Import Project="$(VCTargetsPath)\Microsoft.Cpp.targets" />
  <ImportGroup Label="ExtensionTargets">
{{EXTENSION_TARGETS}}  </ImportGroup>
</Project>
"#;

pub const PROJECT_CONFIG_ENTRIES: &'static str = r#"    <ProjectConfiguration Include="Debug|{{PLATFORM}}">
      <Configuration>Debug</Configuration>
      <Platform>{{PLATFORM}}</Platform>
    </ProjectConfiguration>
    <ProjectConfiguration Include="Release|{{PLATFORM}}">
      <Configuration>Release</Configuration>
      <Platform>{{PLATFORM}}</Platform>
    </ProjectConfiguration>
"#;

pub const CONFIG_GROUPS: &'static str = r#"  <PropertyGroup Condition="'$(Configuration)|$(Platform)'=='Debug|{{PLATFORM}}'" Label="Configuration">
    <ConfigurationType>DynamicLibrary</ConfigurationType>
    <UseDebugLibraries>true</UseDebugLibraries>
    <PlatformToolset>{{TOOLSET}}</PlatformToolset>
    <CharacterSet>Unicode</CharacterSet>
  </PropertyGroup>
  <PropertyGroup Condition="'$(Configuration)|$(Platform)'=='Release|{{PLATFORM}}'" Label="Configuration">
    <ConfigurationType>DynamicLibrary</ConfigurationType>
    <UseDebugLibraries>false</UseDebugLibraries>
    <PlatformToolset>{{TOOLSET}}</PlatformToolset>
    <WholeProgramOptimization>true</WholeProgramOptimization>
    <CharacterSet>Unicode</CharacterSet>
  </PropertyGroup>
"#;

pub const PROPERTY_SHEETS: &'static str = r#"  <ImportGroup Label="PropertySheets" Condition="'$(Configuration)|$(Platform)'=='Debug|{{PLATFORM}}'">
    <Import Project="$(UserRootDir)\Microsoft.Cpp.$(Platform).user.props" Condition="exists('$(UserRootDir)\Microsoft.Cpp.$(Platform).user.props')" Label="LocalAppDataPlatform" />
  </ImportGroup>
  <ImportGroup Label="PropertySheets" Condition="'$(Configuration)|$(Platform)'=='Release|{{PLATFORM}}'">
    <Import Project="$(UserRootDir)\Microsoft.Cpp.$(Platform).user.props" Condition="exists('$(UserRootDir)\Microsoft.Cpp.$(Platform).user.props')" Label="LocalAppDataPlatform" />
  </ImportGroup>
"#;

pub const ITEM_DEFINITIONS: &'static str = r#"  <ItemDefinitionGroup Condition="'$(Configuration)|$(Platform)'=='Debug|{{PLATFORM}}'">
    <ClCompile>
      <WarningLevel>Level3</WarningLevel>
      <SDLCheck>true</SDLCheck>
      <PreprocessorDefinitions>{{PLATFORM_DEFINES}}_DEBUG;{{EXPORTS_MACRO}};_WINDOWS;_USRDLL;%(PreprocessorDefinitions)</PreprocessorDefinitions>
      <ConformanceMode>true</ConformanceMode>
      <PrecompiledHeader>NotUsing</PrecompiledHeader>
    </ClCompile>
    <Link>
      <SubSystem>Windows</SubSystem>
      <GenerateDebugInformation>true</GenerateDebugInformation>
      <EnableUAC>false</EnableUAC>
    </Link>
  </ItemDefinitionGroup>
  <ItemDefinitionGroup Condition="'$(Configuration)|$(Platform)'=='Release|{{PLATFORM}}'">
    <ClCompile>
      <WarningLevel>Level3</WarningLevel>
      <FunctionLevelLinking>true</FunctionLevelLinking>
      <IntrinsicFunctions>true</IntrinsicFunctions>
      <SDLCheck>true</SDLCheck>
      <PreprocessorDefinitions>{{PLATFORM_DEFINES}}NDEBUG;{{EXPORTS_MACRO}};_WINDOWS;_USRDLL;%(PreprocessorDefinitions)</PreprocessorDefinitions>
      <ConformanceMode>true</ConformanceMode>
      <PrecompiledHeader>NotUsing</PrecompiledHeader>
    </ClCompile>
    <Link>
      <SubSystem>Windows</SubSystem>
      <EnableCOMDATFolding>true</EnableCOMDATFolding>
      <OptimizeReferences>true</OptimizeReferences>
      <GenerateDebugInformation>true</GenerateDebugInformation>
      <EnableUAC>false</EnableUAC>
    </Link>
  </ItemDefinitionGroup>
"#;

pub const CL_ITEM_GROUP: &'static str = "  <ItemGroup>\n    <ClCompile Include=\"{{BASE}}_{{ARCH}}.c\" />\n  </ItemGroup>\n";

pub const ASM_ITEM_GROUP_X64: &'static str = "  <ItemGroup>\n    <MASM Include=\"{{BASE}}_x64_jump.asm\" />\n  </ItemGroup>\n";

pub const MASM_PROPS_X64: &'static str = "    <Import Project=\"$(VCTargetsPath)\\BuildCustomizations\\masm.props\" />\n";

pub const MASM_TARGETS_X64: &'static str = "    <Import Project=\"$(VCTargetsPath)\\BuildCustomizations\\masm.targets\" />\n";

pub const FILTERS_TEMPLATE: &'static str = r#"<?xml version="1.0" encoding="utf-8"?>
<Project ToolsVersion="4.0" xmlns="http://schemas.microsoft.com/developer/msbuild/2003">
  <ItemGroup>
    <Filter Include="Source Files">
      <UniqueIdentifier>{{GUID_SOURCE}}</UniqueIdentifier>
      <Extensions>cpp;c;cc;cxx;def;odl;idl;hpj;bat;asm;asmx</Extensions>
    </Filter>
    <Filter Include="Header Files">
      <UniqueIdentifier>{{GUID_HEADER}}</UniqueIdentifier>
      <Extensions>h;hh;hpp;hxx;hm;inl;inc;ipp;xsd</Extensions>
    </Filter>
    <Filter Include="Resource Files">
      <UniqueIdentifier>{{GUID_RESOURCE}}</UniqueIdentifier>
      <Extensions>rc;ico;cur;bmp;dlg;rc2;rct;bin;rgs;gif;jpg;jpeg;jpe;resx;tiff;tif;png;wav</Extensions>
    </Filter>
  </ItemGroup>
{{FILTER_ITEMGROUPS}}</Project>
"#;

pub const FILTER_ITEMS_C: &'static str = "  <ItemGroup>\n    <ClCompile Include=\"{{BASE}}_{{ARCH}}.c\">\n      <Filter>Source Files</Filter>\n    </ClCompile>\n  </ItemGroup>\n";

pub const FILTER_ITEMS_ASM_X64: &'static str = "  <ItemGroup>\n    <MASM Include=\"{{BASE}}_x64_jump.asm\">\n      <Filter>Source Files</Filter>\n    </MASM>\n  </ItemGroup>\n";

pub const USER_TEMPLATE: &'static str = r#"<?xml version="1.0" encoding="utf-8"?>
<Project ToolsVersion="Current" xmlns="http://schemas.microsoft.com/developer/msbuild/2003">
  <PropertyGroup />
</Project>
"#;

pub const SLNX_TEMPLATE: &'static str = r#"<Solution>
  <Configurations>
{{PLATFORMS}}  </Configurations>
  <Project Path="{{PROJECT_NAME}}.vcxproj" />
</Solution>
"#;

pub const SLNX_PLATFORMS: &'static str = "    <Platform Name=\"{{SLN_PLATFORM}}\" />\n";

pub const CMAKE_TEMPLATE: &'static str = r#"cmake_minimum_required(VERSION 3.15)
project({{PROJECT_NAME}} LANGUAGES C{{CMAKE_ASM_LANGUAGE}})

add_library({{PROJECT_NAME}} SHARED
{{CMAKE_SOURCES}})
set_target_properties({{PROJECT_NAME}} PROPERTIES OUTPUT_NAME "{{BASE}}")
target_compile_definitions({{PROJECT_NAME}} PRIVATE {{EXPORTS_MACRO}} _WINDOWS _USRDLL)
"#;

pub const CMAKE_SOURCES_X64: &'static str = "    {{BASE}}_x64.c\n    {{BASE}}_x64_jump.asm\n";

pub const CMAKE_SOURCES_X86: &'static str = "    {{BASE}}_x86.c\n";

pub const VS2022_TOOLSET: &'static str = "v143";

pub const VS2026_TOOLSET: &'static str = "v145";

pub open spec fn pick_text(x64: bool, a: &str, b: &str) -> Seq<char> {
    if x64 {
        a@
    } else {
        b@
    }
}

fn pick(x64: bool, a: &'static str, b: &'static str) -> (r: String)
    ensures
        r@ == pick_text(x64, a, b),
{
    if x64 {
        String::from_str(a)
    } else {
        String::from_str(b)
    }
}

/// The preprocessor macro of the project: its sanitized, upper-cased name,
/// ending in `_EXPORTS`.
pub open spec fn exports_macro_text(project_name: Seq<char>) -> Seq<char> {
    let m = ascii_upper(sanitized(project_name));
    let suffix = "_EXPORTS"@;
    if m.len() >= suffix.len() && m.subrange(m.len() - suffix.len(), m.len() as int) == suffix {
        m
    } else {
        m + suffix
    }
}

/// Upper-cases the sanitized project name and appends `_EXPORTS` unless it
/// already ends so.
pub fn exports_macro(project_name: &str) -> (r: String)
    ensures
        r@ == exports_macro_text(project_name@),
{
    let clean = sanitize_identifier(project_name);
    let m = to_ascii_upper(clean.as_str());
    let suffix = "_EXPORTS";
    proof {
        reveal_strlit("_EXPORTS");
    }
    let mc = crate::text::chars_of(m.as_str());
    let n: usize = mc.len();
    let mut ends = n >= 8;
    if ends {
        let mut k: usize = 0;
        while k < 8
            invariant
                n == mc@.len(),
                n >= 8,
                mc@ == m@,
                suffix@.len() == 8,
                k <= 8,
                ends ==> forall|j: int| 0 <= j < k ==> mc@[n - 8 + j] == suffix@[j],
                !ends ==> mc@.subrange(n - 8, n as int) != suffix@,
            decreases 8 - k,
        {
            if ends && mc[n - 8 + k] != suffix.get_char(k) {
                ends = false;
                assert(mc@.subrange(n - 8, n as int)[k as int] != suffix@[k as int]);
            }
            k = k + 1;
        }
        if ends {
            assert(mc@.subrange(n - 8, n as int) =~= suffix@);
        }
    }
    if ends {
        m
    } else {
        let mut r = m;
        r.append(suffix);
        r
    }
}

/// The platform name in solution configurations.
pub open spec fn sln_platform(x64: bool) -> Seq<char> {
    pick_text(x64, "x64", "x86")
}

/// The platform name in project configurations.
pub open spec fn vs_platform(x64: bool) -> Seq<char> {
    pick_text(x64, "x64", "Win32")
}

pub open spec fn solution_pairs(ctx: ContextView, x64: bool) -> Seq<(Seq<char>, Seq<char>)> {
    seq![
        ("PROJECT_NAME"@, ctx.project_name),
        ("PROJECT_GUID"@, ctx.guids.project),
        ("SOLUTION_GUID"@, ctx.guids.solution),
        ("SOLUTION_CONFIGS"@, SOLUTION_CONFIGS@),
        ("PROJECT_CONFIGS"@, SOLUTION_PROJECT_CONFIGS@),
        ("SLN_PLATFORM"@, sln_platform(x64)),
        ("PLATFORM"@, vs_platform(x64)),
    ]
}

/// The Visual Studio solution with the configurations of one architecture.
pub fn render_solution(ctx: &VsTemplateContext, is_x64: bool) -> (r: String)
    ensures
        r@ == filled(SOLUTION_TEMPLATE@, solution_pairs(ctx@, is_x64)),
{
    let pairs: Vec<(&str, String)> = vec![
        ("PROJECT_NAME", String::from_str(ctx.project_name)),
        ("PROJECT_GUID", String::from_str(ctx.guids.project)),
        ("SOLUTION_GUID", String::from_str(ctx.guids.solution)),
        ("SOLUTION_CONFIGS", String::from_str(SOLUTION_CONFIGS)),
        ("PROJECT_CONFIGS", String::from_str(SOLUTION_PROJECT_CONFIGS)),
        ("SLN_PLATFORM", pick(is_x64, "x64", "x86")),
        ("PLATFORM", pick(is_x64, "x64", "Win32")),
    ];
    assert(pair_views(pairs@) =~= solution_pairs(ctx@, is_x64));
    fill(SOLUTION_TEMPLATE, pairs.as_slice())
}

pub open spec fn arch_suffix(x64: bool) -> Seq<char> {
    pick_text(x64, "x64", "x86")
}

pub open spec fn vcxproj_pairs(ctx: ContextView, x64: bool, toolset: Seq<char>) -> Seq<
    (Seq<char>, Seq<char>),
> {
    seq![
        ("PROJECT_NAME"@, ctx.project_name),
        ("PROJECT_GUID"@, ctx.guids.project),
        ("BASE"@, ctx.base_name),
        ("PROJECT_CONFIGS"@, PROJECT_CONFIG_ENTRIES@),
        ("CONFIG_GROUPS"@, CONFIG_GROUPS@),
        ("PROPERTY_SHEETS"@, PROPERTY_SHEETS@),
        ("ITEM_DEFINITIONS"@, ITEM_DEFINITIONS@),
        ("CL_ITEM_GROUP"@, CL_ITEM_GROUP@),
        ("ASM_ITEM_GROUP"@, pick_text(x64, ASM_ITEM_GROUP_X64, "")),
        ("EXTENSION_SETTINGS"@, pick_text(x64, MASM_PROPS_X64, "")),
        ("EXTENSION_TARGETS"@, pick_text(x64, MASM_TARGETS_X64, "")),
        ("PLATFORM"@, vs_platform(x64)),
        ("PLATFORM_DEFINES"@, pick_text(x64, "", "WIN32;")),
        ("ARCH"@, arch_suffix(x64)),
        ("TOOLSET"@, toolset),
        ("EXPORTS_MACRO"@, exports_macro_text(ctx.project_name)),
    ]
}

fn render_vcxproj_with(ctx: &VsTemplateContext, is_x64: bool, toolset: &str) -> (r: String)
    ensures
        r@ == filled(VCXPROJ_TEMPLATE@, vcxproj_pairs(ctx@, is_x64, toolset@)),
{
    let pairs: Vec<(&str, String)> = vec![
        ("PROJECT_NAME", String::from_str(ctx.project_name)),
        ("PROJECT_GUID", String::from_str(ctx.guids.project)),
        ("BASE", String::from_str(ctx.base_name)),
        ("PROJECT_CONFIGS", String::from_str(PROJECT_CONFIG_ENTRIES)),
        ("CONFIG_GROUPS", String::from_str(CONFIG_GROUPS)),
        ("PROPERTY_SHEETS", String::from_str(PROPERTY_SHEETS)),
        ("ITEM_DEFINITIONS", String::from_str(ITEM_DEFINITIONS)),
        ("CL_ITEM_GROUP", String::from_str(CL_ITEM_GROUP)),
        ("ASM_ITEM_GROUP", pick(is_x64, ASM_ITEM_GROUP_X64, "")),
        ("EXTENSION_SETTINGS", pick(is_x64, MASM_PROPS_X64, "")),
        ("EXTENSION_TARGETS", pick(is_x64, MASM_TARGETS_X64, "")),
        ("PLATFORM", pick(is_x64, "x64", "Win32")),
        ("PLATFORM_DEFINES", pick(is_x64, "", "WIN32;")),
        ("ARCH", pick(is_x64, "x64", "x86")),
        ("TOOLSET", String::from_str(toolset)),
        ("EXPORTS_MACRO", exports_macro(ctx.project_name)),
    ];
    assert(pair_views(pairs@) =~= vcxproj_pairs(ctx@, is_x64, toolset@));
    fill(VCXPROJ_TEMPLATE, pairs.as_slice())
}

/// The Visual Studio 2022 project (toolset v143) for one architecture: the
/// C file, and for x64 the MASM stubs, are compiled.
pub fn render_vcxproj(ctx: &VsTemplateContext, is_x64: bool) -> (r: String)
    ensures
        r@ == filled(VCXPROJ_TEMPLATE@, vcxproj_pairs(ctx@, is_x64, VS2022_TOOLSET@)),
{
    render_vcxproj_with(ctx, is_x64, VS2022_TOOLSET)
}

/// The Visual Studio 2026 project (toolset v145) for one architecture.
pub fn render_vcxproj_2026(ctx: &VsTemplateContext, is_x64: bool) -> (r: String)
    ensures
        r@ == filled(VCXPROJ_TEMPLATE@, vcxproj_pairs(ctx@, is_x64, VS2026_TOOLSET@)),
{
    render_vcxproj_with(ctx, is_x64, VS2026_TOOLSET)
}

pub open spec fn filters_pairs(ctx: ContextView, x64: bool) -> Seq<(Seq<char>, Seq<char>)> {
    seq![
        ("GUID_SOURCE"@, ctx.guids.filter_source),
        ("GUID_HEADER"@, ctx.guids.filter_header),
        ("GUID_RESOURCE"@, ctx.guids.filter_resource),
        ("FILTER_ITEMGROUPS"@, FILTER_ITEMS_C@ + pick_text(x64, FILTER_ITEMS_ASM_X64, "")),
        ("BASE"@, ctx.base_name),
        ("ARCH"@, arch_suffix(x64)),
    ]
}

/// The filters file that sorts the sources into the IDE's groups.
pub fn render_filters(ctx: &VsTemplateContext, is_x64: bool) -> (r: String)
    ensures
        r@ == filled(FILTERS_TEMPLATE@, filters_pairs(ctx@, is_x64)),
{
    let mut groups = String::from_str(FILTER_ITEMS_C);
    if is_x64 {
        groups.append(FILTER_ITEMS_ASM_X64);
    }
    let pairs: Vec<(&str, String)> = vec![
        ("GUID_SOURCE", String::from_str(ctx.guids.filter_source)),
        ("GUID_HEADER", String::from_str(ctx.guids.filter_header)),
        ("GUID_RESOURCE", String::from_str(ctx.guids.filter_resource)),
        ("FILTER_ITEMGROUPS", groups),
        ("BASE", String::from_str(ctx.base_name)),
        ("ARCH", pick(is_x64, "x64", "x86")),
    ];
    proof {
        reveal_strlit("");
    }
    assert(pair_views(pairs@) =~= filters_pairs(ctx@, is_x64));
    fill(FILTERS_TEMPLATE, pairs.as_slice())
}

/// The filters file of the Visual Studio 2026 project; the layout is the
/// same as for 2022.
pub fn render_filters_2026(ctx: &VsTemplateContext, is_x64: bool) -> (r: String)
    ensures
        r@ == filled(FILTERS_TEMPLATE@, filters_pairs(ctx@, is_x64)),
{
    render_filters(ctx, is_x64)
}

/// The per-user settings file, the same for every project.
pub fn render_user() -> (r: String)
    ensures
        r@ == USER_TEMPLATE@,
{
    String::from_str(USER_TEMPLATE)
}

/// The per-user settings file of the Visual Studio 2026 project.
pub fn render_user_2026() -> (r: String)
    ensures
        r@ == USER_TEMPLATE@,
{
    String::from_str(USER_TEMPLATE)
}

pub open spec fn slnx_pairs(ctx: ContextView, x64: bool) -> Seq<(Seq<char>, Seq<char>)> {
    seq![
        ("PROJECT_NAME"@, ctx.project_name),
        ("PLATFORMS"@, SLNX_PLATFORMS@),
        ("SLN_PLATFORM"@, sln_platform(x64)),
    ]
}

/// The XML solution of Visual Studio 2026.
pub fn render_slnx_2026(ctx: &VsTemplateContext, is_x64: bool) -> (r: String)
    ensures
        r@ == filled(SLNX_TEMPLATE@, slnx_pairs(ctx@, is_x64)),
{
    let pairs: Vec<(&str, String)> = vec![
        ("PROJECT_NAME", String::from_str(ctx.project_name)),
        ("PLATFORMS", String::from_str(SLNX_PLATFORMS)),
        ("SLN_PLATFORM", pick(is_x64, "x64", "x86")),
    ];
    assert(pair_views(pairs@) =~= slnx_pairs(ctx@, is_x64));
    fill(SLNX_TEMPLATE, pairs.as_slice())
}

pub open spec fn cmake_pairs(ctx: ContextView, x64: bool) -> Seq<(Seq<char>, Seq<char>)> {
    seq![
        ("PROJECT_NAME"@, ctx.project_name),
        ("CMAKE_ASM_LANGUAGE"@, pick_text(x64, " ASM_MASM", "")),
        ("CMAKE_SOURCES"@, pick_text(x64, CMAKE_SOURCES_X64, CMAKE_SOURCES_X86)),
        ("BASE"@, ctx.base_name),
        ("EXPORTS_MACRO"@, exports_macro_text(ctx.project_name)),
    ]
}

/// The CMake list file that builds the proxy from the sources of one
/// architecture.
pub fn render_cmake_lists(ctx: &VsTemplateContext, is_x64: bool) -> (r: String)
    ensures
        r@ == filled(CMAKE_TEMPLATE@, cmake_pairs(ctx@, is_x64)),
{
    let pairs: Vec<(&str, String)> = vec![
        ("PROJECT_NAME", String::from_str(ctx.project_name)),
        ("CMAKE_ASM_LANGUAGE", pick(is_x64, " ASM_MASM", "")),
        ("CMAKE_SOURCES", pick(is_x64, CMAKE_SOURCES_X64, CMAKE_SOURCES_X86)),
        ("BASE", String::from_str(ctx.base_name)),
        ("EXPORTS_MACRO", exports_macro(ctx.project_name)),
    ];
    assert(pair_views(pairs@) =~= cmake_pairs(ctx@, is_x64));
    fill(CMAKE_TEMPLATE, pairs.as_slice())
}

} // verus!
