//! The export table of a PE image: what the reader recovers from it, and the
//! rules that turn goblin's view of the export directory into
//! [`ExportEntry`] values.

use crate::text::{decimal, push_char, push_decimal};
use goblin::pe::export::Reexport;
use vstd::prelude::*;
use vstd::string::*;

verus! {

/// One exported symbol of the source binary.
#[derive(Debug, Clone)]
pub struct ExportEntry {
    /// The export name, or `#<ordinal>` for an export by ordinal only.
    pub name: String,
    pub ordinal: u16,
    /// `<lib>!<name>` or `<lib>!#<ordinal>` for a forwarded export.
    pub forwarder: Option<String>,
}

pub struct ExportEntryView {
    pub name: Seq<char>,
    pub ordinal: u16,
    pub forwarder: Option<Seq<char>>,
}

pub open spec fn opt_string_view(o: Option<String>) -> Option<Seq<char>> {
    match o {
        Some(s) => Some(s@),
        None => None,
    }
}

impl View for ExportEntry {
    type V = ExportEntryView;

    open spec fn view(&self) -> ExportEntryView {
        ExportEntryView {
            name: self.name@,
            ordinal: self.ordinal,
            forwarder: opt_string_view(self.forwarder),
        }
    }
}

/// The parse result for one binary: its architecture (`"x86"` or `"x64"`)
/// and its exports in directory order.
#[derive(Debug, Clone)]
pub struct DllExports {
    pub arch: String,
    pub exports: Vec<ExportEntry>,
}

pub struct DllExportsView {
    pub arch: Seq<char>,
    pub exports: Seq<ExportEntryView>,
}

impl View for DllExports {
    type V = DllExportsView;

    open spec fn view(&self) -> DllExportsView {
        DllExportsView { arch: self.arch@, exports: self.exports@.map_values(|e: ExportEntry| e@) }
    }
}

/// Why the export table of a binary could not be read.
#[derive(Debug, Clone)]
pub enum ExportError {
    OpenFailed(String),
    ParseFailed(String),
    NoExportTable,
}

/// Where a forwarded export leads: a named export or an ordinal of another
/// module.
#[derive(Debug, Clone)]
pub enum Forward {
    ByName(String, String),
    ByOrdinal(String, usize),
}

/// One entry of goblin's export list, reduced to what the reader uses.
#[derive(Debug, Clone)]
pub struct PeExport {
    pub name: Option<String>,
    pub forward: Option<Forward>,
}

/// What the reader takes from a parsed PE image: its word size, the export
/// directory (ordinal base and ordinal table) if there is one, and the
/// export list in directory order.
#[derive(Debug, Clone)]
pub struct PeImage {
    pub is_64: bool,
    pub export_table: Option<(u32, Vec<u16>)>,
    pub exports: Vec<PeExport>,
}

/// The outcome of parsing `bytes` as a PE image.
pub uninterp spec fn pe_image_of(bytes: Seq<u8>) -> Result<PeImage, String>;

/// Relies on goblin's `PE::parse`, whose outcome depends on the bytes alone:
/// on success it keeps the image's `is_64`, the ordinal base and ordinal
/// table of its export directory, and each export's name and re-export
/// target; on failure, goblin's error message.
#[verifier::external_body]
fn parse_pe_image(bytes: &[u8]) -> (r: Result<PeImage, String>)
    ensures
        r == pe_image_of(bytes@),
{
    let pe = goblin::pe::PE::parse(bytes).map_err(|e| e.to_string())?;
    let export_table = pe.export_data.map(|d| (d.export_directory_table.ordinal_base, d.export_ordinal_table));
    let exports = pe.exports.into_iter().map(|e| PeExport {
        name: e.name.map(String::from),
        forward: e.reexport.map(|x| match x {
            Reexport::DLLName { export, lib } => Forward::ByName(lib.into(), export.into()),
            Reexport::DLLOrdinal { ordinal, lib } => Forward::ByOrdinal(lib.into(), ordinal),
        }),
    }).collect();
    Ok(PeImage { is_64: pe.is_64, export_table, exports })
}

/// The ordinal of the export at `idx` before it is narrowed to 16 bits: the
/// ordinal base plus the entry's ordinal-table value (saturating), or the
/// base alone when the table is shorter than the export list.
pub open spec fn raw_ordinal(base: u32, ordinals: Seq<u16>, idx: int) -> nat {
    if 0 <= idx < ordinals.len() {
        let sum = base as nat + ordinals[idx] as nat;
        if sum > u32::MAX {
            u32::MAX as nat
        } else {
            sum
        }
    } else {
        base as nat
    }
}

pub open spec fn clamp_ordinal(o: nat) -> u16 {
    if o > u16::MAX {
        u16::MAX
    } else {
        o as u16
    }
}

pub open spec fn forwarder_text(f: Option<Forward>) -> Option<Seq<char>> {
    match f {
        Some(Forward::ByName(lib, export)) => Some(lib@ + seq!['!'] + export@),
        Some(Forward::ByOrdinal(lib, ordinal)) => Some(lib@ + seq!['!', '#'] + decimal(ordinal as nat)),
        None => None,
    }
}

/// The entry that the reader makes of the export at `idx`: an export
/// without a name is called `#<ordinal>`.
pub open spec fn entry_of(base: u32, ordinals: Seq<u16>, e: PeExport, idx: int) -> ExportEntryView {
    let o = clamp_ordinal(raw_ordinal(base, ordinals, idx));
    ExportEntryView {
        name: match e.name {
            Some(n) => if n@.len() > 0 {
                n@
            } else {
                seq!['#'] + decimal(o as nat)
            },
            None => seq!['#'] + decimal(o as nat),
        },
        ordinal: o,
        forwarder: forwarder_text(e.forward),
    }
}

pub open spec fn arch_name(is_64: bool) -> Seq<char> {
    if is_64 {
        "x64"@
    } else {
        "x86"@
    }
}

/// The exports that the reader recovers from an image with an export
/// directory.
pub open spec fn exports_view(img: PeImage, base: u32, ordinals: Seq<u16>) -> DllExportsView {
    DllExportsView {
        arch: arch_name(img.is_64),
        exports: Seq::new(img.exports@.len(), |i: int| entry_of(base, ordinals, img.exports@[i], i)),
    }
}

fn forwarder_of(f: &Option<Forward>) -> (r: Option<String>)
    ensures
        opt_string_view(r) == forwarder_text(*f),
{
    match f {
        Some(Forward::ByName(lib, export)) => {
            let mut s = lib.clone();
            push_char(&mut s, '!');
            s.append(export.as_str());
            Some(s)
        },
        Some(Forward::ByOrdinal(lib, ordinal)) => {
            let mut s = lib.clone();
            push_char(&mut s, '!');
            push_char(&mut s, '#');
            push_decimal(&mut s, *ordinal as u64);
            assert(s@ =~= lib@ + seq!['!', '#'] + decimal(*ordinal as nat));
            Some(s)
        },
        None => None,
    }
}

/// Builds the export list of an image: one entry per export, in directory
/// order, with its ordinal, its name (or `#<ordinal>` when it has none) and
/// its forwarder. Fails with `NoExportTable` when the image has no export
/// directory.
pub fn exports_from_image(img: &PeImage) -> (r: Result<DllExports, ExportError>)
    ensures
        match img.export_table {
            None => r == Err::<DllExports, ExportError>(ExportError::NoExportTable),
            Some(t) => r is Ok && r->Ok_0@ == exports_view(*img, t.0, t.1@),
        },
{
    match &img.export_table {
        None => Err(ExportError::NoExportTable),
        Some(table) => {
            let base: u32 = table.0;
            let ordinals = &table.1;
            let mut out: Vec<ExportEntry> = Vec::new();
            let mut idx: usize = 0;
            while idx < img.exports.len()
                invariant
                    idx <= img.exports.len(),
                    out@.len() == idx,
                    forall|i: int| 0 <= i < idx ==> #[trigger] out@[i]@ == entry_of(base, ordinals@, img.exports@[i], i),
                decreases img.exports.len() - idx,
            {
                let e = &img.exports[idx];
                let raw: u32 = if idx < ordinals.len() {
                    let o: u16 = ordinals[idx];
                    if base as u64 + o as u64 > u32::MAX as u64 {
                        u32::MAX
                    } else {
                        base + o as u32
                    }
                } else {
                    base
                };
                let ordinal: u16 = if raw > u16::MAX as u32 {
                    u16::MAX
                } else {
                    raw as u16
                };
                let mut placeholder = String::new();
                push_char(&mut placeholder, '#');
                push_decimal(&mut placeholder, ordinal as u64);
                let name = match &e.name {
                    Some(n) => if n.as_str().is_empty() {
                        placeholder
                    } else {
                        n.clone()
                    },
                    None => placeholder,
                };
                let entry = ExportEntry { name, ordinal, forwarder: forwarder_of(&e.forward) };
                assert(entry@ == entry_of(base, ordinals@, img.exports@[idx as int], idx as int)) by {
                    assert(placeholder@ =~= seq!['#'] + decimal(ordinal as nat));
                }
                out.push(entry);
                idx = idx + 1;
            }
            let arch = if img.is_64 {
                String::from_str("x64")
            } else {
                String::from_str("x86")
            };
            let r = DllExports { arch, exports: out };
            assert(r@.exports =~= exports_view(*img, base, ordinals@).exports);
            Ok(r)
        },
    }
}

/// What reading the export table of `bytes` gives: goblin's message when
/// they are no PE image, `NoExportTable` when the image has no export
/// directory, else the exports in directory order.
pub open spec fn export_outcome(bytes: Seq<u8>) -> Result<DllExportsView, ExportError> {
    match pe_image_of(bytes) {
        Err(msg) => Err(ExportError::ParseFailed(msg)),
        Ok(img) => match img.export_table {
            None => Err(ExportError::NoExportTable),
            Some(t) => Ok(exports_view(img, t.0, t.1@)),
        },
    }
}

/// Reads the export table of the PE image held in `bytes`.
pub fn dll_exports_from_bytes(bytes: &[u8]) -> (r: Result<DllExports, ExportError>)
    ensures
        match export_outcome(bytes@) {
            Err(e) => r == Err::<DllExports, ExportError>(e),
            Ok(v) => r is Ok && r->Ok_0@ == v,
        },
{
    match parse_pe_image(bytes) {
        Err(msg) => Err(ExportError::ParseFailed(msg)),
        Ok(img) => exports_from_image(&img),
    }
}

} // verus!
