//! What the static phase reads from an ELF image: the `.text` section's
//! placement and the symbol table, as plain values.
use vstd::prelude::*;
use vstd::string::StringExecFns;

use elf::endian::LittleEndian;
use elf::ElfBytes;
use elf::ParseError;

use crate::analyzer::DetectionError;
use crate::scanner::{scan_for_vulnerable_scanf, scan_range};

verus! {

/// `elf::ParseError`, the ELF parser's error, carried through unread.
#[verifier::external_type_specification]
#[verifier::external_body]
pub struct ExParseError(ParseError);

/// Where a section lies, in the file and in memory.
#[derive(Debug, Clone, Copy, PartialEq, Eq, Structural)]
pub struct SectionDescriptor {
    pub file_offset: u64,
    pub virtual_address: u64,
}

/// An entry of the symbol table. `name` is `None` where the string table holds
/// no valid name at the entry's name offset.
#[derive(Debug, Clone, PartialEq, Eq)]
pub struct ElfSymbol {
    pub name: Option<String>,
    pub virtual_address: u64,
    pub size: u64,
}

/// The symbol that the compiler emits for calls to `scanf`.
pub const SCANF_SYMBOL: &'static str = "__isoc99_scanf";

/// The section that holds the executable code.
pub const TEXT_SECTION: &'static str = ".text";

/// The program's entry function.
pub const MAIN_SYMBOL: &'static str = "main";

/// The file offset that corresponds to `address` in a section, valid for the
/// addresses that the section covers.
pub open spec fn file_offset_of(section: SectionDescriptor, address: int) -> int {
    address - section.virtual_address + section.file_offset
}

/// `sym` is named `name`.
pub open spec fn has_name(sym: ElfSymbol, name: Seq<char>) -> bool {
    sym.name matches Some(n) && n@ == name
}

/// No symbol before index `k` is named `name`.
pub open spec fn unnamed_before(syms: Seq<ElfSymbol>, name: Seq<char>, k: int) -> bool {
    forall|m: int| 0 <= m < k ==> !has_name(#[trigger] syms[m], name)
}

/// The index of the first symbol named `name`, if any.
pub open spec fn first_named(syms: Seq<ElfSymbol>, name: Seq<char>) -> Option<int> {
    if exists|k: int| 0 <= k < syms.len() && has_name(syms[k], name) {
        Some(choose|k: int| 0 <= k < syms.len() && has_name(syms[k], name)
            && unnamed_before(syms, name, k))
    } else {
        None
    }
}

/// The static verdict on an image whose `.text` section is `text` and whose
/// symbols are `syms`: `Ok(None)` when `main` or the `scanf` entry point is
/// missing, else the scan of `main`'s body.
pub open spec fn main_scan_verdict(
    b: Seq<u8>,
    text: SectionDescriptor,
    syms: Seq<ElfSymbol>,
) -> Result<Option<bool>, DetectionError> {
    match (first_named(syms, SCANF_SYMBOL@), first_named(syms, MAIN_SYMBOL@)) {
        (Some(s), Some(m)) => match scan_range(
            b,
            file_offset_of(text, syms[m].virtual_address as int),
            syms[m].size as int,
            syms[m].virtual_address as int,
            syms[s].virtual_address as int,
        ) {
            Ok(f) => Ok(Some(f)),
            Err(e) => Err(e),
        },
        _ => Ok(None),
    }
}

/// The static verdict on an image whose `.text` section is `text` (`None`
/// where it has none) and whose symbols are `syms`.
pub open spec fn static_verdict(
    b: Seq<u8>,
    text: Option<SectionDescriptor>,
    syms: Seq<ElfSymbol>,
) -> Result<Option<bool>, DetectionError> {
    match text {
        None => Ok(None),
        Some(t) => main_scan_verdict(b, t, syms),
    }
}

/// What the ELF parser reads from `b` as a little-endian image: the placement
/// of the first section named `section` (`None` where there is none) and the
/// symbol table (`None` where there is none); `None` where a structure fails
/// to parse.
pub uninterp spec fn elf_layout(b: Seq<u8>, section: Seq<char>) -> Option<
    (Option<SectionDescriptor>, Option<Seq<ElfSymbol>>),
>;

/// The view of an optional symbol list.
pub open spec fn symbols_view(s: Option<Vec<ElfSymbol>>) -> Option<Seq<ElfSymbol>> {
    match s {
        Some(v) => Some(v@),
        None => None,
    }
}

/// Relies on `elf::ElfBytes::<LittleEndian>::minimal_parse`, then
/// `ElfBytes::section_header_by_name`, `ElfBytes::symbol_table` and
/// `elf::string_table::StringTable::get`: the named section's file offset and
/// address, and the symbol table's entries in table order (up to the first
/// that does not parse), each named through the linked string table.
#[verifier::external_body]
fn read_elf_layout(bytes: &[u8], section: &str) -> (r: Result<
    (Option<SectionDescriptor>, Option<Vec<ElfSymbol>>),
    ParseError,
>)
    ensures
        r is Err <==> elf_layout(bytes@, section@) is None,
        r matches Ok((t, s)) ==> elf_layout(bytes@, section@) == Some((t, symbols_view(s))),
{
    let elf = ElfBytes::<LittleEndian>::minimal_parse(bytes)?;
    let text = elf.section_header_by_name(section)?.map(
        |h| SectionDescriptor { file_offset: h.sh_offset, virtual_address: h.sh_addr },
    );
    let symbols = elf.symbol_table()?.map(|(symtab, strtab)| symtab.iter().map(|s| ElfSymbol {
        name: strtab.get(s.st_name as usize).ok().map(String::from),
        virtual_address: s.st_value,
        size: s.st_size,
    }).collect());
    Ok((text, symbols))
}

/// The static verdict on the image held in `b`: a malformed binary where the
/// parser fails, else the verdict on its own `.text` section and symbols (no
/// symbol table counts as no symbols).
pub open spec fn image_verdict(b: Seq<u8>) -> Result<Option<bool>, DetectionError> {
    match elf_layout(b, TEXT_SECTION@) {
        None => Err(DetectionError::MalformedBinary),
        Some((text, syms)) => static_verdict(
            b,
            text,
            match syms {
                Some(s) => s,
                None => Seq::empty(),
            },
        ),
    }
}

/// The index of the first symbol, in table order, named `name`.
pub fn find_symbol(symbols: &Vec<ElfSymbol>, name: &String) -> (r: Option<usize>)
    ensures
        r matches Some(k) ==> k < symbols@.len() && first_named(symbols@, name@) == Some(k as int),
        r is None ==> first_named(symbols@, name@) is None,
{
    let mut k: usize = 0;
    while k < symbols.len()
        invariant
            k <= symbols@.len(),
            unnamed_before(symbols@, name@, k as int),
        decreases symbols@.len() - k,
    {
        let hit = match &symbols[k].name {
            Some(n) => *n == *name,
            None => false,
        };
        if hit {
            proof {
                let syms = symbols@;
                assert(has_name(syms[k as int], name@));
                let c = choose|c: int| 0 <= c < syms.len() && has_name(syms[c], name@)
                    && unnamed_before(syms, name@, c);
                if c < k as int {
                    assert(!has_name(syms[c], name@));
                }
                if c > k as int {
                    assert(!has_name(syms[k as int], name@));
                }
            }
            return Some(k);
        }
        k = k + 1;
    }
    None
}

/// Translates a virtual address into a file offset through `section`; `None`
/// where the result is negative or does not fit in 64 bits.
pub fn virtual_to_file_offset(section: &SectionDescriptor, address: u64) -> (r: Option<u64>)
    ensures
        r matches Some(o) ==> o == file_offset_of(*section, address as int),
        r is None <==> (file_offset_of(*section, address as int) < 0 || file_offset_of(
            *section,
            address as int,
        ) > u64::MAX),
{
    let o: i128 = address as i128 - section.virtual_address as i128 + section.file_offset as i128;
    if o < 0 || o > u64::MAX as i128 {
        None
    } else {
        Some(o as u64)
    }
}

/// Resolves `main` and the `scanf` entry point among `symbols` and scans
/// `main`'s body, placed through the `.text` section `text`.
pub fn locate_and_scan(bytes: &[u8], text: &SectionDescriptor, symbols: &Vec<ElfSymbol>) -> (r:
    Result<Option<bool>, DetectionError>)
    ensures
        r == main_scan_verdict(bytes@, *text, symbols@),
{
    let scanf_name = String::from_str(SCANF_SYMBOL);
    let main_name = String::from_str(MAIN_SYMBOL);
    let s = match find_symbol(symbols, &scanf_name) {
        Some(s) => s,
        None => return Ok(None),
    };
    let m = match find_symbol(symbols, &main_name) {
        Some(m) => m,
        None => return Ok(None),
    };
    let main_va = symbols[m].virtual_address;
    let start = match virtual_to_file_offset(text, main_va) {
        Some(o) => o,
        None => {
            // The offset is negative or exceeds any buffer length.
            let n: usize = bytes.len();
            assert(n as int <= u64::MAX);
            return Err(DetectionError::MalformedBinary);
        },
    };
    match scan_for_vulnerable_scanf(bytes, start, symbols[m].size, main_va, symbols[s].virtual_address) {
        Ok(f) => Ok(Some(f)),
        Err(e) => Err(e),
    }
}

/// The static phase on an ELF image held in `bytes`: `Ok(None)` where the
/// image has no `.text` section or lacks one of the two symbols, `Ok(Some(f))`
/// where `main` was scanned, with `f` whether the pattern was found, and a
/// malformed binary where the image does not parse or a read leaves it.
pub fn inspect_elf(bytes: &[u8]) -> (r: Result<Option<bool>, DetectionError>)
    ensures
        r == image_verdict(bytes@),
{
    let (text, symbols) = match read_elf_layout(bytes, TEXT_SECTION) {
        Ok(layout) => layout,
        Err(_) => return Err(DetectionError::MalformedBinary),
    };
    let text = match text {
        Some(t) => t,
        None => return Ok(None),
    };
    let symbols = match symbols {
        Some(syms) => syms,
        None => Vec::new(),
    };
    assert(symbols@ == match elf_layout(bytes@, TEXT_SECTION@).unwrap().1 {
        Some(s) => s,
        None => Seq::<ElfSymbol>::empty(),
    });
    locate_and_scan(bytes, &text, &symbols)
}

} // verus!
