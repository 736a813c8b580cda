//! An on-access file screening engine: exact-hash signature matching,
//! printable-string heuristics and a narrow x86-64 byte-pattern scanner for
//! unbounded `scanf("%s", ...)` calls inside an ELF executable's `main`.

pub mod analyzer;
pub mod definitions;
pub mod elf_image;
pub mod scanner;
pub mod strings;

pub use analyzer::{AnalyzedLevel, Analyzer, DetectionError, LiskType};
pub use definitions::{Definition, Definitions};
pub use elf_image::{find_symbol, inspect_elf, locate_and_scan, virtual_to_file_offset, ElfSymbol, SectionDescriptor};
pub use scanner::scan_for_vulnerable_scanf;
pub use strings::{get_readable_strings, select_suspicious};
