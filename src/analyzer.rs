//! The analysis session: the current target, its bytes, format and hash, and
//! the two-phase contract (heuristic triage, then static inspection).
use vstd::prelude::*;

use file_format::FileFormat;
use std::path::PathBuf;

use crate::definitions::{
    copy_definition, definitions_view, find_definition, first_match, Definition, DefinitionView,
};
use crate::elf_image::{
    elf_layout, image_verdict, inspect_elf, ElfSymbol, SectionDescriptor, TEXT_SECTION,
};
use crate::strings::{get_readable_strings, select_suspicious, suspicious_strings, views_of};

verus! {

/// `std::path::PathBuf`, the target's path, carried through unread.
#[verifier::external_type_specification]
#[verifier::external_body]
pub struct ExPathBuf(PathBuf);

/// `file_format::FileFormat`, the detected format, kept for the session's
/// callers; the phases read only whether it is ELF.
#[verifier::external_type_specification]
#[verifier::external_body]
pub struct ExFileFormat(FileFormat);

/// Relies on `std::path::PathBuf::new`: an empty path.
pub assume_specification[ PathBuf::new ]() -> PathBuf;

/// The lowercase hexadecimal SHA-256 digest of `b`.
pub uninterp spec fn sha256_hex(b: Seq<u8>) -> Seq<char>;

/// Whether the content signature of `b` identifies an ELF file.
pub uninterp spec fn sniffs_as_elf(b: Seq<u8>) -> bool;

/// Relies on `sha256::digest`: the SHA-256 digest of the bytes, hex-encoded.
#[verifier::external_body]
fn digest_hex(b: &[u8]) -> (r: String)
    ensures
        r@ == sha256_hex(b@),
{
    sha256::digest(b)
}

/// Relies on `file_format::FileFormat::from_bytes`: the format that the
/// content's signature gives, paired with whether that format is ELF.
#[verifier::external_body]
fn detect_format(b: &[u8]) -> (r: (FileFormat, bool))
    ensures
        r.1 == sniffs_as_elf(b@),
{
    let f = FileFormat::from_bytes(b);
    (f, matches!(f, FileFormat::ExecutableAndLinkableFormat))
}

/// Relies on `file_format::FileFormat::default`: arbitrary binary data, the
/// format of a session that has read nothing yet.
#[verifier::external_body]
fn unknown_format() -> (r: FileFormat) {
    FileFormat::default()
}

/// How far the analysis of the current target has progressed.
#[derive(Debug, Clone, Copy, PartialEq, Eq, Structural)]
pub enum AnalyzedLevel {
    NotAnalyzed,
    Heuristic,
    Static,
}

/// Why an analysis phase could not complete.
#[derive(Debug, Clone, Copy, PartialEq, Eq, Structural)]
pub enum DetectionError {
    /// The target could not be read, so its format is unknown.
    FormatUnknown,
    /// The static phase was asked to inspect a target that is not an ELF file.
    UnsupportedFormat,
    /// The ELF structures could not be parsed, or an offset left the file.
    MalformedBinary,
}

/// The finding of one analysis phase.
#[derive(Debug, Clone, PartialEq, Eq)]
pub enum LiskType {
    NoFinding,
    /// The content's hash is that of a known-malicious file.
    DangerHash(Definition),
    /// Strings that look like URLs or IPv4 addresses, never empty.
    IncludeSuspiciousStrings(Vec<String>),
    /// `main` calls `scanf` with the format `"%s"`.
    HasVulnerableScanf,
}

/// The mathematical value of a [`LiskType`].
pub enum LiskTypeView {
    NoFinding,
    DangerHash(DefinitionView),
    IncludeSuspiciousStrings(Seq<Seq<char>>),
    HasVulnerableScanf,
}

impl View for LiskType {
    type V = LiskTypeView;

    open spec fn view(&self) -> LiskTypeView {
        match self {
            LiskType::NoFinding => LiskTypeView::NoFinding,
            LiskType::DangerHash(d) => LiskTypeView::DangerHash(d@),
            LiskType::IncludeSuspiciousStrings(v) => LiskTypeView::IncludeSuspiciousStrings(
                views_of(v@),
            ),
            LiskType::HasVulnerableScanf => LiskTypeView::HasVulnerableScanf,
        }
    }
}

/// The outcome of the heuristic phase on content `b` against the signatures
/// `defs`: the first definition with the content's hash; else the suspicious
/// strings, where there are any; else no finding.
pub open spec fn heuristic_outcome(defs: Seq<DefinitionView>, b: Seq<u8>) -> LiskTypeView {
    match first_match(defs, sha256_hex(b)) {
        Some(k) => LiskTypeView::DangerHash(defs[k]),
        None => if suspicious_strings(b).len() > 0 {
            LiskTypeView::IncludeSuspiciousStrings(suspicious_strings(b))
        } else {
            LiskTypeView::NoFinding
        },
    }
}

/// The finding and the level after the static phase, from the level before it
/// and the image's verdict. Where the image lacks the code section or one of
/// the two symbols, nothing is found and the level stays; a completed scan
/// reaches `Static`.
pub open spec fn static_step(level: AnalyzedLevel, verdict: Option<bool>) -> (
    LiskTypeView,
    AnalyzedLevel,
) {
    match verdict {
        None => (LiskTypeView::NoFinding, level),
        Some(true) => (LiskTypeView::HasVulnerableScanf, AnalyzedLevel::Static),
        Some(false) => (LiskTypeView::NoFinding, AnalyzedLevel::Static),
    }
}

/// The state of an analysis session.
pub struct Analyzer {
    sha256_definitions: Vec<Definition>,
    file_bytes: Vec<u8>,
    analyzed_level: AnalyzedLevel,
    analyzing_filepath: PathBuf,
    file_format: FileFormat,
    format_is_elf: bool,
    sha256_hash: String,
}

/// The mathematical value of an [`Analyzer`].
pub struct AnalyzerView {
    pub definitions: Seq<DefinitionView>,
    pub bytes: Seq<u8>,
    pub level: AnalyzedLevel,
    pub path: PathBuf,
    pub format: FileFormat,
    pub is_elf: bool,
    pub hash: Seq<char>,
}

impl View for Analyzer {
    type V = AnalyzerView;

    closed spec fn view(&self) -> AnalyzerView {
        AnalyzerView {
            definitions: definitions_view(self.sha256_definitions@),
            bytes: self.file_bytes@,
            level: self.analyzed_level,
            path: self.analyzing_filepath,
            format: self.file_format,
            is_elf: self.format_is_elf,
            hash: self.sha256_hash@,
        }
    }
}

impl Analyzer {
    /// A session over the given signatures, with no target read yet.
    pub fn new(sha256_definitions: Vec<Definition>) -> (r: Self)
        ensures
            r@.definitions == definitions_view(sha256_definitions@),
            r@.bytes.len() == 0,
            r@.level == AnalyzedLevel::NotAnalyzed,
            !r@.is_elf,
            r@.hash.len() == 0,
    {
        Analyzer {
            sha256_definitions,
            file_bytes: Vec::new(),
            analyzed_level: AnalyzedLevel::NotAnalyzed,
            analyzing_filepath: PathBuf::new(),
            file_format: unknown_format(),
            format_is_elf: false,
            sha256_hash: String::new(),
        }
    }

    pub fn analyzed_level(&self) -> (r: AnalyzedLevel)
        ensures
            r == self@.level,
    {
        self.analyzed_level
    }

    /// Makes `filepath` the target: the level becomes `NotAnalyzed`, whatever
    /// it was, and the previous target's bytes, format and hash are dropped.
    pub fn set_analyzing_filepath(&mut self, filepath: PathBuf)
        ensures
            final(self)@.definitions == old(self)@.definitions,
            final(self)@.path == filepath,
            final(self)@.level == AnalyzedLevel::NotAnalyzed,
            final(self)@.bytes.len() == 0,
            final(self)@.hash.len() == 0,
            !final(self)@.is_elf,
    {
        self.analyzing_filepath = filepath;
        self.analyzed_level = AnalyzedLevel::NotAnalyzed;
        self.file_bytes = Vec::new();
        self.file_format = unknown_format();
        self.format_is_elf = false;
        self.sha256_hash = String::new();
    }

    pub fn analyzing_filepath(&self) -> (r: &PathBuf)
        ensures
            *r == self@.path,
    {
        &self.analyzing_filepath
    }

    pub fn file_format(&self) -> (r: &FileFormat)
        ensures
            *r == self@.format,
    {
        &self.file_format
    }

    /// The heuristic phase on the target's content, `None` where the target
    /// could not be read.
    ///
    /// On content `b` the session records `b`, its format and its hash, the
    /// level becomes `Heuristic` (a level of `Static` stays: it never goes
    /// back for one target), and the outcome is the first definition with
    /// the content's hash (no string is then scanned), else the suspicious
    /// strings of `b`, else no finding. Without content the phase fails with
    /// `FormatUnknown` and changes nothing.
    pub fn analyze_heuristic(&mut self, file_bytes: Option<Vec<u8>>) -> (r: Result<
        LiskType,
        DetectionError,
    >)
        ensures
            match file_bytes {
                None => r == Err::<LiskType, DetectionError>(DetectionError::FormatUnknown)
                    && final(self)@ == old(self)@,
                Some(b) => r matches Ok(t) && t@ == heuristic_outcome(old(self)@.definitions, b@)
                    && final(self)@.definitions == old(self)@.definitions
                    && final(self)@.path == old(self)@.path
                    && final(self)@.bytes == b@
                    && final(self)@.hash == sha256_hex(b@)
                    && final(self)@.is_elf == sniffs_as_elf(b@)
                    && final(self)@.level == (if old(self)@.level == AnalyzedLevel::Static {
                        AnalyzedLevel::Static
                    } else {
                        AnalyzedLevel::Heuristic
                    }),
            },
    {
        let bytes = match file_bytes {
            Some(b) => b,
            None => return Err(DetectionError::FormatUnknown),
        };
        let (format, is_elf) = detect_format(bytes.as_slice());
        self.file_format = format;
        self.format_is_elf = is_elf;
        self.file_bytes = bytes;
        self.sha256_hash = digest_hex(self.file_bytes.as_slice());
        if self.analyzed_level != AnalyzedLevel::Static {
            self.analyzed_level = AnalyzedLevel::Heuristic;
        }

        if let Some(k) = find_definition(&self.sha256_definitions, &self.sha256_hash) {
            let def = copy_definition(&self.sha256_definitions[k]);
            return Ok(LiskType::DangerHash(def));
        }
        let strings = get_readable_strings(self.file_bytes.as_slice());
        let suspicious = select_suspicious(strings);
        if suspicious.len() > 0 {
            Ok(LiskType::IncludeSuspiciousStrings(suspicious))
        } else {
            Ok(LiskType::NoFinding)
        }
    }

    /// The static phase on the content read by the heuristic phase.
    ///
    /// A target that is not ELF fails with `UnsupportedFormat`; an image that
    /// cannot be parsed, or whose scan would read outside it, fails with
    /// `MalformedBinary`; a failure changes nothing. Otherwise the outcome and
    /// the new level are `static_step(level, v)` for the image's own verdict
    /// `v`: an image without a `.text` section, `main` or the `scanf` entry
    /// point finds nothing and leaves the level; a completed scan of `main`
    /// reaches `Static`.
    pub fn analyze_static(&mut self) -> (r: Result<LiskType, DetectionError>)
        ensures
            !old(self)@.is_elf ==> r == Err::<LiskType, DetectionError>(
                DetectionError::UnsupportedFormat,
            ) && final(self)@ == old(self)@,
            old(self)@.is_elf ==> match image_verdict(old(self)@.bytes) {
                Err(e) => r == Err::<LiskType, DetectionError>(e) && final(self)@ == old(self)@,
                Ok(v) => r matches Ok(t) && (t@, final(self)@.level) == static_step(
                    old(self)@.level,
                    v,
                ) && final(self)@ == (AnalyzerView { level: final(self)@.level, ..old(self)@ }),
            },
    {
        if !self.format_is_elf {
            return Err(DetectionError::UnsupportedFormat);
        }
        let verdict = match inspect_elf(self.file_bytes.as_slice()) {
            Ok(v) => v,
            Err(e) => return Err(e),
        };
        match verdict {
            None => Ok(LiskType::NoFinding),
            Some(found) => {
                self.analyzed_level = AnalyzedLevel::Static;
                if found {
                    Ok(LiskType::HasVulnerableScanf)
                } else {
                    Ok(LiskType::NoFinding)
                }
            },
        }
    }
}

/// When the signatures hold a definition whose hash is the content's hash, and
/// no other definition has that hash, the heuristic phase reports exactly that
/// definition.
pub proof fn known_hash_is_reported(defs: Seq<DefinitionView>, b: Seq<u8>, k: int)
    requires
        0 <= k < defs.len(),
        defs[k].hash == sha256_hex(b),
        forall|m: int| 0 <= m < defs.len() && m != k ==> #[trigger] defs[m].hash != defs[k].hash,
    ensures
        heuristic_outcome(defs, b) == LiskTypeView::DangerHash(defs[k]),
{
    let h = sha256_hex(b);
    assert(exists|j: int| 0 <= j < defs.len() && defs[j].hash == h);
    let c = choose|c: int| 0 <= c < defs.len() && defs[c].hash == h
        && forall|m: int| 0 <= m < c ==> defs[m].hash != h;
    assert(defs[c].hash == h);
    assert(c == k);
}

/// Without a signature hit, the heuristic phase reports exactly the suspicious
/// strings of the content, in order, and no finding where there are none.
pub proof fn unmatched_content_reports_its_strings(defs: Seq<DefinitionView>, b: Seq<u8>)
    requires
        forall|m: int| 0 <= m < defs.len() ==> #[trigger] defs[m].hash != sha256_hex(b),
    ensures
        suspicious_strings(b).len() > 0 ==> heuristic_outcome(defs, b)
            == LiskTypeView::IncludeSuspiciousStrings(suspicious_strings(b)),
        suspicious_strings(b).len() == 0 ==> heuristic_outcome(defs, b) == LiskTypeView::NoFinding,
{
    assert(first_match(defs, sha256_hex(b)) is None);
}

/// Two heuristic passes over the same content against the same signatures
/// compute the same hash and the same outcome.
pub proof fn heuristic_pass_is_deterministic(
    defs: Seq<DefinitionView>,
    first: Seq<u8>,
    second: Seq<u8>,
)
    requires
        first == second,
    ensures
        sha256_hex(first) == sha256_hex(second),
        heuristic_outcome(defs, first) == heuristic_outcome(defs, second),
{
}

/// On an image that parses and has no `.text` section, the static phase finds
/// nothing and leaves a level below `Static` below it.
pub proof fn missing_text_section_finds_nothing(
    b: Seq<u8>,
    syms: Option<Seq<ElfSymbol>>,
    level: AnalyzedLevel,
)
    requires
        elf_layout(b, TEXT_SECTION@) == Some((None::<SectionDescriptor>, syms)),
        level != AnalyzedLevel::Static,
    ensures
        image_verdict(b) == Ok::<Option<bool>, DetectionError>(None),
        static_step(level, None) == (LiskTypeView::NoFinding, level),
        static_step(level, None).1 != AnalyzedLevel::Static,
{
}

} // verus!
