use std::path::PathBuf;

use file_sentinel::{
    find_symbol, get_readable_strings, inspect_elf, locate_and_scan, scan_for_vulnerable_scanf,
    select_suspicious, virtual_to_file_offset, AnalyzedLevel, Analyzer, Definition,
    DetectionError, ElfSymbol, LiskType, SectionDescriptor,
};

const TEXT_VA: u64 = 0x401000;
const TEXT_OFF: u64 = 0x40;
const SCANF_VA: u64 = 0x401100;

fn push_u16(v: &mut Vec<u8>, x: u16) {
    v.extend_from_slice(&x.to_le_bytes());
}

fn push_u32(v: &mut Vec<u8>, x: u32) {
    v.extend_from_slice(&x.to_le_bytes());
}

fn push_u64(v: &mut Vec<u8>, x: u64) {
    v.extend_from_slice(&x.to_le_bytes());
}

#[allow(clippy::too_many_arguments)]
fn push_shdr(
    v: &mut Vec<u8>,
    name: u32,
    kind: u32,
    addr: u64,
    offset: u64,
    size: u64,
    link: u32,
    entsize: u64,
) {
    push_u32(v, name);
    push_u32(v, kind);
    push_u64(v, 0);
    push_u64(v, addr);
    push_u64(v, offset);
    push_u64(v, size);
    push_u32(v, link);
    push_u32(v, 0);
    push_u64(v, 1);
    push_u64(v, entsize);
}

fn push_sym(v: &mut Vec<u8>, name: u32, value: u64, size: u64) {
    push_u32(v, name);
    v.push(0x12);
    v.push(0);
    push_u16(v, 1);
    push_u64(v, value);
    push_u64(v, size);
}

/// A small x86-64 ELF image whose code section (named `text_name`) holds a
/// `main` that loads the string at code offset 24 with a RIP-relative `lea`
/// and then calls `__isoc99_scanf`; `literal` is placed at that offset.
fn synthetic_elf(text_name: &str, literal: &[u8; 3]) -> Vec<u8> {
    // main: push rbp; lea rax,[rip+16]; mov rdi,rax; call scanf; leave; ret
    let mut code: Vec<u8> = vec![0x55, 0x48, 0x8D, 0x05];
    push_u32(&mut code, 16);
    code.extend_from_slice(&[0x48, 0x89, 0xC7, 0xE8]);
    let call_next = TEXT_VA + 11 + 5;
    push_u32(&mut code, (SCANF_VA - call_next) as u32);
    code.extend_from_slice(&[0xC9, 0xC3]);
    let main_size = code.len() as u64;
    code.resize(24, 0x90);
    code.extend_from_slice(literal);
    code.resize(32, 0);

    let mut shstrtab: Vec<u8> = vec![0];
    let text_name_off = shstrtab.len() as u32;
    shstrtab.extend_from_slice(text_name.as_bytes());
    shstrtab.push(0);
    let symtab_name_off = shstrtab.len() as u32;
    shstrtab.extend_from_slice(b".symtab\0");
    let strtab_name_off = shstrtab.len() as u32;
    shstrtab.extend_from_slice(b".strtab\0");
    let shstrtab_name_off = shstrtab.len() as u32;
    shstrtab.extend_from_slice(b".shstrtab\0");

    let strtab: Vec<u8> = b"\0main\0__isoc99_scanf\0".to_vec();
    let mut symtab: Vec<u8> = Vec::new();
    push_sym(&mut symtab, 0, 0, 0);
    push_sym(&mut symtab, 1, TEXT_VA, main_size);
    push_sym(&mut symtab, 6, SCANF_VA, 0);

    let text_off = TEXT_OFF;
    let symtab_off = text_off + code.len() as u64;
    let strtab_off = symtab_off + symtab.len() as u64;
    let shstrtab_off = strtab_off + strtab.len() as u64;
    let shoff = shstrtab_off + shstrtab.len() as u64;

    let mut f: Vec<u8> = vec![0x7F, b'E', b'L', b'F', 2, 1, 1, 0];
    f.resize(16, 0);
    push_u16(&mut f, 2);
    push_u16(&mut f, 0x3E);
    push_u32(&mut f, 1);
    push_u64(&mut f, TEXT_VA);
    push_u64(&mut f, 0);
    push_u64(&mut f, shoff);
    push_u32(&mut f, 0);
    push_u16(&mut f, 64);
    push_u16(&mut f, 56);
    push_u16(&mut f, 0);
    push_u16(&mut f, 64);
    push_u16(&mut f, 5);
    push_u16(&mut f, 4);
    assert_eq!(f.len() as u64, TEXT_OFF);

    f.extend_from_slice(&code);
    f.extend_from_slice(&symtab);
    f.extend_from_slice(&strtab);
    f.extend_from_slice(&shstrtab);

    push_shdr(&mut f, 0, 0, 0, 0, 0, 0, 0);
    push_shdr(&mut f, text_name_off, 1, TEXT_VA, text_off, code.len() as u64, 0, 0);
    push_shdr(&mut f, symtab_name_off, 2, 0, symtab_off, symtab.len() as u64, 3, 24);
    push_shdr(&mut f, strtab_name_off, 3, 0, strtab_off, strtab.len() as u64, 0, 0);
    push_shdr(&mut f, shstrtab_name_off, 3, 0, shstrtab_off, shstrtab.len() as u64, 0, 0);
    f
}

fn analyzer_on(defs: Vec<Definition>, content: &[u8]) -> (Analyzer, Result<LiskType, DetectionError>) {
    let mut analyzer = Analyzer::new(defs);
    analyzer.set_analyzing_filepath(PathBuf::from("target.bin"));
    let r = analyzer.analyze_heuristic(Some(content.to_vec()));
    (analyzer, r)
}

fn strings(v: &[&str]) -> Vec<String> {
    v.iter().map(|s| s.to_string()).collect()
}

#[test]
fn known_hash_is_reported_as_danger() {
    let def = Definition { title: "EvilBot".to_string(), hash: sha256::digest("MALWARE_BYTES") };
    let (analyzer, r) = analyzer_on(vec![def.clone()], b"MALWARE_BYTES");
    assert_eq!(r, Ok(LiskType::DangerHash(def)));
    assert_eq!(analyzer.analyzed_level(), AnalyzedLevel::Heuristic);
}

#[test]
fn first_of_duplicate_hashes_wins() {
    let h = sha256::digest("MALWARE_BYTES");
    let first = Definition { title: "First".to_string(), hash: h.clone() };
    let second = Definition { title: "Second".to_string(), hash: h };
    let other = Definition { title: "Other".to_string(), hash: sha256::digest("x") };
    let (_, r) = analyzer_on(vec![other, first.clone(), second], b"MALWARE_BYTES");
    assert_eq!(r, Ok(LiskType::DangerHash(first)));
}

#[test]
fn hash_hit_skips_string_scan() {
    let content = b"http://evil.example.com/payload";
    let def = Definition { title: "Dropper".to_string(), hash: sha256::digest(&content[..]) };
    let (_, r) = analyzer_on(vec![def.clone()], content);
    assert_eq!(r, Ok(LiskType::DangerHash(def)));
}

#[test]
fn url_in_content_is_suspicious() {
    let (_, r) = analyzer_on(vec![], b"hi\0http://evil.example.com/payload\0hello world\0");
    assert_eq!(
        r,
        Ok(LiskType::IncludeSuspiciousStrings(strings(&["http://evil.example.com/payload"])))
    );
}

#[test]
fn ipv4_run_is_suspicious_and_short_run_dropped() {
    let (analyzer, r) = analyzer_on(vec![], b"192.168.1.1\0hi\0");
    assert_eq!(r, Ok(LiskType::IncludeSuspiciousStrings(strings(&["192.168.1.1"]))));
    assert_eq!(analyzer.analyzed_level(), AnalyzedLevel::Heuristic);
}

#[test]
fn out_of_range_octet_is_not_ipv4() {
    let (_, r) = analyzer_on(vec![], b"192.168.1.256\0");
    assert_eq!(r, Ok(LiskType::NoFinding));
}

#[test]
fn suspicious_strings_keep_order_and_duplicates() {
    let (_, r) = analyzer_on(vec![], b"10.0.0.1\0example.org\0plain words\010.0.0.1");
    assert_eq!(
        r,
        Ok(LiskType::IncludeSuspiciousStrings(strings(&["10.0.0.1", "example.org", "10.0.0.1"])))
    );
}

#[test]
fn benign_content_has_no_finding() {
    let (analyzer, r) = analyzer_on(vec![], b"just some words\0abc\0\0");
    assert_eq!(r, Ok(LiskType::NoFinding));
    assert_eq!(analyzer.analyzed_level(), AnalyzedLevel::Heuristic);
}

#[test]
fn empty_content_has_no_finding() {
    let (_, r) = analyzer_on(vec![], b"");
    assert_eq!(r, Ok(LiskType::NoFinding));
}

#[test]
fn unreadable_target_is_format_unknown() {
    let mut analyzer = Analyzer::new(vec![]);
    analyzer.set_analyzing_filepath(PathBuf::from("missing"));
    assert_eq!(analyzer.analyze_heuristic(None), Err(DetectionError::FormatUnknown));
    assert_eq!(analyzer.analyzed_level(), AnalyzedLevel::NotAnalyzed);
}

#[test]
fn heuristic_pass_twice_gives_same_outcome() {
    let content = b"192.168.1.1\0hi\0";
    let mut analyzer = Analyzer::new(vec![]);
    analyzer.set_analyzing_filepath(PathBuf::from("t"));
    let first = analyzer.analyze_heuristic(Some(content.to_vec()));
    let second = analyzer.analyze_heuristic(Some(content.to_vec()));
    assert_eq!(first, second);
}

#[test]
fn set_target_resets_level() {
    let (mut analyzer, _) = analyzer_on(vec![], &synthetic_elf(".text", b"%s\0"));
    assert_eq!(analyzer.analyze_static(), Ok(LiskType::HasVulnerableScanf));
    assert_eq!(analyzer.analyzed_level(), AnalyzedLevel::Static);
    analyzer.set_analyzing_filepath(PathBuf::from("next"));
    assert_eq!(analyzer.analyzed_level(), AnalyzedLevel::NotAnalyzed);
    assert_eq!(analyzer.analyzing_filepath(), &PathBuf::from("next"));
    analyzer.set_analyzing_filepath(PathBuf::from("next"));
    assert_eq!(analyzer.analyzed_level(), AnalyzedLevel::NotAnalyzed);
}

#[test]
fn static_on_plain_text_is_unsupported() {
    let (mut analyzer, _) = analyzer_on(vec![], b"plain text, nothing more\n");
    assert_eq!(analyzer.analyze_static(), Err(DetectionError::UnsupportedFormat));
    assert_eq!(analyzer.analyzed_level(), AnalyzedLevel::Heuristic);
}

#[test]
fn static_before_any_read_is_unsupported() {
    let mut analyzer = Analyzer::new(vec![]);
    assert_eq!(analyzer.analyze_static(), Err(DetectionError::UnsupportedFormat));
    assert_eq!(analyzer.analyzed_level(), AnalyzedLevel::NotAnalyzed);
}

#[test]
fn scanf_with_percent_s_is_vulnerable() {
    let (mut analyzer, r) = analyzer_on(vec![], &synthetic_elf(".text", b"%s\0"));
    assert!(r.is_ok());
    assert_eq!(analyzer.analyze_static(), Ok(LiskType::HasVulnerableScanf));
    assert_eq!(analyzer.analyzed_level(), AnalyzedLevel::Static);
}

#[test]
fn scanf_with_percent_d_is_not_vulnerable() {
    let (mut analyzer, _) = analyzer_on(vec![], &synthetic_elf(".text", b"%d\0"));
    assert_eq!(analyzer.analyze_static(), Ok(LiskType::NoFinding));
    assert_eq!(analyzer.analyzed_level(), AnalyzedLevel::Static);
}

#[test]
fn elf_without_text_section_finds_nothing() {
    let (mut analyzer, _) = analyzer_on(vec![], &synthetic_elf(".code", b"%s\0"));
    assert_eq!(analyzer.analyze_static(), Ok(LiskType::NoFinding));
    assert_eq!(analyzer.analyzed_level(), AnalyzedLevel::Heuristic);
}

#[test]
fn truncated_elf_is_malformed() {
    let mut image = synthetic_elf(".text", b"%s\0");
    image.truncate(40);
    let (mut analyzer, _) = analyzer_on(vec![], &image);
    assert_eq!(analyzer.analyze_static(), Err(DetectionError::MalformedBinary));
    assert_eq!(analyzer.analyzed_level(), AnalyzedLevel::Heuristic);
}

#[test]
fn inspect_elf_reports_scan_verdict() {
    assert_eq!(inspect_elf(&synthetic_elf(".text", b"%s\0")), Ok(Some(true)));
    assert_eq!(inspect_elf(&synthetic_elf(".text", b"%d\0")), Ok(Some(false)));
    assert_eq!(inspect_elf(&synthetic_elf(".code", b"%s\0")), Ok(None));
    assert_eq!(inspect_elf(b"not an elf"), Err(DetectionError::MalformedBinary));
}

fn sym(name: &str, va: u64, size: u64) -> ElfSymbol {
    ElfSymbol { name: Some(name.to_string()), virtual_address: va, size }
}

#[test]
fn find_symbol_takes_first_exact_name() {
    let syms = vec![
        ElfSymbol { name: None, virtual_address: 0, size: 0 },
        sym("Main", 1, 1),
        sym("main", 2, 2),
        sym("main", 3, 3),
    ];
    assert_eq!(find_symbol(&syms, &"main".to_string()), Some(2));
    assert_eq!(find_symbol(&syms, &"scanf".to_string()), None);
}

#[test]
fn file_offset_follows_section_placement() {
    let text = SectionDescriptor { file_offset: 0x1000, virtual_address: 0x401000 };
    assert_eq!(virtual_to_file_offset(&text, 0x401234), Some(0x1234));
    assert_eq!(virtual_to_file_offset(&text, 0x400000), Some(0));
    assert_eq!(virtual_to_file_offset(&text, 0x3FF000), None);
}

/// `main` at offset 0 of `bytes` (virtual address 0x1000): a `lea` at 0, the
/// call at 7, the literal at offset 12.
fn raw_main(literal: &[u8; 3], scanf_va: u64) -> Vec<u8> {
    let mut b: Vec<u8> = vec![0x48, 0x8D, 0x05];
    b.extend_from_slice(&5i32.to_le_bytes());
    b.push(0xE8);
    let disp = scanf_va as i64 - (0x1000 + 7 + 5);
    b.extend_from_slice(&(disp as i32).to_le_bytes());
    b.extend_from_slice(literal);
    b
}

#[test]
fn scanner_finds_percent_s_call() {
    let b = raw_main(b"%s\0", 0x2000);
    assert_eq!(scan_for_vulnerable_scanf(&b, 0, 12, 0x1000, 0x2000), Ok(true));
}

#[test]
fn scanner_ignores_calls_elsewhere() {
    let b = raw_main(b"%s\0", 0x2000);
    assert_eq!(scan_for_vulnerable_scanf(&b, 0, 12, 0x1000, 0x3000), Ok(false));
}

#[test]
fn scanner_handles_backward_call() {
    let b = raw_main(b"%s\0", 0x0800);
    assert_eq!(scan_for_vulnerable_scanf(&b, 0, 12, 0x1000, 0x0800), Ok(true));
}

#[test]
fn scanner_rejects_range_outside_buffer() {
    let b = raw_main(b"%s\0", 0x2000);
    assert_eq!(
        scan_for_vulnerable_scanf(&b, 4, 100, 0x1000, 0x2000),
        Err(DetectionError::MalformedBinary)
    );
}

#[test]
fn scanner_rejects_call_operand_past_end() {
    let b: Vec<u8> = vec![0x90, 0x90, 0xE8, 0x00];
    assert_eq!(scan_for_vulnerable_scanf(&b, 0, 4, 0, 0), Err(DetectionError::MalformedBinary));
}

#[test]
fn scanner_needs_seven_bytes_before_call() {
    // The `lea` ends right where the call starts only when it starts 7 bytes earlier.
    let mut b: Vec<u8> = vec![0x90];
    b.extend_from_slice(&raw_main(b"%s\0", 0x2000));
    assert_eq!(scan_for_vulnerable_scanf(&b, 1, 12, 0x1000, 0x2000), Ok(true));
    assert_eq!(scan_for_vulnerable_scanf(&b, 2, 11, 0x1001, 0x2000), Ok(false));
}

#[test]
fn locate_and_scan_needs_both_symbols() {
    let b = raw_main(b"%s\0", 0x2000);
    let text = SectionDescriptor { file_offset: 0, virtual_address: 0x1000 };
    let both = vec![sym("main", 0x1000, 12), sym("__isoc99_scanf", 0x2000, 0)];
    assert_eq!(locate_and_scan(&b, &text, &both), Ok(Some(true)));
    let no_scanf = vec![sym("main", 0x1000, 12)];
    assert_eq!(locate_and_scan(&b, &text, &no_scanf), Ok(None));
    let no_main = vec![sym("__isoc99_scanf", 0x2000, 0)];
    assert_eq!(locate_and_scan(&b, &text, &no_main), Ok(None));
    let before_text = vec![sym("main", 0x10, 12), sym("__isoc99_scanf", 0x2000, 0)];
    assert_eq!(locate_and_scan(&b, &text, &before_text), Err(DetectionError::MalformedBinary));
}

#[test]
fn readable_strings_split_on_nul_and_drop_short_runs() {
    let got = get_readable_strings(b"\0\0abcd\0abc\0longer run\0xy");
    assert_eq!(got, strings(&["abcd", "longer run"]));
}

#[test]
fn readable_strings_decode_invalid_utf8_lossily() {
    let got = get_readable_strings(b"ab\xFFcd\0");
    assert_eq!(got, strings(&["ab\u{FFFD}cd"]));
}

#[test]
fn readable_strings_count_characters() {
    // Four characters in eight bytes are kept; three in six are not.
    let got = get_readable_strings("\u{e9}\u{e9}\u{e9}\u{e9}\0\u{e9}\u{e9}\u{e9}".as_bytes());
    assert_eq!(got, strings(&["\u{e9}\u{e9}\u{e9}\u{e9}"]));
}

#[test]
fn select_suspicious_keeps_urls_and_addresses() {
    let input = strings(&["www.example.com", "hello", "8.8.8.8", "01.2.3.4", "https://a.io/x"]);
    assert_eq!(
        select_suspicious(input),
        strings(&["www.example.com", "8.8.8.8", "https://a.io/x"])
    );
}

#[test]
fn set_target_drops_previous_content() {
    let (mut analyzer, _) = analyzer_on(vec![], &synthetic_elf(".text", b"%s\0"));
    analyzer.set_analyzing_filepath(PathBuf::from("other"));
    assert_eq!(analyzer.analyze_static(), Err(DetectionError::UnsupportedFormat));
    assert_eq!(analyzer.analyzed_level(), AnalyzedLevel::NotAnalyzed);
}

#[test]
fn heuristic_rerun_keeps_static_level() {
    let image = synthetic_elf(".text", b"%d\0");
    let (mut analyzer, _) = analyzer_on(vec![], &image);
    assert_eq!(analyzer.analyze_static(), Ok(LiskType::NoFinding));
    assert_eq!(analyzer.analyzed_level(), AnalyzedLevel::Static);
    assert!(analyzer.analyze_heuristic(Some(image)).is_ok());
    assert_eq!(analyzer.analyzed_level(), AnalyzedLevel::Static);
}

#[test]
fn elf_without_main_finds_nothing() {
    let mut image = synthetic_elf(".text", b"%s\0");
    let pos = image.windows(6).position(|w| w == b"\0main\0").unwrap();
    image[pos + 1] = b'M';
    let (mut analyzer, _) = analyzer_on(vec![], &image);
    assert_eq!(analyzer.analyze_static(), Ok(LiskType::NoFinding));
    assert_eq!(analyzer.analyzed_level(), AnalyzedLevel::Heuristic);
}
