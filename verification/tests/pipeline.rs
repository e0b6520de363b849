use asmhex::config::Config;
use asmhex::config::Dialect;
use asmhex::config::WordSize;
use asmhex::errors::TranscodeError;
use asmhex::forward::assemble_outcome;
use asmhex::forward::assembler_command;
use asmhex::forward::extract_text;
use asmhex::forward::forward_finish;
use asmhex::forward::link_outcome;
use asmhex::forward::linker_command;
use asmhex::sync::Direction;
use asmhex::sync::Focus;
use asmhex::sync::SyncState;
use asmhex::sync::resolve_outcome;

fn text(s: &str) -> Vec<u8> {
    s.as_bytes().to_vec()
}

fn cfg64() -> Config {
    Config { dialect: Dialect::Intel, word_size: WordSize::W64 }
}

fn push_u16(v: &mut Vec<u8>, x: u16) {
    v.extend_from_slice(&x.to_le_bytes());
}

fn push_u32(v: &mut Vec<u8>, x: u32) {
    v.extend_from_slice(&x.to_le_bytes());
}

fn push_u64(v: &mut Vec<u8>, x: u64) {
    v.extend_from_slice(&x.to_le_bytes());
}

fn push_section_header64(
    v: &mut Vec<u8>,
    name: u32,
    kind: u32,
    offset: u64,
    size: u64,
) {
    push_u32(v, name);
    push_u32(v, kind);
    push_u64(v, 0); // sh_flags
    push_u64(v, 0); // sh_addr
    push_u64(v, offset);
    push_u64(v, size);
    push_u32(v, 0); // sh_link
    push_u32(v, 0); // sh_info
    push_u64(v, 1); // sh_addralign
    push_u64(v, 0); // sh_entsize
}

/// A minimal little-endian ELF64 image: header, three section headers
/// (null, `.text`, `.shstrtab`), the string table, then the text bytes.
fn minimal_elf64(text_bytes: &[u8], with_text_section: bool) -> Vec<u8> {
    let shstrtab: &[u8] = b"\0.text\0.shstrtab\0";
    let shoff: u64 = 64;
    let strtab_off: u64 = 64 + 3 * 64;
    let text_off: u64 = strtab_off + shstrtab.len() as u64;

    let mut v: Vec<u8> = Vec::new();
    // e_ident
    v.extend_from_slice(&[0x7f, b'E', b'L', b'F', 2, 1, 1, 0]);
    v.extend_from_slice(&[0; 8]);
    push_u16(&mut v, 2); // e_type: EXEC
    push_u16(&mut v, 62); // e_machine: x86-64
    push_u32(&mut v, 1); // e_version
    push_u64(&mut v, 0); // e_entry
    push_u64(&mut v, 0); // e_phoff
    push_u64(&mut v, shoff);
    push_u32(&mut v, 0); // e_flags
    push_u16(&mut v, 64); // e_ehsize
    push_u16(&mut v, 0); // e_phentsize
    push_u16(&mut v, 0); // e_phnum
    push_u16(&mut v, 64); // e_shentsize
    push_u16(&mut v, 3); // e_shnum
    push_u16(&mut v, 2); // e_shstrndx
    assert_eq!(v.len(), 64);

    push_section_header64(&mut v, 0, 0, 0, 0);
    if with_text_section {
        push_section_header64(&mut v, 1, 1, text_off, text_bytes.len() as u64);
    } else {
        // a section whose name is ".shstrtab", so no ".text" exists
        push_section_header64(&mut v, 7, 1, text_off, text_bytes.len() as u64);
    }
    push_section_header64(&mut v, 7, 3, strtab_off, shstrtab.len() as u64);

    v.extend_from_slice(shstrtab);
    v.extend_from_slice(text_bytes);
    v
}

#[test]
fn extract_text_from_minimal_elf() {
    let data = minimal_elf64(&[0x90, 0x90, 0xc3], true);
    assert_eq!(extract_text(&data, &cfg64()), Ok(vec![0x90, 0x90, 0xc3]));
}

#[test]
fn forward_finish_renders_hex() {
    let data = minimal_elf64(&[0x90, 0x90, 0xc3], true);
    assert_eq!(forward_finish(&data, &cfg64()), Ok(text("90 90 c3")));
}

#[test]
fn missing_text_section_is_reported() {
    let data = minimal_elf64(&[0x90], false);
    assert!(matches!(extract_text(&data, &cfg64()), Err(TranscodeError::MissingSection)));
}

#[test]
fn garbage_binary_is_an_io_error() {
    let data = text("this is not an elf file");
    match extract_text(&data, &cfg64()) {
        Err(TranscodeError::Io(m)) => assert!(!m.is_empty()),
        other => panic!("expected Io, got {:?}", other),
    }
}

#[test]
fn section_past_end_is_rejected() {
    // claim 100 text bytes but provide only 3: the header range exceeds the file
    let mut data = minimal_elf64(&[0x90, 0x90, 0xc3], true);
    // sh_size of the .text header lives at 64 + 64 + 32
    let pos = 64 + 64 + 32;
    data[pos..pos + 8].copy_from_slice(&100u64.to_le_bytes());
    match extract_text(&data, &cfg64()) {
        Err(TranscodeError::Io(m)) => assert_eq!(m, text("section out of range")),
        other => panic!("expected Io, got {:?}", other),
    }
}

#[test]
fn assembler_command_64() {
    let r = assembler_command(&cfg64(), &text("/tmp/in.s"), &text("/tmp/out.o"));
    let want: Vec<Vec<u8>> = vec![text("as"), text("/tmp/in.s"), text("-o"), text("/tmp/out.o")];
    assert_eq!(r, want);
}

#[test]
fn assembler_command_32_has_flag() {
    let cfg = Config { dialect: Dialect::Intel, word_size: WordSize::W32 };
    let r = assembler_command(&cfg, &text("a.s"), &text("a.o"));
    let want: Vec<Vec<u8>> = vec![text("as"), text("--32"), text("a.s"), text("-o"), text("a.o")];
    assert_eq!(r, want);
}

#[test]
fn linker_command_64() {
    let r = linker_command(&cfg64(), &text("a.o"), &text("a.out"));
    let want: Vec<Vec<u8>> = vec![text("ld"), text("a.o"), text("-o"), text("a.out")];
    assert_eq!(r, want);
}

#[test]
fn linker_command_32_selects_emulation() {
    let cfg = Config { dialect: Dialect::Att, word_size: WordSize::W32 };
    let r = linker_command(&cfg, &text("a.o"), &text("a.out"));
    let want: Vec<Vec<u8>> =
        vec![text("ld"), text("-m"), text("elf_i386"), text("a.o"), text("-o"), text("a.out")];
    assert_eq!(r, want);
}

#[test]
fn assembler_failure_carries_both_streams() {
    let r = assemble_outcome(false, text("out text"), text("no such instruction"));
    match r {
        Err(e) => {
            let shown = e.render();
            assert_eq!(shown, text("Assembler error:\nout text\n\nno such instruction"));
        },
        Ok(()) => panic!("missing object file must fail"),
    }
    assert!(assemble_outcome(true, text(""), text("")).is_ok());
}

#[test]
fn linker_failure_carries_both_streams() {
    let r = link_outcome(false, text(""), text("undefined symbol"));
    match r {
        Err(e) => assert_eq!(e.render(), text("Linker error:\n\n\nundefined symbol")),
        Ok(()) => panic!("missing linked file must fail"),
    }
    assert!(link_outcome(true, text(""), text("")).is_ok());
}

#[test]
fn error_render_names_the_token() {
    let e = TranscodeError::ByteParse(text("zz"));
    assert_eq!(e.render(), text("bad hex byte: zz"));
    assert_eq!(TranscodeError::MissingSection.render(), text("no text section"));
}

#[test]
fn initial_state_is_empty_source_focus() {
    let s = SyncState::new();
    assert!(s.source.is_empty());
    assert!(s.bytes.is_empty());
    assert_eq!(s.focus, Focus::Source);
}

#[test]
fn switching_focus_changes_no_buffer() {
    let mut s = SyncState::new();
    s.source = text("mov eax, 1");
    s.bytes = text("90");
    s.switch_focus();
    assert_eq!(s.focus, Focus::Bytes);
    assert_eq!(s.source, text("mov eax, 1"));
    assert_eq!(s.bytes, text("90"));
    s.switch_focus();
    assert_eq!(s.focus, Focus::Source);
    assert_eq!(s.source, text("mov eax, 1"));
    assert_eq!(s.bytes, text("90"));
}

#[test]
fn edit_replaces_focused_buffer_and_names_direction() {
    let mut s = SyncState::new();
    s.bytes = text("old bytes");
    let d = s.record_edit(text("mov eax, 1"));
    assert_eq!(d, Direction::Forward);
    assert_eq!(s.source, text("mov eax, 1"));
    assert_eq!(s.bytes, text("old bytes"));
    s.switch_focus();
    let d = s.record_edit(text("90 c3"));
    assert_eq!(d, Direction::Reverse);
    assert_eq!(s.bytes, text("90 c3"));
    assert_eq!(s.source, text("mov eax, 1"));
}

#[test]
fn outcome_fully_replaces_the_other_buffer() {
    let mut s = SyncState::new();
    s.source = text("nop");
    s.bytes = text("stale content");
    s.apply_outcome(Ok(text("90")));
    assert_eq!(s.bytes, text("90"));
    assert_eq!(s.source, text("nop"));
    assert_eq!(s.focus, Focus::Source);
}

#[test]
fn failed_transcode_routes_its_message() {
    let mut s = SyncState::new();
    s.source = text("bad code");
    s.bytes = text("previous output");
    s.apply_outcome(Err(TranscodeError::Assembler {
        stdout: text(""),
        stderr: text("unknown mnemonic"),
    }));
    assert_eq!(s.bytes, text("Assembler error:\n\n\nunknown mnemonic"));
    assert_eq!(s.source, text("bad code"));
}

#[test]
fn resolve_outcome_shares_one_path() {
    assert_eq!(resolve_outcome(Ok(text("90 c3"))), text("90 c3"));
    assert_eq!(
        resolve_outcome(Err(TranscodeError::Io(text("disk trouble")))),
        text("disk trouble")
    );
}
