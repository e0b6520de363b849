use vstd::prelude::*;
use crate::bytes::append_bytes;
use crate::bytes::blank;
use crate::bytes::copy_range;
use crate::bytes::hex_line;
use crate::bytes::is_blank;
use crate::bytes::render_hex;
use crate::config::Config;
use crate::config::Dialect;
use crate::config::WordSize;
use crate::errors::TranscodeError;
use object::read::elf::FileHeader;

verus! {

/// The directive line `".intel_syntax noprefix\n"`, prepended before
/// assembling when the Intel dialect is active.
pub open spec fn intel_directive() -> Seq<u8> {
    seq![
        46u8,
        105,
        110,
        116,
        101,
        108,
        95,
        115,
        121,
        110,
        116,
        97,
        120,
        32,
        110,
        111,
        112,
        114,
        101,
        102,
        105,
        120,
        10,
    ]
}

/// The exact text handed to the assembler for a source text and dialect:
/// the Intel dialect needs its directive, AT&T needs none.
pub open spec fn asm_input(code: Seq<u8>, d: Dialect) -> Seq<u8> {
    match d {
        Dialect::Intel => intel_directive() + code,
        Dialect::Att => code,
    }
}

fn push_intel_directive(v: &mut Vec<u8>)
    ensures
        final(v)@ == old(v)@ + intel_directive(),
{
    v.push(46);
    v.push(105);
    v.push(110);
    v.push(116);
    v.push(101);
    v.push(108);
    v.push(95);
    v.push(115);
    v.push(121);
    v.push(110);
    v.push(116);
    v.push(97);
    v.push(120);
    v.push(32);
    v.push(110);
    v.push(111);
    v.push(112);
    v.push(114);
    v.push(101);
    v.push(102);
    v.push(105);
    v.push(120);
    v.push(10);
    proof {
        assert(v@ =~= old(v)@ + intel_directive());
    }
}

/// First step of the forward transcode. `None` when the source is blank: the
/// result is then the empty string and no tool runs. Otherwise the exact text
/// to write into the assembler's input file.
pub fn forward_start(code: &Vec<u8>, cfg: &Config) -> (r: Option<Vec<u8>>)
    ensures
        r is None <==> blank(code@),
        r matches Some(v) ==> v@ == asm_input(code@, cfg.dialect),
{
    if is_blank(code) {
        None
    } else {
        let mut v: Vec<u8> = Vec::new();
        match cfg.dialect {
            Dialect::Intel => push_intel_directive(&mut v),
            Dialect::Att => (),
        }
        append_bytes(&mut v, code);
        proof {
            if cfg.dialect is Att {
                assert(Seq::<u8>::empty() + code@ =~= code@);
            }
        }
        Some(v)
    }
}

/// The text `"as"`.
pub open spec fn as_name() -> Seq<u8> {
    seq![97u8, 115]
}

/// The text `"ld"`.
pub open spec fn ld_name() -> Seq<u8> {
    seq![108u8, 100]
}

/// The text `"--32"`.
pub open spec fn flag_32() -> Seq<u8> {
    seq![45u8, 45, 51, 50]
}

/// The text `"-o"`.
pub open spec fn flag_o() -> Seq<u8> {
    seq![45u8, 111]
}

/// The text `"-m"`.
pub open spec fn flag_m() -> Seq<u8> {
    seq![45u8, 109]
}

/// The text `"elf_i386"`.
pub open spec fn emulation_i386() -> Seq<u8> {
    seq![101u8, 108, 102, 95, 105, 51, 56, 54]
}

/// The assembler invocation, program name first: 32-bit mode needs an
/// explicit flag, 64-bit mode none.
pub open spec fn assembler_cmd(w: WordSize, input: Seq<u8>, output: Seq<u8>) -> Seq<Seq<u8>> {
    match w {
        WordSize::W32 => seq![as_name(), flag_32(), input, flag_o(), output],
        WordSize::W64 => seq![as_name(), input, flag_o(), output],
    }
}

/// The linker invocation, program name first: 32-bit mode selects the i386
/// emulation, 64-bit mode the default.
pub open spec fn linker_cmd(w: WordSize, object_path: Seq<u8>, output: Seq<u8>) -> Seq<Seq<u8>> {
    match w {
        WordSize::W32 => seq![ld_name(), flag_m(), emulation_i386(), object_path, flag_o(), output],
        WordSize::W64 => seq![ld_name(), object_path, flag_o(), output],
    }
}

fn two_bytes(a: u8, b: u8) -> (r: Vec<u8>)
    ensures
        r@ == seq![a, b],
{
    let mut v: Vec<u8> = Vec::new();
    v.push(a);
    v.push(b);
    proof {
        assert(v@ =~= seq![a, b]);
    }
    v
}

fn word_flag_32() -> (r: Vec<u8>)
    ensures
        r@ == flag_32(),
{
    let mut v: Vec<u8> = Vec::new();
    v.push(45);
    v.push(45);
    v.push(51);
    v.push(50);
    proof {
        assert(v@ =~= flag_32());
    }
    v
}

fn word_emulation_i386() -> (r: Vec<u8>)
    ensures
        r@ == emulation_i386(),
{
    let mut v: Vec<u8> = Vec::new();
    v.push(101);
    v.push(108);
    v.push(102);
    v.push(95);
    v.push(105);
    v.push(51);
    v.push(56);
    v.push(54);
    proof {
        assert(v@ =~= emulation_i386());
    }
    v
}

/// The argument vector for the assembler run on `input`, writing `output`.
pub fn assembler_command(cfg: &Config, input: &Vec<u8>, output: &Vec<u8>) -> (r: Vec<Vec<u8>>)
    ensures
        ({
            let c = assembler_cmd(cfg.word_size, input@, output@);
            r@.len() == c.len() && forall|i: int| 0 <= i < c.len() ==> r@[i]@ == c[i]
        }),
{
    let mut r: Vec<Vec<u8>> = Vec::new();
    r.push(two_bytes(97, 115));
    if let WordSize::W32 = cfg.word_size {
        r.push(word_flag_32());
    }
    r.push(copy_range(input, 0, input.len()));
    r.push(two_bytes(45, 111));
    r.push(copy_range(output, 0, output.len()));
    proof {
        assert(input@.subrange(0, input@.len() as int) =~= input@);
        assert(output@.subrange(0, output@.len() as int) =~= output@);
    }
    r
}

/// The argument vector for the linker run on `object_path`, writing `output`.
pub fn linker_command(cfg: &Config, object_path: &Vec<u8>, output: &Vec<u8>) -> (r: Vec<Vec<u8>>)
    ensures
        ({
            let c = linker_cmd(cfg.word_size, object_path@, output@);
            r@.len() == c.len() && forall|i: int| 0 <= i < c.len() ==> r@[i]@ == c[i]
        }),
{
    let mut r: Vec<Vec<u8>> = Vec::new();
    r.push(two_bytes(108, 100));
    if let WordSize::W32 = cfg.word_size {
        r.push(two_bytes(45, 109));
        r.push(word_emulation_i386());
    }
    r.push(copy_range(object_path, 0, object_path.len()));
    r.push(two_bytes(45, 111));
    r.push(copy_range(output, 0, output.len()));
    proof {
        assert(object_path@.subrange(0, object_path@.len() as int) =~= object_path@);
        assert(output@.subrange(0, output@.len() as int) =~= output@);
    }
    r
}

/// The assembler's failure policy: success is the existence of the output
/// object file, not the exit code; on failure both captured streams are
/// carried verbatim.
pub fn assemble_outcome(object_exists: bool, stdout: Vec<u8>, stderr: Vec<u8>) -> (r: Result<
    (),
    TranscodeError,
>)
    ensures
        object_exists <==> r is Ok,
        !object_exists ==> (r matches Err(e) && e matches TranscodeError::Assembler {
            stdout: o,
            stderr: er,
        } && o@ == stdout@ && er@ == stderr@),
{
    if object_exists {
        Ok(())
    } else {
        Err(TranscodeError::Assembler { stdout, stderr })
    }
}

/// The linker's failure policy, identical in shape to the assembler's.
pub fn link_outcome(linked_exists: bool, stdout: Vec<u8>, stderr: Vec<u8>) -> (r: Result<
    (),
    TranscodeError,
>)
    ensures
        linked_exists <==> r is Ok,
        !linked_exists ==> (r matches Err(e) && e matches TranscodeError::Linker {
            stdout: o,
            stderr: er,
        } && o@ == stdout@ && er@ == stderr@),
{
    if linked_exists {
        Ok(())
    } else {
        Err(TranscodeError::Linker { stdout, stderr })
    }
}

/// What object's 64-bit ELF reader finds for the section named `.text` in the
/// given bytes: its file offset and size, `None` when absent, or the reader's
/// error message.
pub uninterp spec fn elf_text64(data: Seq<u8>) -> Result<Option<(nat, nat)>, Seq<u8>>;

/// The 32-bit counterpart of `elf_text64`.
pub uninterp spec fn elf_text32(data: Seq<u8>) -> Result<Option<(nat, nat)>, Seq<u8>>;

/// The `.text` range under the header width matching the word size.
pub open spec fn elf_text_spec(data: Seq<u8>, w: WordSize) -> Result<
    Option<(nat, nat)>,
    Seq<u8>,
> {
    match w {
        WordSize::W32 => elf_text32(data),
        WordSize::W64 => elf_text64(data),
    }
}

/// Relies on object's ELF reader: `FileHeader64::parse`, `FileHeader::endian`,
/// `FileHeader::sections` and `SectionTable::section_by_name` locate the
/// section named exactly `.text` and expose its `sh_offset` and `sh_size`.
/// The result is a function of the bytes alone.
#[verifier::external_body]
fn elf_text_section64(data: &Vec<u8>) -> (r: Result<Option<(usize, usize)>, Vec<u8>>)
    ensures
        match r {
            Ok(Some((off, size))) => elf_text64(data@) == Ok::<Option<(nat, nat)>, Seq<u8>>(
                Some((off as nat, size as nat)),
            ),
            Ok(None) => elf_text64(data@) == Ok::<Option<(nat, nat)>, Seq<u8>>(None),
            Err(m) => elf_text64(data@) == Err::<Option<(nat, nat)>, Seq<u8>>(m@),
        },
{
    let r: Result<Option<(usize, usize)>, object::read::Error> = (|| {
        let elf = object::elf::FileHeader64::<object::Endianness>::parse(data.as_slice())?;
        let endian = elf.endian()?;
        let sections = elf.sections(endian, data.as_slice())?;
        Ok(sections.section_by_name(endian, b".text").map(|t| (
            t.1.sh_offset.get(endian) as usize,
            t.1.sh_size.get(endian) as usize,
        )))
    })();
    match r {
        Ok(x) => Ok(x),
        Err(e) => Err(format!("{}", e).into_bytes()),
    }
}

/// Relies on object's ELF reader, as `elf_text_section64`, with the 32-bit
/// header width: `FileHeader32::parse` and the same chain after it.
#[verifier::external_body]
fn elf_text_section32(data: &Vec<u8>) -> (r: Result<Option<(usize, usize)>, Vec<u8>>)
    ensures
        match r {
            Ok(Some((off, size))) => elf_text32(data@) == Ok::<Option<(nat, nat)>, Seq<u8>>(
                Some((off as nat, size as nat)),
            ),
            Ok(None) => elf_text32(data@) == Ok::<Option<(nat, nat)>, Seq<u8>>(None),
            Err(m) => elf_text32(data@) == Err::<Option<(nat, nat)>, Seq<u8>>(m@),
        },
{
    let r: Result<Option<(usize, usize)>, object::read::Error> = (|| {
        let elf = object::elf::FileHeader32::<object::Endianness>::parse(data.as_slice())?;
        let endian = elf.endian()?;
        let sections = elf.sections(endian, data.as_slice())?;
        Ok(sections.section_by_name(endian, b".text").map(|t| (
            t.1.sh_offset.get(endian) as usize,
            t.1.sh_size.get(endian) as usize,
        )))
    })();
    match r {
        Ok(x) => Ok(x),
        Err(e) => Err(format!("{}", e).into_bytes()),
    }
}

/// The text `"section out of range"`.
pub open spec fn range_text() -> Seq<u8> {
    seq![115u8, 101, 99, 116, 105, 111, 110, 32, 111, 117, 116, 32, 111, 102, 32, 114, 97, 110, 103, 101]
}

fn range_text_vec() -> (r: Vec<u8>)
    ensures
        r@ == range_text(),
{
    let mut v: Vec<u8> = Vec::new();
    v.push(115);
    v.push(101);
    v.push(99);
    v.push(116);
    v.push(105);
    v.push(111);
    v.push(110);
    v.push(32);
    v.push(111);
    v.push(117);
    v.push(116);
    v.push(32);
    v.push(111);
    v.push(102);
    v.push(32);
    v.push(114);
    v.push(97);
    v.push(110);
    v.push(103);
    v.push(101);
    proof {
        assert(v@ =~= range_text());
    }
    v
}

/// Slices exactly `size` bytes of the linked binary at the `.text` section's
/// offset; absent section and out-of-range headers are errors, never panics.
pub fn extract_text(data: &Vec<u8>, cfg: &Config) -> (r: Result<Vec<u8>, TranscodeError>)
    ensures
        match elf_text_spec(data@, cfg.word_size) {
            Ok(Some((off, size))) => {
                if off + size <= data@.len() {
                    r matches Ok(v) && v@ == data@.subrange(off as int, (off + size) as int)
                } else {
                    r matches Err(e) && e matches TranscodeError::Io(m) && m@ == range_text()
                }
            },
            Ok(None) => r matches Err(e) && e is MissingSection,
            Err(m) => r matches Err(e) && e matches TranscodeError::Io(msg) && msg@ == m,
        },
{
    let found = match cfg.word_size {
        WordSize::W64 => elf_text_section64(data),
        WordSize::W32 => elf_text_section32(data),
    };
    match found {
        Ok(Some((off, size))) => {
            if off <= data.len() && size <= data.len() - off {
                Ok(copy_range(data, off, off + size))
            } else {
                Err(TranscodeError::Io(range_text_vec()))
            }
        },
        Ok(None) => Err(TranscodeError::MissingSection),
        Err(m) => Err(TranscodeError::Io(m)),
    }
}

/// Final step of the forward transcode: the `.text` bytes of the linked
/// binary, rendered as two-digit lowercase hex, space-joined, one line.
pub fn forward_finish(data: &Vec<u8>, cfg: &Config) -> (r: Result<Vec<u8>, TranscodeError>)
    ensures
        match elf_text_spec(data@, cfg.word_size) {
            Ok(Some((off, size))) => {
                if off + size <= data@.len() {
                    r matches Ok(v) && v@ == hex_line(
                        data@.subrange(off as int, (off + size) as int),
                    )
                } else {
                    r matches Err(e) && e matches TranscodeError::Io(m) && m@ == range_text()
                }
            },
            Ok(None) => r matches Err(e) && e is MissingSection,
            Err(m) => r matches Err(e) && e matches TranscodeError::Io(msg) && msg@ == m,
        },
{
    match extract_text(data, cfg) {
        Ok(bytes) => Ok(render_hex(&bytes)),
        Err(e) => Err(e),
    }
}

} // verus!
