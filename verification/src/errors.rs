use vstd::prelude::*;
use crate::bytes::append_bytes;
use crate::bytes::copy_range;

verus! {

/// Why a transcode attempt failed. Every kind is converted to display text at
/// the synchronization boundary and routed into the opposite buffer; none ends
/// the session.
#[derive(Debug, PartialEq, Eq)]
pub enum TranscodeError {
    /// A token in the byte buffer is not two hexadecimal digits; carries the
    /// offending token.
    ByteParse(Vec<u8>),
    /// The instruction decoder rejected the byte stream; carries its message.
    Decode(Vec<u8>),
    /// The assembler left no output file; carries both captured streams.
    Assembler { stdout: Vec<u8>, stderr: Vec<u8> },
    /// The linker left no output file; carries both captured streams.
    Linker { stdout: Vec<u8>, stderr: Vec<u8> },
    /// The linked binary holds no `.text` section.
    MissingSection,
    /// A filesystem or format fault outside the other kinds; carries a message.
    Io(Vec<u8>),
}

/// The text `"bad hex byte: "`.
pub open spec fn byte_parse_prefix() -> Seq<u8> {
    seq![98u8, 97, 100, 32, 104, 101, 120, 32, 98, 121, 116, 101, 58, 32]
}

/// The text `"Assembler error:\n"`.
pub open spec fn assembler_prefix() -> Seq<u8> {
    seq![65u8, 115, 115, 101, 109, 98, 108, 101, 114, 32, 101, 114, 114, 111, 114, 58, 10]
}

/// The text `"Linker error:\n"`.
pub open spec fn linker_prefix() -> Seq<u8> {
    seq![76u8, 105, 110, 107, 101, 114, 32, 101, 114, 114, 111, 114, 58, 10]
}

/// The text `"no text section"`.
pub open spec fn missing_section_text() -> Seq<u8> {
    seq![110u8, 111, 32, 116, 101, 120, 116, 32, 115, 101, 99, 116, 105, 111, 110]
}

/// A tool-failure report: the stage prefix, then the captured standard
/// output, a blank line, and the captured standard error, verbatim.
pub open spec fn stream_report(prefix: Seq<u8>, out: Seq<u8>, err: Seq<u8>) -> Seq<u8> {
    prefix + out + seq![10u8, 10u8] + err
}

/// The display text of an error: exactly what replaces the opposite buffer
/// when a transcode fails.
pub open spec fn error_text(e: TranscodeError) -> Seq<u8> {
    match e {
        TranscodeError::ByteParse(t) => byte_parse_prefix() + t@,
        TranscodeError::Decode(m) => m@,
        TranscodeError::Assembler { stdout, stderr } => stream_report(
            assembler_prefix(),
            stdout@,
            stderr@,
        ),
        TranscodeError::Linker { stdout, stderr } => stream_report(
            linker_prefix(),
            stdout@,
            stderr@,
        ),
        TranscodeError::MissingSection => missing_section_text(),
        TranscodeError::Io(m) => m@,
    }
}

fn push_byte_parse_prefix(v: &mut Vec<u8>)
    ensures
        final(v)@ == old(v)@ + byte_parse_prefix(),
{
    v.push(98);
    v.push(97);
    v.push(100);
    v.push(32);
    v.push(104);
    v.push(101);
    v.push(120);
    v.push(32);
    v.push(98);
    v.push(121);
    v.push(116);
    v.push(101);
    v.push(58);
    v.push(32);
    proof {
        assert(v@ =~= old(v)@ + byte_parse_prefix());
    }
}

fn push_assembler_prefix(v: &mut Vec<u8>)
    ensures
        final(v)@ == old(v)@ + assembler_prefix(),
{
    v.push(65);
    v.push(115);
    v.push(115);
    v.push(101);
    v.push(109);
    v.push(98);
    v.push(108);
    v.push(101);
    v.push(114);
    v.push(32);
    v.push(101);
    v.push(114);
    v.push(114);
    v.push(111);
    v.push(114);
    v.push(58);
    v.push(10);
    proof {
        assert(v@ =~= old(v)@ + assembler_prefix());
    }
}

fn push_linker_prefix(v: &mut Vec<u8>)
    ensures
        final(v)@ == old(v)@ + linker_prefix(),
{
    v.push(76);
    v.push(105);
    v.push(110);
    v.push(107);
    v.push(101);
    v.push(114);
    v.push(32);
    v.push(101);
    v.push(114);
    v.push(114);
    v.push(111);
    v.push(114);
    v.push(58);
    v.push(10);
    proof {
        assert(v@ =~= old(v)@ + linker_prefix());
    }
}

fn push_missing_section_text(v: &mut Vec<u8>)
    ensures
        final(v)@ == old(v)@ + missing_section_text(),
{
    v.push(110);
    v.push(111);
    v.push(32);
    v.push(116);
    v.push(101);
    v.push(120);
    v.push(116);
    v.push(32);
    v.push(115);
    v.push(101);
    v.push(99);
    v.push(116);
    v.push(105);
    v.push(111);
    v.push(110);
    proof {
        assert(v@ =~= old(v)@ + missing_section_text());
    }
}

fn copy_all(src: &Vec<u8>) -> (r: Vec<u8>)
    ensures
        r@ == src@,
{
    let r = copy_range(src, 0, src.len());
    proof {
        assert(src@.subrange(0, src@.len() as int) =~= src@);
    }
    r
}

fn render_streams(prefix_is_linker: bool, stdout: &Vec<u8>, stderr: &Vec<u8>) -> (r: Vec<u8>)
    ensures
        r@ == stream_report(
            if prefix_is_linker {
                linker_prefix()
            } else {
                assembler_prefix()
            },
            stdout@,
            stderr@,
        ),
{
    let mut v: Vec<u8> = Vec::new();
    if prefix_is_linker {
        push_linker_prefix(&mut v);
    } else {
        push_assembler_prefix(&mut v);
    }
    append_bytes(&mut v, stdout);
    v.push(10);
    v.push(10);
    append_bytes(&mut v, stderr);
    proof {
        let p = if prefix_is_linker {
            linker_prefix()
        } else {
            assembler_prefix()
        };
        assert(v@ =~= p + stdout@ + seq![10u8, 10u8] + stderr@);
    }
    v
}

impl TranscodeError {
    /// Renders the error as the text shown to the user; successes and
    /// failures share one display path, distinguished only by content.
    pub fn render(&self) -> (r: Vec<u8>)
        ensures
            r@ == error_text(*self),
    {
        match self {
            TranscodeError::ByteParse(t) => {
                let mut v: Vec<u8> = Vec::new();
                push_byte_parse_prefix(&mut v);
                append_bytes(&mut v, t);
                proof {
                    assert(v@ =~= byte_parse_prefix() + t@);
                }
                v
            },
            TranscodeError::Decode(m) => copy_all(m),
            TranscodeError::Assembler { stdout, stderr } => render_streams(false, stdout, stderr),
            TranscodeError::Linker { stdout, stderr } => render_streams(true, stdout, stderr),
            TranscodeError::MissingSection => {
                let mut v: Vec<u8> = Vec::new();
                push_missing_section_text(&mut v);
                proof {
                    assert(v@ =~= missing_section_text());
                }
                v
            },
            TranscodeError::Io(m) => copy_all(m),
        }
    }
}

} // verus!
