use vstd::prelude::*;
use crate::bytes::append_bytes;
use crate::bytes::blank;
use crate::bytes::copy_range;
use crate::bytes::lemma_parse_blank;
use crate::bytes::parse_hex;
use crate::bytes::parse_hex_bytes;
use crate::errors::TranscodeError;

verus! {

/// First step of the reverse transcode: the byte sequence the hex buffer
/// denotes. A blank buffer yields no bytes at all (the result is then the
/// empty string and no decoder runs); the first malformed token fails the
/// whole operation with `ByteParse`, so no partial output is ever produced.
pub fn reverse_start(text: &Vec<u8>) -> (r: Result<Vec<u8>, TranscodeError>)
    ensures
        match parse_hex(text@) {
            Ok(bs) => r matches Ok(v) && v@ == bs,
            Err(t) => r matches Err(e) && e matches TranscodeError::ByteParse(tok) && tok@ == t,
        },
        blank(text@) ==> (r matches Ok(v) && v@ == Seq::<u8>::empty()),
{
    proof {
        if blank(text@) {
            lemma_parse_blank(text@);
        }
    }
    match parse_hex_bytes(text) {
        Ok(v) => Ok(v),
        Err(t) => Err(TranscodeError::ByteParse(t)),
    }
}

/// One decoder observation at the current position, as the outside decoder
/// reports it: a decoded instruction's byte length and formatted line, the
/// end of the stream, or a failure message.
pub enum DecodeEvent {
    Decoded { length: usize, line: Vec<u8> },
    End,
    Failed(Vec<u8>),
}

/// The text `"bad decode length"`, reported when a decoder claims an
/// instruction length of zero or one past the remaining bytes.
pub open spec fn bad_length_text() -> Seq<u8> {
    seq![98u8, 97, 100, 32, 100, 101, 99, 111, 100, 101, 32, 108, 101, 110, 103, 116, 104]
}

fn bad_length_vec() -> (r: Vec<u8>)
    ensures
        r@ == bad_length_text(),
{
    let mut v: Vec<u8> = Vec::new();
    v.push(98);
    v.push(97);
    v.push(100);
    v.push(32);
    v.push(100);
    v.push(101);
    v.push(99);
    v.push(111);
    v.push(100);
    v.push(101);
    v.push(32);
    v.push(108);
    v.push(101);
    v.push(110);
    v.push(103);
    v.push(116);
    v.push(104);
    proof {
        assert(v@ =~= bad_length_text());
    }
    v
}

/// The reverse transcode's decision state over a parsed byte sequence.
/// The decoder itself runs outside; this machine decides, on each of its
/// observations, whether to go on, finish, or abort, and accumulates the
/// output: every formatted line in address order, each followed by one
/// newline, with no partial output on failure.
pub struct ReverseRun {
    bytes: Vec<u8>,
    offset: usize,
    out: Vec<u8>,
}

impl ReverseRun {
    /// The bytes being decoded.
    pub closed spec fn bytes_view(&self) -> Seq<u8> {
        self.bytes@
    }

    /// How many leading bytes are already decoded; also the address the next
    /// instruction is formatted at.
    pub closed spec fn offset_view(&self) -> int {
        self.offset as int
    }

    /// The output accumulated so far.
    pub closed spec fn out_view(&self) -> Seq<u8> {
        self.out@
    }

    /// The position never passes the end of the bytes.
    pub open spec fn wf(&self) -> bool {
        self.offset_view() <= self.bytes_view().len()
    }

    /// Starts a run at address zero with empty output.
    pub fn new(bytes: Vec<u8>) -> (r: ReverseRun)
        ensures
            r.wf(),
            r.bytes_view() == bytes@,
            r.offset_view() == 0,
            r.out_view() == Seq::<u8>::empty(),
    {
        ReverseRun { bytes, offset: 0, out: Vec::new() }
    }

    /// The bytes not yet decoded: what the decoder is shown next.
    pub fn remaining(&self) -> (r: Vec<u8>)
        requires
            self.wf(),
        ensures
            r@ == self.bytes_view().skip(self.offset_view()),
    {
        let r = copy_range(&self.bytes, self.offset, self.bytes.len());
        proof {
            assert(self.bytes@.subrange(self.offset as int, self.bytes@.len() as int) =~= self
                .bytes@
                .skip(self.offset as int));
        }
        r
    }

    /// The current position, the address handed to the formatter.
    pub fn position(&self) -> (n: usize)
        ensures
            n == self.offset_view(),
    {
        self.offset
    }

    /// Whether every byte is decoded: decoding is self-terminating at the
    /// end of the buffer.
    pub fn finished(&self) -> (b: bool)
        requires
            self.wf(),
        ensures
            b == (self.offset_view() == self.bytes_view().len()),
    {
        self.offset >= self.bytes.len()
    }

    /// Takes one decoder observation. A decoded instruction of a possible
    /// length appends its line and one newline and advances the position;
    /// the stream's end yields the whole output; any failure aborts the run
    /// with `Decode` and its message, so a listing is never partial.
    pub fn step(&mut self, ev: DecodeEvent) -> (r: Option<Result<Vec<u8>, TranscodeError>>)
        requires
            old(self).wf(),
        ensures
            match ev {
                DecodeEvent::Decoded { length, line } => {
                    if 1 <= length && length <= old(self).bytes_view().len() - old(
                        self,
                    ).offset_view() {
                        r is None && final(self).wf() && final(self).bytes_view() == old(
                            self,
                        ).bytes_view() && final(self).offset_view() == old(self).offset_view()
                            + length && final(self).out_view() == old(self).out_view() + line@
                            + seq![10u8]
                    } else {
                        r matches Some(res) && res matches Err(e)
                            && e matches TranscodeError::Decode(m) && m@ == bad_length_text()
                    }
                },
                DecodeEvent::End => r matches Some(res) && res matches Ok(v) && v@ == old(
                    self,
                ).out_view(),
                DecodeEvent::Failed(msg) => r matches Some(res) && res matches Err(e)
                    && e matches TranscodeError::Decode(m) && m@ == msg@,
            },
    {
        match ev {
            DecodeEvent::Decoded { length, line } => {
                if 1 <= length && length <= self.bytes.len() - self.offset {
                    append_bytes(&mut self.out, &line);
                    self.out.push(10);
                    self.offset = self.offset + length;
                    None
                } else {
                    Some(Err(TranscodeError::Decode(bad_length_vec())))
                }
            },
            DecodeEvent::End => Some(Ok(self.finish())),
            DecodeEvent::Failed(msg) => Some(Err(TranscodeError::Decode(msg))),
        }
    }

    /// The whole output once the run is finished.
    pub fn finish(&self) -> (r: Vec<u8>)
        ensures
            r@ == self.out_view(),
    {
        let r = copy_range(&self.out, 0, self.out.len());
        proof {
            assert(self.out@.subrange(0, self.out@.len() as int) =~= self.out@);
        }
        r
    }
}

} // verus!
