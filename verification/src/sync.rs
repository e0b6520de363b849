use vstd::prelude::*;
use crate::errors::TranscodeError;
use crate::errors::error_text;

verus! {

/// Which buffer accepts keystrokes and drives the active transcoding
/// direction. Exactly one buffer is focused at any time.
#[derive(Clone, Copy, Debug, PartialEq, Eq, Structural)]
pub enum Focus {
    Source,
    Bytes,
}

/// Which transcoder an accepted edit runs: `Forward` turns source text into
/// hex bytes, `Reverse` turns hex bytes into instruction text.
#[derive(Clone, Copy, Debug, PartialEq, Eq, Structural)]
pub enum Direction {
    Forward,
    Reverse,
}

/// The focus after a focus-switch command.
pub open spec fn flipped(f: Focus) -> Focus {
    match f {
        Focus::Source => Focus::Bytes,
        Focus::Bytes => Focus::Source,
    }
}

/// The transcoding direction an edit under a given focus runs.
pub open spec fn direction_of(f: Focus) -> Direction {
    match f {
        Focus::Source => Direction::Forward,
        Focus::Bytes => Direction::Reverse,
    }
}

/// The text a transcode outcome routes into the opposite buffer: the success
/// text itself, or the error's display text. Successes and failures share
/// this one rendering path.
pub open spec fn outcome_text(r: Result<Vec<u8>, TranscodeError>) -> Seq<u8> {
    match r {
        Ok(v) => v@,
        Err(e) => error_text(e),
    }
}

/// Resolves a transcode outcome to the text that replaces the opposite
/// buffer.
pub fn resolve_outcome(r: Result<Vec<u8>, TranscodeError>) -> (t: Vec<u8>)
    ensures
        t@ == outcome_text(r),
{
    match r {
        Ok(v) => v,
        Err(e) => e.render(),
    }
}

/// The two text buffers and the focus indicator. On every accepted edit to
/// the focused buffer, the transcoder matching the focus runs on that
/// buffer's post-edit content and its result replaces the other buffer
/// entirely.
pub struct SyncState {
    pub source: Vec<u8>,
    pub bytes: Vec<u8>,
    pub focus: Focus,
}

/// The content of the focused buffer.
pub open spec fn focused_text(s: SyncState) -> Seq<u8> {
    match s.focus {
        Focus::Source => s.source@,
        Focus::Bytes => s.bytes@,
    }
}

/// The content of the non-focused buffer.
pub open spec fn other_text(s: SyncState) -> Seq<u8> {
    match s.focus {
        Focus::Source => s.bytes@,
        Focus::Bytes => s.source@,
    }
}

impl SyncState {
    /// The initial state: both buffers empty, focus on the source buffer.
    pub fn new() -> (s: SyncState)
        ensures
            s.source@ == Seq::<u8>::empty(),
            s.bytes@ == Seq::<u8>::empty(),
            s.focus == Focus::Source,
    {
        SyncState { source: Vec::new(), bytes: Vec::new(), focus: Focus::Source }
    }

    /// A focus-switch command flips the focus and touches neither buffer;
    /// it runs no transcoder.
    pub fn switch_focus(&mut self)
        ensures
            final(self).focus == flipped(old(self).focus),
            final(self).source@ == old(self).source@,
            final(self).bytes@ == old(self).bytes@,
    {
        self.focus = match self.focus {
            Focus::Source => Focus::Bytes,
            Focus::Bytes => Focus::Source,
        };
    }

    /// An accepted edit replaces the focused buffer's content with its
    /// post-edit text and names the transcoder matching the current focus;
    /// the other buffer and the focus itself are untouched.
    pub fn record_edit(&mut self, new_text: Vec<u8>) -> (d: Direction)
        ensures
            final(self).focus == old(self).focus,
            focused_text(*final(self)) == new_text@,
            other_text(*final(self)) == other_text(*old(self)),
            d == direction_of(old(self).focus),
    {
        match self.focus {
            Focus::Source => {
                self.source = new_text;
                Direction::Forward
            },
            Focus::Bytes => {
                self.bytes = new_text;
                Direction::Reverse
            },
        }
    }

    /// A transcode outcome, success or failure, replaces the entire content
    /// of the non-focused buffer with its display text; the focused buffer
    /// and the focus itself are untouched, so stale content never persists
    /// alongside new output.
    pub fn apply_outcome(&mut self, r: Result<Vec<u8>, TranscodeError>)
        ensures
            final(self).focus == old(self).focus,
            focused_text(*final(self)) == focused_text(*old(self)),
            other_text(*final(self)) == outcome_text(r),
    {
        let t = resolve_outcome(r);
        match self.focus {
            Focus::Source => {
                self.bytes = t;
            },
            Focus::Bytes => {
                self.source = t;
            },
        }
    }
}

} // verus!
