use vstd::prelude::*;

verus! {

/// The assembly syntax convention: Intel operand order or AT&T operand order.
/// It selects the directive prepended before assembling and the formatting
/// style used when disassembling.
#[derive(Clone, Copy, Debug, PartialEq, Eq, Structural)]
pub enum Dialect {
    Intel,
    Att,
}

/// The target word size: it selects the assembler and linker flags, the ELF
/// header width, and the instruction decoder mode.
#[derive(Clone, Copy, Debug, PartialEq, Eq, Structural)]
pub enum WordSize {
    W32,
    W64,
}

/// Immutable run parameters, established once at startup and read by both
/// transcoding directions for the whole process lifetime.
#[derive(Clone, Copy, Debug, PartialEq, Eq, Structural)]
pub struct Config {
    pub dialect: Dialect,
    pub word_size: WordSize,
}

impl Config {
    /// Builds the configuration from the two startup switches: `att_syntax`
    /// selects the AT&T dialect, `m32` selects the 32-bit word size.
    pub fn from_flags(att_syntax: bool, m32: bool) -> (c: Config)
        ensures
            c.dialect == (if att_syntax {
                Dialect::Att
            } else {
                Dialect::Intel
            }),
            c.word_size == (if m32 {
                WordSize::W32
            } else {
                WordSize::W64
            }),
    {
        Config {
            dialect: if att_syntax {
                Dialect::Att
            } else {
                Dialect::Intel
            },
            word_size: if m32 {
                WordSize::W32
            } else {
                WordSize::W64
            },
        }
    }
}

} // verus!
