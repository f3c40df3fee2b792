//! Presentation options for an emulation run and the two small enums the
//! command line selects them with.  The core never reads these: they say
//! what an embedder prints after `run` returns.

use vstd::prelude::*;

use crate::utils::str_eq;

verus! {

/// How the bytes of a memory window are rendered.
#[derive(Clone, Copy, Debug, PartialEq, Eq, Structural)]
pub enum MemoryFormat {
    Hex,
    Dec,
    Bin,
}

/// What kind of input an emulation starts from: assembly text or a raw
/// binary image.
#[derive(Clone, Copy, Debug, PartialEq, Eq, Structural)]
pub enum InputFormat {
    Asm,
    Bin,
}

/// The name given for a format matched none of the known ones.
#[derive(Clone, Copy, Debug, PartialEq, Eq, Structural)]
pub struct UnknownFormat;

impl InputFormat {
    /// Reads an input format by name: exactly `"asm"` or `"bin"`.
    pub fn from_str(s: &str) -> (result: Result<InputFormat, UnknownFormat>)
        ensures
            result == (if s@ == "asm"@ {
                Ok::<InputFormat, UnknownFormat>(InputFormat::Asm)
            } else if s@ == "bin"@ {
                Ok::<InputFormat, UnknownFormat>(InputFormat::Bin)
            } else {
                Err::<InputFormat, UnknownFormat>(UnknownFormat)
            }),
    {
        if str_eq(s, "asm") {
            Ok(InputFormat::Asm)
        } else if str_eq(s, "bin") {
            Ok(InputFormat::Bin)
        } else {
            Err(UnknownFormat)
        }
    }
}

impl MemoryFormat {
    /// Reads a memory format by name: exactly `"hex"`, `"dec"` or `"bin"`.
    pub fn from_str(s: &str) -> (result: Result<MemoryFormat, UnknownFormat>)
        ensures
            result == (if s@ == "hex"@ {
                Ok::<MemoryFormat, UnknownFormat>(MemoryFormat::Hex)
            } else if s@ == "dec"@ {
                Ok::<MemoryFormat, UnknownFormat>(MemoryFormat::Dec)
            } else if s@ == "bin"@ {
                Ok::<MemoryFormat, UnknownFormat>(MemoryFormat::Bin)
            } else {
                Err::<MemoryFormat, UnknownFormat>(UnknownFormat)
            }),
    {
        if str_eq(s, "hex") {
            Ok(MemoryFormat::Hex)
        } else if str_eq(s, "dec") {
            Ok(MemoryFormat::Dec)
        } else if str_eq(s, "bin") {
            Ok(MemoryFormat::Bin)
        } else {
            Err(UnknownFormat)
        }
    }
}

/// What an embedder wants shown after a run, and how.  `step` and `cycles`
/// are accepted for command-line compatibility; the run itself is driven by
/// [`crate::cpu::Cpu::run`].
pub struct EmulatorOptions {
    pub step: bool,
    pub cycles: Option<u64>,
    pub show_registers: bool,
    pub show_flags: bool,
    pub show_memory: bool,
    pub memory_start: u16,
    pub memory_end: u16,
    pub memory_format: MemoryFormat,
}

} // verus!
