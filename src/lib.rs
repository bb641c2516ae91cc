//! An instruction-set level emulator of the MOS 6502 processor.
//!
//! `mem` holds the 64 KiB memory, `instruction` the instruction table and
//! `cpu` the processor, whose `step` and `exec` are proved to follow the
//! semantics stated there. `laws` proves properties that relate several
//! instructions.

pub mod cpu;
pub mod flags;
pub mod instruction;
pub mod laws;
pub mod mem;

use vstd::prelude::*;
use vstd::string::StringSliceAdditionalSpecFns;

verus! {

/// How much the emulator prints while it runs.
#[derive(Clone, Copy, PartialEq, Eq, PartialOrd, Debug, Structural)]
pub enum Verbosity {
    Normal,
    Verbose,
    VeryVerbose,
}

impl Verbosity {
    /// 0, 1 or 2.
    pub fn level(&self) -> (r: u8)
        ensures
            r == (match *self {
                Verbosity::Normal => 0u8,
                Verbosity::Verbose => 1u8,
                Verbosity::VeryVerbose => 2u8,
            }),
    {
        match self {
            Verbosity::Normal => 0,
            Verbosity::Verbose => 1,
            Verbosity::VeryVerbose => 2,
        }
    }

    /// The verbosity asked for by giving the verbose flag `count` times;
    /// more than twice counts as not at all.
    pub fn from_count(count: u8) -> (r: Verbosity)
        ensures
            r == (if count == 1 {
                Verbosity::Verbose
            } else if count == 2 {
                Verbosity::VeryVerbose
            } else {
                Verbosity::Normal
            }),
    {
        match count {
            1 => Verbosity::Verbose,
            2 => Verbosity::VeryVerbose,
            _ => Verbosity::Normal,
        }
    }
}

/// What the emulator is asked to do.
pub struct Config {
    pub verbosity: Verbosity,
    /// Cycles to run; without a number the emulator runs until stopped.
    pub cycles_to_execute: Option<u64>,
    /// Whether to place the demo program in memory.
    pub load_demo: bool,
    /// A file whose bytes are placed at the reset address.
    pub load_file: Option<String>,
    /// Whether to take commands from the user instead of running.
    pub interactive: bool,
}

/// A command of the interactive stepper.
#[derive(Clone, Copy, PartialEq, Eq, Debug, Structural)]
pub enum Command {
    /// Empty input.
    Nothing,
    /// `h` or `?`.
    Help,
    /// `q`.
    Quit,
    /// `s`: execute one instruction.
    Step,
    /// `r`: run until stopped.
    Run,
    Unknown,
}

/// The end of the word that starts at `i`: the first space at or after `i`,
/// or the end of `b`.
pub open spec fn word_end(b: Seq<u8>, i: int) -> int
    decreases b.len() - i,
{
    if i < 0 || i >= b.len() || b[i] == 0x20 {
        i
    } else {
        word_end(b, i + 1)
    }
}

/// The command that a word (the input up to its first space) names.
pub open spec fn command_of_word(w: Seq<u8>) -> Command {
    if w.len() == 0 {
        Command::Nothing
    } else if w.len() != 1 {
        Command::Unknown
    } else if w[0] == 0x68 || w[0] == 0x3F {
        Command::Help
    } else if w[0] == 0x71 {
        Command::Quit
    } else if w[0] == 0x73 {
        Command::Step
    } else if w[0] == 0x72 {
        Command::Run
    } else {
        Command::Unknown
    }
}

/// The command named by the first word of `input`; what follows the first
/// space is ignored.
pub fn parse_command(input: &str) -> (r: Command)
    ensures
        r == command_of_word(input.spec_bytes().take(word_end(input.spec_bytes(), 0))),
{
    let b = input.as_bytes();
    let mut i: usize = 0;
    while i < b.len() && b[i] != 0x20
        invariant
            0 <= i <= b@.len(),
            b@ == input.spec_bytes(),
            word_end(b@, i as int) == word_end(b@, 0),
        decreases b@.len() - i,
    {
        i = i + 1;
    }
    if i == 0 {
        Command::Nothing
    } else if i != 1 {
        Command::Unknown
    } else if b[0] == 0x68 || b[0] == 0x3F {
        Command::Help
    } else if b[0] == 0x71 {
        Command::Quit
    } else if b[0] == 0x73 {
        Command::Step
    } else if b[0] == 0x72 {
        Command::Run
    } else {
        Command::Unknown
    }
}

} // verus!
