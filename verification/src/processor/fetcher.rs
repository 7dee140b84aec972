use vstd::prelude::*;
use vstd::string::{StrSliceExecFns, StringExecFns};

use super::{ProcessorError, ProcessorErrorTrait};
use crate::text::{push_decimal, spec_decimal};

verus! {

pub const INSTRUCTION_MEMORY_SIZE: usize = 0x10000;

pub const INSTRUCTION_MEMORY_INIT: usize = 0x2000;

/// Why a program text could not be loaded.
#[derive(Debug)]
pub enum LoaderErrorType {
    /// The line is no hexadecimal 32-bit word.
    InvalidHex,
    /// The line would be stored beyond the last word of the instruction memory.
    AddressOutOfBounds,
}

impl LoaderErrorType {
    /// The text of the reason.
    pub open spec fn spec_to_string(&self) -> Seq<char> {
        match self {
            Self::InvalidHex => "invalid hexadecimal word"@,
            Self::AddressOutOfBounds => "violate address bounds by memory access"@,
        }
    }

    pub fn to_string(&self) -> (text: String)
        ensures
            text@ == self.spec_to_string(),
    {
        match self {
            Self::InvalidHex => String::from_str("invalid hexadecimal word"),
            Self::AddressOutOfBounds => String::from_str("violate address bounds by memory access"),
        }
    }
}

/// A fault of the loader, with the number of the line that raised it, counted from 0.
#[derive(Debug)]
pub struct LoaderError {
    pub error_type: LoaderErrorType,
    pub line: usize,
}

impl LoaderError {
    pub fn new(error_type: LoaderErrorType, line: usize) -> (error: Box<Self>)
        ensures
            *error == (LoaderError { error_type, line }),
    {
        let error = Self { error_type, line };
        Box::new(error)
    }

    pub fn to_string(&self) -> (text: String)
        ensures
            text@ == self.spec_form(),
    {
        self.form()
    }
}

impl ProcessorErrorTrait for LoaderError {
    open spec fn spec_form(&self) -> Seq<char> {
        "load program is failed - line "@ + spec_decimal(self.line as nat) + ": "@
            + self.error_type.spec_to_string()
    }

    fn form(&self) -> (text: String) {
        let mut text = String::from_str("load program is failed - line ");
        push_decimal(&mut text, self.line as u64);
        text.append(": ");
        text.append(self.error_type.to_string().as_str());
        text
    }
}

/// The fault that the loader raises at line `line` for the reason `error_type`.
pub open spec fn loader_error(error_type: LoaderErrorType, line: usize) -> ProcessorError {
    ProcessorError::Loader(Box::new(LoaderError { error_type, line }))
}

/// The value of a hexadecimal digit, in either case.
pub open spec fn spec_hex_digit(c: char) -> Option<u32> {
    if '0' <= c <= '9' {
        Some((c as u32 - '0' as u32) as u32)
    } else if 'a' <= c <= 'f' {
        Some((c as u32 - 'a' as u32 + 10) as u32)
    } else if 'A' <= c <= 'F' {
        Some((c as u32 - 'A' as u32 + 10) as u32)
    } else {
        None
    }
}

/// The value of the hexadecimal digit `c`, if it is one.
pub fn hex_digit(c: char) -> (r: Option<u32>)
    ensures
        r == spec_hex_digit(c),
{
    let code: u32 = c as u32;
    if 0x30 <= code && code <= 0x39 {
        Some(code - 0x30)
    } else if 0x61 <= code && code <= 0x66 {
        Some(code - 0x61 + 10)
    } else if 0x41 <= code && code <= 0x46 {
        Some(code - 0x41 + 10)
    } else {
        None
    }
}

/// The number that a string of hexadecimal digits denotes, most significant digit first; none
/// if some character is no digit.
pub open spec fn spec_hex_value(digits: Seq<char>) -> Option<nat>
    decreases digits.len(),
{
    if digits.len() == 0 {
        Some(0)
    } else {
        match (spec_hex_value(digits.drop_last()), spec_hex_digit(digits.last())) {
            (Some(high), Some(low)) => Some(high * 16 + low as nat),
            _ => None,
        }
    }
}

/// The word that a line of a program text denotes: an optional `+`, then one or more
/// hexadecimal digits whose value fits in 32 bits. Anything else denotes none.
pub open spec fn spec_parse_hex(line: Seq<char>) -> Option<u32> {
    let digits = if line.len() > 0 && line[0] == '+' {
        line.subrange(1, line.len() as int)
    } else {
        line
    };
    if digits.len() == 0 {
        None
    } else {
        match spec_hex_value(digits) {
            Some(value) => if value <= u32::MAX {
                Some(value as u32)
            } else {
                None
            },
            None => None,
        }
    }
}

/// A string of digits denotes at least what any of its prefixes denotes, and nothing if a
/// prefix denotes nothing.
pub proof fn lemma_hex_prefix(digits: Seq<char>, k: int)
    requires
        0 <= k <= digits.len(),
    ensures
        spec_hex_value(digits.subrange(0, k)) is None ==> spec_hex_value(digits) is None,
        spec_hex_value(digits) is Some ==> spec_hex_value(digits.subrange(0, k)).unwrap()
            <= spec_hex_value(digits).unwrap(),
    decreases digits.len(),
{
    if k == digits.len() {
        assert(digits.subrange(0, k) =~= digits);
    } else {
        assert(digits.drop_last().subrange(0, k) =~= digits.subrange(0, k));
        lemma_hex_prefix(digits.drop_last(), k);
    }
}

/// Reads a line of a program text as a 32-bit word.
pub fn parse_hex(line: &str) -> (r: Option<u32>)
    ensures
        r == spec_parse_hex(line@),
{
    let len: usize = line.unicode_len();
    let start: usize = if len > 0 && line.get_char(0) == '+' {
        1
    } else {
        0
    };
    if start == len {
        return None;
    }
    let ghost digits = line@.subrange(start as int, len as int);
    assert(line@.subrange(0, len as int) =~= line@);
    let mut value: u32 = 0;
    let mut i: usize = start;
    assert(digits.subrange(0, 0) =~= Seq::<char>::empty());
    while i < len
        invariant
            start <= i <= len,
            len == line@.len(),
            digits == line@.subrange(start as int, len as int),
            digits == if line@.len() > 0 && line@[0] == '+' {
                line@.subrange(1, line@.len() as int)
            } else {
                line@
            },
            spec_hex_value(digits.subrange(0, i - start)) == Some(value as nat),
        decreases len - i,
    {
        let c = line.get_char(i);
        proof {
            let next = digits.subrange(0, i + 1 - start);
            assert(next.drop_last() =~= digits.subrange(0, i - start));
            assert(next.last() == c);
            lemma_hex_prefix(digits, i + 1 - start);
        }
        match hex_digit(c) {
            None => {
                return None;
            },
            Some(d) => {
                if value > (u32::MAX - d) / 16 {
                    return None;
                }
                value = value * 16 + d;
            },
        }
        i += 1;
    }
    assert(digits.subrange(0, len - start) =~= digits);
    Some(value)
}

/// The instruction memory after the lines of a program text are stored from word `index` on,
/// and the fault that ended the loading, if one did: loading stops at the first line that is no
/// word or has no place in the memory, and keeps what was stored before it.
pub open spec fn spec_load_hex(words: Seq<u32>, lines: Seq<Seq<char>>, index: int) -> (
    Seq<u32>,
    Result<(), ProcessorError>,
)
    decreases lines.len(),
{
    if lines.len() == 0 {
        (words, Ok(()))
    } else {
        let (before, outcome) = spec_load_hex(words, lines.drop_last(), index);
        let line = (lines.len() - 1) as usize;
        if outcome is Err {
            (before, outcome)
        } else {
            match spec_parse_hex(lines.last()) {
                None => (before, Err(loader_error(LoaderErrorType::InvalidHex, line))),
                Some(word) => if index + line < INSTRUCTION_MEMORY_SIZE {
                    (before.update(index + line, word), Ok(()))
                } else {
                    (before, Err(loader_error(LoaderErrorType::AddressOutOfBounds, line)))
                },
            }
        }
    }
}

/// The word that the program counter `pc` selects: the memory is read modulo its size.
pub open spec fn spec_fetch(words: Seq<u32>, pc: u32) -> u32 {
    words[(pc as int / 4) % (INSTRUCTION_MEMORY_SIZE as int)]
}

/// The program counter and the instruction memory.
pub struct Fetcher {
    pub pc: u32,
    mem: Box<[u32; INSTRUCTION_MEMORY_SIZE]>,
}

impl Fetcher {
    /// The words of the instruction memory, by word index.
    pub closed spec fn view(&self) -> Seq<u32> {
        self.mem@
    }

    /// The program counter.
    pub closed spec fn spec_pc(&self) -> u32 {
        self.pc
    }

    /// An instruction memory always has `INSTRUCTION_MEMORY_SIZE` words.
    pub proof fn lemma_len(&self)
        ensures
            self@.len() == INSTRUCTION_MEMORY_SIZE,
    {
    }

    /// A fetcher at the reset address, with an all-zero memory.
    pub fn new() -> (r: Self)
        ensures
            r.spec_pc() == INSTRUCTION_MEMORY_INIT,
            r@ == Seq::new(INSTRUCTION_MEMORY_SIZE as nat, |i: int| 0u32),
    {
        let r = Self {
            pc: INSTRUCTION_MEMORY_INIT as u32,
            mem: Box::new([0; INSTRUCTION_MEMORY_SIZE]),
        };
        assert(r@ =~= Seq::new(INSTRUCTION_MEMORY_SIZE as nat, |i: int| 0u32));
        r
    }

    /// The address of the next instruction.
    pub fn program_counter(&self) -> (pc: u32)
        ensures
            pc == self.spec_pc(),
    {
        self.pc
    }

    /// Moves the program counter to `pc`.
    pub fn update_program_counter(&mut self, pc: u32)
        ensures
            final(self).spec_pc() == pc,
            final(self)@ == old(self)@,
    {
        self.pc = pc;
    }

    /// The instruction word at the program counter.
    pub fn fetch(&self) -> (word: u32)
        ensures
            word == spec_fetch(self@, self.spec_pc()),
    {
        let pc: u32 = self.pc;
        let index: u32 = (pc >> 2) % (INSTRUCTION_MEMORY_SIZE as u32);
        assert(pc >> 2 == pc / 4) by (bit_vector);
        self.mem[index as usize]
    }

    /// Stores the words that `lines` denote, one per line, from the word at byte offset `diff`
    /// on.
    pub fn load_hex(&mut self, lines: &Vec<String>, diff: usize) -> (r: Result<(), ProcessorError>)
        ensures
            final(self).spec_pc() == old(self).spec_pc(),
            (final(self)@, r) == spec_load_hex(old(self)@, lines.deep_view(), diff as int / 4),
    {
        let base: usize = diff >> 2;
        assert(diff >> 2 == diff / 4) by (bit_vector);
        let ghost text = lines.deep_view();
        let mut line: usize = 0;
        assert(text.subrange(0, 0) =~= Seq::<Seq<char>>::empty());
        while line < lines.len()
            invariant
                line <= lines.len(),
                text == lines.deep_view(),
                base == diff as int / 4,
                self.pc == old(self).pc,
                (self@, Ok::<(), ProcessorError>(())) == spec_load_hex(
                    old(self)@,
                    text.subrange(0, line as int),
                    base as int,
                ),
            decreases lines.len() - line,
        {
            proof {
                let next = text.subrange(0, line + 1);
                assert(next.drop_last() =~= text.subrange(0, line as int));
                assert(next.last() == lines[line as int]@);
                lemma_load_stops(old(self)@, text, base as int, line + 1);
            }
            match parse_hex(lines[line].as_str()) {
                None => {
                    return Err(
                        ProcessorError::Loader(LoaderError::new(LoaderErrorType::InvalidHex, line)),
                    );
                },
                Some(word) => {
                    if line >= INSTRUCTION_MEMORY_SIZE || base >= INSTRUCTION_MEMORY_SIZE - line {
                        return Err(
                            ProcessorError::Loader(
                                LoaderError::new(LoaderErrorType::AddressOutOfBounds, line),
                            ),
                        );
                    }
                    self.mem[base + line] = word;
                },
            }
            line += 1;
        }
        assert(text.subrange(0, line as int) =~= text);
        Ok(())
    }
}

/// Once loading has failed on a prefix of the lines, the rest changes nothing.
pub proof fn lemma_load_stops(words: Seq<u32>, lines: Seq<Seq<char>>, index: int, k: int)
    requires
        0 <= k <= lines.len(),
    ensures
        spec_load_hex(words, lines.subrange(0, k), index).1 is Err ==> spec_load_hex(
            words,
            lines,
            index,
        ) == spec_load_hex(words, lines.subrange(0, k), index),
    decreases lines.len(),
{
    if k == lines.len() {
        assert(lines.subrange(0, k) =~= lines);
    } else {
        assert(lines.drop_last().subrange(0, k) =~= lines.subrange(0, k));
        lemma_load_stops(words, lines.drop_last(), index, k);
    }
}

} // verus!
