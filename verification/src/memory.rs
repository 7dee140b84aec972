use vstd::prelude::*;
use vstd::string::StringExecFns;

use crate::processor::decoder::instruction::ByteWideOption;
use crate::processor::{ProcessorError, ProcessorErrorTrait};
use crate::word::with_field;

verus! {

pub const DATA_MEMORY_SIZE: usize = 0x10000;

/// The data memory: `DATA_MEMORY_SIZE` words, addressed by byte.
pub struct MainMemory {
    mem: Box<[u32; DATA_MEMORY_SIZE]>,
}

/// The fault that the data memory raises for an address beyond its last word.
pub open spec fn memory_out_of_bounds() -> ProcessorError {
    ProcessorError::Memory(
        Box::new(MainMemoryError { error_type: MainMemoryErrorType::AddressOutOfBounds }),
    )
}

/// The word that holds `old` after a store of `raw` with width `option` at its byte `diff`.
/// A byte or halfword store replaces the bytes it reaches with the low bytes of `raw`: a
/// halfword at byte 3 reaches the top byte only. A word store replaces the whole word with `raw`
/// moved up by `diff` bytes, and drops what leaves the word.
pub open spec fn spec_store(option: ByteWideOption, old: u32, raw: u32, diff: u32) -> u32 {
    match option {
        ByteWideOption::Byte | ByteWideOption::ByteUnsigned => if diff == 0 {
            with_field(old, 0x1, 0x100, raw)
        } else if diff == 1 {
            with_field(old, 0x100, 0x100, raw)
        } else if diff == 2 {
            with_field(old, 0x1_0000, 0x100, raw)
        } else {
            with_field(old, 0x100_0000, 0x100, raw)
        },
        ByteWideOption::HalfWord | ByteWideOption::HalfWordUnsigned => if diff == 0 {
            with_field(old, 0x1, 0x1_0000, raw)
        } else if diff == 1 {
            with_field(old, 0x100, 0x1_0000, raw)
        } else if diff == 2 {
            with_field(old, 0x1_0000, 0x1_0000, raw)
        } else {
            with_field(old, 0x100_0000, 0x100, raw)
        },
        ByteWideOption::Word => if diff == 0 {
            raw
        } else if diff == 1 {
            with_field(0, 0x100, 0x100_0000, raw)
        } else if diff == 2 {
            with_field(0, 0x1_0000, 0x1_0000, raw)
        } else {
            with_field(0, 0x100_0000, 0x100, raw)
        },
    }
}

/// Masking and merging, as arithmetic on the byte that a byte store replaces.
proof fn lemma_store_byte(old: u32, raw: u32, diff: u32, shift: u32)
    by (bit_vector)
    requires
        diff < 4,
        shift == 8 * diff,
    ensures
        diff == 0 ==> (old & !0x0000_00FFu32) | ((raw << shift) & 0x0000_00FFu32)
            == old - (old % 0x100) + (raw % 0x100),
        diff == 1 ==> (old & !0x0000_FF00u32) | ((raw << shift) & 0x0000_FF00u32)
            == old - ((old / 0x100) % 0x100) * 0x100 + (raw % 0x100) * 0x100,
        diff == 2 ==> (old & !0x00FF_0000u32) | ((raw << shift) & 0x00FF_0000u32)
            == old - ((old / 0x1_0000) % 0x100) * 0x1_0000 + (raw % 0x100) * 0x1_0000,
        diff == 3 ==> (old & !0xFF00_0000u32) | ((raw << shift) & 0xFF00_0000u32)
            == old - ((old / 0x100_0000) % 0x100) * 0x100_0000 + (raw % 0x100) * 0x100_0000,
{
}

/// The same for a halfword store.
proof fn lemma_store_half(old: u32, raw: u32, diff: u32, shift: u32)
    by (bit_vector)
    requires
        diff < 4,
        shift == 8 * diff,
    ensures
        diff == 0 ==> (old & !0x0000_FFFFu32) | ((raw << shift) & 0x0000_FFFFu32)
            == old - (old % 0x1_0000) + (raw % 0x1_0000),
        diff == 1 ==> (old & !0x00FF_FF00u32) | ((raw << shift) & 0x00FF_FF00u32)
            == old - ((old / 0x100) % 0x1_0000) * 0x100 + (raw % 0x1_0000) * 0x100,
        diff == 2 ==> (old & !0xFFFF_0000u32) | ((raw << shift) & 0xFFFF_0000u32)
            == old - ((old / 0x1_0000) % 0x1_0000) * 0x1_0000 + (raw % 0x1_0000) * 0x1_0000,
        diff == 3 ==> (old & !0xFF00_0000u32) | ((raw << shift) & 0xFF00_0000u32)
            == old - ((old / 0x100_0000) % 0x100) * 0x100_0000 + (raw % 0x100) * 0x100_0000,
{
}

/// The same for a word store, whose mask keeps nothing of the old word.
proof fn lemma_store_word(old: u32, raw: u32, diff: u32, shift: u32)
    by (bit_vector)
    requires
        diff < 4,
        shift == 8 * diff,
    ensures
        diff == 0 ==> (old & !0xFFFF_FFFFu32) | ((raw << shift) & 0xFFFF_FFFFu32)
            == raw,
        diff == 1 ==> (old & !0xFFFF_FFFFu32) | ((raw << shift) & 0xFFFF_FFFFu32)
            == (raw % 0x100_0000) * 0x100,
        diff == 2 ==> (old & !0xFFFF_FFFFu32) | ((raw << shift) & 0xFFFF_FFFFu32)
            == (raw % 0x1_0000) * 0x1_0000,
        diff == 3 ==> (old & !0xFFFF_FFFFu32) | ((raw << shift) & 0xFFFF_FFFFu32)
            == (raw % 0x100) * 0x100_0000,
{
}

impl Clone for MainMemory {
    fn clone(&self) -> (copy: Self)
        ensures
            copy@ == self@,
    {
        Self { mem: Box::new(*self.mem) }
    }
}

impl MainMemory {
    /// The words of the memory, by word index.
    pub closed spec fn view(&self) -> Seq<u32> {
        self.mem@
    }

    /// A data memory always has `DATA_MEMORY_SIZE` words.
    pub proof fn lemma_len(&self)
        ensures
            self@.len() == DATA_MEMORY_SIZE,
    {
    }

    /// A memory with every word zero.
    pub fn new() -> (r: Self)
        ensures
            r@ == Seq::new(DATA_MEMORY_SIZE as nat, |i: int| 0u32),
    {
        let r = Self { mem: Box::new([0; DATA_MEMORY_SIZE]) };
        assert(r@ =~= Seq::new(DATA_MEMORY_SIZE as nat, |i: int| 0u32));
        r
    }

    /// What a load of width `option` from byte address `address` yields.
    pub open spec fn spec_read(words: Seq<u32>, address: u32, option: ByteWideOption) -> Result<
        u32,
        ProcessorError,
    > {
        if address / 4 < DATA_MEMORY_SIZE {
            Ok(option.spec_trim(words[address as int / 4], address % 4))
        } else {
            Err(memory_out_of_bounds())
        }
    }

    /// The words after a store of `raw` with width `option` to byte address `address`.
    pub open spec fn spec_write(
        words: Seq<u32>,
        address: u32,
        raw: u32,
        option: ByteWideOption,
    ) -> Seq<u32> {
        if address / 4 < DATA_MEMORY_SIZE {
            words.update(
                address as int / 4,
                spec_store(option, words[address as int / 4], raw, address % 4),
            )
        } else {
            words
        }
    }

    /// Loads with width `option` from byte address `address`.
    pub fn read(&self, address: u32, option: &ByteWideOption) -> (r: Result<u32, ProcessorError>)
        ensures
            r == Self::spec_read(self@, address, *option),
    {
        let addrdiff: u32 = address % 4;
        let address: u32 = address / 4;

        if address < DATA_MEMORY_SIZE as u32 {
            let raw: u32 = self.mem[address as usize];
            let rd: u32 = option.trim(raw, addrdiff);
            Ok(rd)
        } else {
            let error_type = MainMemoryErrorType::AddressOutOfBounds;
            Err(ProcessorError::Memory(MainMemoryError::new(error_type)))
        }
    }

    /// Stores `raw` with width `option` to byte address `address`.
    pub fn write(&mut self, address: u32, raw: u32, option: &ByteWideOption) -> (r: Result<
        (),
        ProcessorError,
    >)
        ensures
            final(self)@ == Self::spec_write(old(self)@, address, raw, *option),
            address / 4 < DATA_MEMORY_SIZE ==> r == Ok::<(), ProcessorError>(()),
            address / 4 >= DATA_MEMORY_SIZE ==> r == Err::<(), ProcessorError>(
                memory_out_of_bounds(),
            ),
    {
        let addrdiff: u32 = address % 4;
        let address: u32 = address / 4;

        if address < DATA_MEMORY_SIZE as u32 {
            let mask: u32 = option.overwrite_mask(addrdiff);
            let shift: u32 = 8 * addrdiff;
            let value: u32 = (raw << shift) & mask;
            let word: u32 = self.mem[address as usize];
            proof {
                match option {
                    ByteWideOption::Byte | ByteWideOption::ByteUnsigned => {
                        lemma_store_byte(word, raw, addrdiff, shift);
                    },
                    ByteWideOption::HalfWord | ByteWideOption::HalfWordUnsigned => {
                        lemma_store_half(word, raw, addrdiff, shift);
                    },
                    ByteWideOption::Word => {
                        lemma_store_word(word, raw, addrdiff, shift);
                    },
                }
            }
            self.mem[address as usize] = (word & !mask) | value;
            Ok(())
        } else {
            let error_type = MainMemoryErrorType::AddressOutOfBounds;
            Err(ProcessorError::Memory(MainMemoryError::new(error_type)))
        }
    }

    /// The first `n` words of the memory.
    pub fn head(&self, n: usize) -> (words: Vec<u32>)
        requires
            n <= DATA_MEMORY_SIZE,
        ensures
            words@ == self@.subrange(0, n as int),
    {
        let mut words: Vec<u32> = Vec::new();
        let mut i: usize = 0;
        while i < n
            invariant
                i <= n <= DATA_MEMORY_SIZE,
                words@ == self@.subrange(0, i as int),
            decreases n - i,
        {
            words.push(self.mem[i]);
            assert(words@ =~= self@.subrange(0, i + 1));
            i += 1;
        }
        words
    }
}

/// Why an access to the data memory failed.
#[derive(Debug)]
pub enum MainMemoryErrorType {
    AddressOutOfBounds,
}

impl MainMemoryErrorType {
    /// The text of the reason.
    pub open spec fn spec_to_string(&self) -> Seq<char> {
        match self {
            Self::AddressOutOfBounds => "violate address bounds by memory access"@,
        }
    }

    pub fn to_string(&self) -> (text: String)
        ensures
            text@ == self.spec_to_string(),
    {
        match self {
            Self::AddressOutOfBounds => String::from_str("violate address bounds by memory access"),
        }
    }
}

/// A fault of the data memory.
#[derive(Debug)]
pub struct MainMemoryError {
    pub error_type: MainMemoryErrorType,
}

impl MainMemoryError {
    fn new(error_type: MainMemoryErrorType) -> (error: Box<Self>)
        ensures
            *error == (MainMemoryError { error_type }),
    {
        let error = Self { error_type };
        Box::new(error)
    }

    pub fn to_string(&self) -> (text: String)
        ensures
            text@ == self.spec_form(),
    {
        self.form()
    }
}

impl ProcessorErrorTrait for MainMemoryError {
    open spec fn spec_form(&self) -> Seq<char> {
        "memory access is failed - "@ + self.error_type.spec_to_string()
    }

    fn form(&self) -> (text: String) {
        let mut text = String::from_str("memory access is failed - ");
        text.append(self.error_type.to_string().as_str());
        text
    }
}

/// A store keeps the bits of the old word outside the mask of its width, and takes the others
/// from `raw` moved up by `diff` bytes.
pub proof fn lemma_store_is_masking(option: ByteWideOption, old: u32, raw: u32, diff: u32)
    requires
        diff < 4,
    ensures
        spec_store(option, old, raw, diff) == (old & !option.spec_overwrite_mask(diff)) | ((raw << (
        8 * diff) as u32) & option.spec_overwrite_mask(diff)),
{
    let shift = (8 * diff) as u32;
    match option {
        ByteWideOption::Byte | ByteWideOption::ByteUnsigned => {
            lemma_store_byte(old, raw, diff, shift);
        },
        ByteWideOption::HalfWord | ByteWideOption::HalfWordUnsigned => {
            lemma_store_half(old, raw, diff, shift);
        },
        ByteWideOption::Word => {
            lemma_store_word(old, raw, diff, shift);
        },
    }
}

/// Replacing a field of `old` and reading the field again gives what was put there, and the
/// word stays below `weight * span * rest`.
proof fn lemma_field_restored(old: int, field: int, weight: int, span: int, rest: int)
    requires
        0 <= old < weight * span * rest,
        weight > 0,
        span > 0,
        rest > 0,
        0 <= field < span,
    ensures
        ({
            let word = old - ((old / weight) % span) * weight + field * weight;
            &&& 0 <= word < weight * span * rest
            &&& (word / weight) % span == field
        }),
{
    let q = old / weight;
    let r = old % weight;
    let s = q / span;
    let t = q % span;
    vstd::arithmetic::div_mod::lemma_fundamental_div_mod(old, weight);
    vstd::arithmetic::div_mod::lemma_fundamental_div_mod(q, span);
    let word = old - t * weight + field * weight;
    assert(word == (s * span + field) * weight + r) by (nonlinear_arith)
        requires
            word == old - t * weight + field * weight,
            old == weight * q + r,
            q == span * s + t,
    ;
    assert(0 <= s < rest) by (nonlinear_arith)
        requires
            0 <= old < weight * span * rest,
            old == weight * q + r,
            q == span * s + t,
            0 <= r < weight,
            0 <= t < span,
            weight > 0,
            span > 0,
    ;
    assert(0 <= (s * span + field) * weight + r < weight * span * rest) by (nonlinear_arith)
        requires
            0 <= s < rest,
            0 <= field < span,
            0 <= r < weight,
            span > 0,
    ;
    vstd::arithmetic::div_mod::lemma_fundamental_div_mod_converse(
        word,
        weight,
        s * span + field,
        r,
    );
    vstd::arithmetic::div_mod::lemma_fundamental_div_mod_converse(word / weight, span, s, field);
}

/// A load gives back what a store of the same width put at the same aligned address: the
/// stored value, cut to the width and extended as the load asks. A byte is aligned anywhere, a
/// halfword at even addresses, a word at multiples of four.
pub proof fn lemma_write_then_read(
    words: Seq<u32>,
    address: u32,
    value: u32,
    stored: ByteWideOption,
    loaded: ByteWideOption,
)
    requires
        words.len() == DATA_MEMORY_SIZE,
        address / 4 < DATA_MEMORY_SIZE,
        stored.spec_bits() == loaded.spec_bits(),
        (address * 8) % (stored.spec_bits() as int) == 0,
    ensures
        MainMemory::spec_read(
            MainMemory::spec_write(words, address, value, stored),
            address,
            loaded,
        ) == Ok::<u32, ProcessorError>(loaded.spec_trim(value, 0)),
{
    let diff = address % 4;
    let old = words[address as int / 4];
    if stored.spec_bits() == 8 {
        let put = value as int % 0x100;
        if diff == 0 {
            lemma_field_restored(old as int, put, 0x1, 0x100, 0x100_0000);
        } else if diff == 1 {
            lemma_field_restored(old as int, put, 0x100, 0x100, 0x1_0000);
        } else if diff == 2 {
            lemma_field_restored(old as int, put, 0x1_0000, 0x100, 0x100);
        } else {
            lemma_field_restored(old as int, put, 0x100_0000, 0x100, 0x1);
        }
    } else if stored.spec_bits() == 16 {
        let put = value as int % 0x1_0000;
        if diff == 0 {
            lemma_field_restored(old as int, put, 0x1, 0x1_0000, 0x1_0000);
        } else {
            lemma_field_restored(old as int, put, 0x1_0000, 0x1_0000, 0x1);
        }
    }
}

/// A store changes no word but the one that holds the address.
pub proof fn lemma_write_elsewhere(
    words: Seq<u32>,
    address: u32,
    value: u32,
    stored: ByteWideOption,
    other: u32,
    loaded: ByteWideOption,
)
    requires
        words.len() == DATA_MEMORY_SIZE,
        other / 4 != address / 4,
    ensures
        MainMemory::spec_write(words, address, value, stored).len() == words.len(),
        MainMemory::spec_read(
            MainMemory::spec_write(words, address, value, stored),
            other,
            loaded,
        ) == MainMemory::spec_read(words, other, loaded),
{
}

} // verus!
