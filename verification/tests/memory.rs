use kuragemu_riscv::memory::{MainMemory, MainMemoryErrorType, DATA_MEMORY_SIZE};
use kuragemu_riscv::processor::decoder::instruction::ByteWideOption;
use kuragemu_riscv::processor::register::{Register, RegisterAlias, RegisterErrorType};
use kuragemu_riscv::processor::decoder::instruction::RiscvInstruction;
use kuragemu_riscv::processor::{ProcessorError, ProcessorErrorTrait};

#[test]
fn memory_starts_zeroed() {
    let mem = MainMemory::new();
    assert_eq!(mem.head(10), vec![0u32; 10]);
    assert_eq!(mem.head(0), Vec::<u32>::new());
    assert_eq!(mem.head(DATA_MEMORY_SIZE).len(), DATA_MEMORY_SIZE);
    assert_eq!(mem.read(0x3FFFC, &ByteWideOption::Word).unwrap(), 0);
}

#[test]
fn word_write_then_read() {
    let mut mem = MainMemory::new();
    mem.write(0x100, 0xDEAD_BEEF, &ByteWideOption::Word).unwrap();
    assert_eq!(mem.read(0x100, &ByteWideOption::Word).unwrap(), 0xDEAD_BEEF);
    assert_eq!(mem.head(0x41)[0x40], 0xDEAD_BEEF);
    mem.write(0x3FFFC, 7, &ByteWideOption::Word).unwrap();
    assert_eq!(mem.read(0x3FFFC, &ByteWideOption::Word).unwrap(), 7);
}

#[test]
fn byte_write_then_read() {
    let mut mem = MainMemory::new();
    mem.write(0, 0x1234_56FF, &ByteWideOption::Byte).unwrap();
    assert_eq!(mem.read(0, &ByteWideOption::Byte).unwrap(), 0xFFFF_FFFF);
    assert_eq!(mem.read(0, &ByteWideOption::ByteUnsigned).unwrap(), 0xFF);
    mem.write(5, 0x7A, &ByteWideOption::Byte).unwrap();
    assert_eq!(mem.read(5, &ByteWideOption::Byte).unwrap(), 0x7A);
    assert_eq!(mem.read(4, &ByteWideOption::Word).unwrap(), 0x0000_7A00);
    mem.write(7, 0x80, &ByteWideOption::Byte).unwrap();
    assert_eq!(mem.read(4, &ByteWideOption::Word).unwrap(), 0x8000_7A00);
    assert_eq!(mem.read(7, &ByteWideOption::Byte).unwrap(), 0xFFFF_FF80);
}

#[test]
fn halfword_write_then_read() {
    let mut mem = MainMemory::new();
    mem.write(8, 0xFFFF_FFFF, &ByteWideOption::Word).unwrap();
    mem.write(10, 0x1234_8001, &ByteWideOption::HalfWord).unwrap();
    assert_eq!(mem.read(8, &ByteWideOption::Word).unwrap(), 0x8001_FFFF);
    assert_eq!(mem.read(10, &ByteWideOption::HalfWord).unwrap(), 0xFFFF_8001);
    assert_eq!(mem.read(10, &ByteWideOption::HalfWordUnsigned).unwrap(), 0x8001);
    mem.write(8, 0x0042, &ByteWideOption::HalfWord).unwrap();
    assert_eq!(mem.read(8, &ByteWideOption::Word).unwrap(), 0x8001_0042);
}

#[test]
fn a_byte_write_leaves_the_other_bytes() {
    let mut mem = MainMemory::new();
    mem.write(0, 0x1122_3344, &ByteWideOption::Word).unwrap();
    mem.write(1, 0xAB, &ByteWideOption::Byte).unwrap();
    assert_eq!(mem.read(0, &ByteWideOption::Word).unwrap(), 0x1122_AB44);
    mem.write(2, 0xCD, &ByteWideOption::ByteUnsigned).unwrap();
    assert_eq!(mem.read(0, &ByteWideOption::Word).unwrap(), 0x11CD_AB44);
}

#[test]
fn misaligned_accesses_stay_in_the_word() {
    let mut mem = MainMemory::new();
    mem.write(0, 0x1122_3344, &ByteWideOption::Word).unwrap();
    mem.write(4, 0x5566_7788, &ByteWideOption::Word).unwrap();
    // a halfword at byte 3 reaches the top byte only
    mem.write(3, 0xABCD, &ByteWideOption::HalfWord).unwrap();
    assert_eq!(mem.read(0, &ByteWideOption::Word).unwrap(), 0xCD22_3344);
    assert_eq!(mem.read(4, &ByteWideOption::Word).unwrap(), 0x5566_7788);
    assert_eq!(mem.read(3, &ByteWideOption::HalfWordUnsigned).unwrap(), 0xCD);
    assert_eq!(mem.read(3, &ByteWideOption::HalfWord).unwrap(), 0xCD);
    // a word at byte 1 is moved up by one byte and replaces the whole word
    mem.write(5, 0x0000_00EE, &ByteWideOption::Word).unwrap();
    assert_eq!(mem.read(4, &ByteWideOption::Word).unwrap(), 0x0000_EE00);
    assert_eq!(mem.read(6, &ByteWideOption::Word).unwrap(), 0x0000_EE00);
}

#[test]
fn memory_rejects_an_address_beyond_the_end() {
    let mut mem = MainMemory::new();
    let fault = mem.read(0x40000, &ByteWideOption::Word).unwrap_err();
    match &fault {
        ProcessorError::Memory(error) => {
            assert!(matches!(error.error_type, MainMemoryErrorType::AddressOutOfBounds));
            assert_eq!(
                error.to_string(),
                "memory access is failed - violate address bounds by memory access"
            );
        }
        other => panic!("expected a memory fault, got {:?}", other),
    }
    assert_eq!(fault.form(), "memory access is failed - violate address bounds by memory access");
    assert!(mem.write(0xFFFF_FFFF, 1, &ByteWideOption::Byte).is_err());
    assert!(mem.write(0x40000, 1, &ByteWideOption::Word).is_err());
    assert!(mem.write(0x3FFFF, 1, &ByteWideOption::Byte).is_ok());
    assert_eq!(MainMemoryErrorType::AddressOutOfBounds.to_string(), "violate address bounds by memory access");
}

#[test]
fn registers_start_zeroed() {
    let reg = Register::new();
    for i in 0..32 {
        assert_eq!(reg.read(i).unwrap(), 0);
    }
}

#[test]
fn register_write_then_read() {
    let mut reg = Register::new();
    reg.write(1, 0xAAAA_5555).unwrap();
    reg.write(31, 9).unwrap();
    assert_eq!(reg.read(1).unwrap(), 0xAAAA_5555);
    assert_eq!(reg.read(31).unwrap(), 9);
    assert_eq!(reg.read(2).unwrap(), 0);
}

#[test]
fn register_zero_drops_writes() {
    let mut reg = Register::new();
    assert!(reg.write(0, 0xFFFF_FFFF).is_ok());
    assert_eq!(reg.read(0).unwrap(), 0);
}

#[test]
fn register_rejects_an_index_beyond_the_last() {
    let mut reg = Register::new();
    let fault = reg.read(32).unwrap_err();
    match &fault {
        ProcessorError::Register(error) => {
            assert!(matches!(error.error_type, RegisterErrorType::AddressOutOfBounds));
            assert_eq!(
                error.to_string(),
                "register access is failed  - violate address bounds by memory access"
            );
        }
        other => panic!("expected a register fault, got {:?}", other),
    }
    assert_eq!(fault.form(), "register access is failed  - violate address bounds by memory access");
    assert!(reg.write(32, 1).is_err());
    assert!(reg.write(255, 1).is_err());
    assert!(reg.read(255).is_err());
    assert_eq!(RegisterErrorType::AddressOutOfBounds.to_string(), "violate address bounds by memory access");
}

#[test]
fn register_aliases() {
    let names = [
        "zero", "ra", "sp", "gp", "tp", "t0", "t1", "t2", "s0", "s1", "a0", "a1", "a2", "a3",
        "a4", "a5", "a6", "a7", "s2", "s3", "s4", "s5", "s6", "s7", "s8", "s9", "s10", "s11",
        "t3", "t4", "t5", "t6",
    ];
    for (i, name) in names.iter().enumerate() {
        let alias = RegisterAlias::try_from(i as u8).unwrap();
        assert_eq!(alias.assembly(), *name);
        assert_eq!(alias.to_string(), *name);
        assert_eq!(RegisterAlias::of_index(i as u8).unwrap(), alias);
    }
    assert_eq!(RegisterAlias::try_from(10).unwrap(), RegisterAlias::A0);
    assert!(RegisterAlias::try_from(32).is_err());
    assert!(RegisterAlias::of_index(200).is_err());
}

#[test]
fn a_copy_of_the_memory_is_its_own() {
    let mut mem = MainMemory::new();
    mem.write(0, 5, &ByteWideOption::Word).unwrap();
    let mut copy = mem.clone();
    assert_eq!(copy.head(2), vec![5, 0]);
    copy.write(4, 6, &ByteWideOption::Word).unwrap();
    assert_eq!(copy.head(2), vec![5, 6]);
    assert_eq!(mem.head(2), vec![5, 0]);
}
