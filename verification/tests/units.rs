//! Unit tests for the leaf components: bit helpers, the register file, the
//! CSR bank, the byte memory and the bus.

use rv32emu::bus::{check_range, Bus};
use rv32emu::csr::Csr;
use rv32emu::memory::Memory;
use rv32emu::reg::IntReg;
use rv32emu::util::{
    get_csr_name, get_int_reg_name, pick, sext, sign_extend, take_bit, u32_to_dec, u32_to_hex,
};

#[test]
fn sext_test() {
    assert_eq!(sext(15, 0x00008888), 0xffff8888);
    assert_eq!(sext(16, 0x00008888), 0x00008888);
}

#[test]
fn util_sext_test() {
    assert_eq!(sign_extend(15, 0x00008888), 0xffff8888);
    assert_eq!(sign_extend(16, 0x00008888), 0x00008888);
}

#[test]
fn sign_extend_byte() {
    // `count` names the bit that is replicated: a value carrying bit 8 is
    // widened, one whose top bit is bit 7 is returned unchanged.
    assert_eq!(sign_extend(8, 0x180), 0xffffff80);
    assert_eq!(sign_extend(8, 0x80), 0x80);
    assert_eq!(sign_extend(8, 0x7f), 0x7f);
}

#[test]
fn pick_fields() {
    let word: u32 = 0xabcd_1234;
    assert_eq!(pick(&word, 0, 7), 0x34);
    assert_eq!(pick(&word, 12, 20), 0xabcd1);
    assert_eq!(pick(&word, 31, 1), 1);
    assert_eq!(take_bit(&word, 0, 7), 0x34);
}

#[test]
fn core_test_int_reg() {
    let mut reg = IntReg::new();
    reg.write(0, 100);
    reg.write(1, 200);
    assert_eq!(reg.read(0), 0);
    assert_eq!(reg.read(1), 200);
}

#[test]
fn reg_test_int_reg() {
    let mut reg = IntReg::new();
    reg.write(0, 100);
    reg.write(1, 200);
    assert_eq!(reg.read(0), 0);
    assert_eq!(reg.read(1), 200);
}

#[test]
fn csr_raw_storage() {
    let mut csr = Csr::new();
    assert_eq!(csr.read(0), 0);
    csr.write(0, 7);
    assert_eq!(csr.read(0), 7);
    csr.write(0xfff, 0xdead_beef);
    assert_eq!(csr.read(0xfff), 0xdead_beef);
}

#[test]
fn csr_typed_accessors() {
    let mut csr = Csr::new();
    csr.write_mstatus(0x88);
    csr.write_mtvec(0x8000_0103);
    csr.write_mepc(0x8000_0040);
    csr.write_mcause(11);
    csr.write_mtval(5);
    assert_eq!(csr.read_mstatus(), 0x88);
    assert_eq!(csr.read(0x300), 0x88);
    assert_eq!(csr.read_mtvec(), 0x8000_0103);
    assert_eq!(csr.read(0x305), 0x8000_0103);
    assert_eq!(csr.read_mepc(), 0x8000_0040);
    assert_eq!(csr.read_mcause(), 11);
    assert_eq!(csr.read_mtval(), 5);
}

#[test]
fn memory_starts_filled() {
    let memory = Memory::new();
    assert_eq!(memory.read_u8(0), 0xff);
    assert_eq!(memory.read_u32(65532), 0xffff_ffff);
}

#[test]
fn memory_little_endian() {
    let mut memory = Memory::new();
    memory.write_u32(10, 0x1122_3344);
    assert_eq!(memory.read_u8(10), 0x44);
    assert_eq!(memory.read_u8(13), 0x11);
    assert_eq!(memory.read_u16(10), 0x3344);
    assert_eq!(memory.read_u16(12), 0x1122);
    assert_eq!(memory.read_u32(10), 0x1122_3344);
    memory.write_u16(20, 0xbeef);
    assert_eq!(memory.read_u8(20), 0xef);
    assert_eq!(memory.read_u8(21), 0xbe);
    memory.write_u8(30, 0x5a);
    assert_eq!(memory.read_u8(30), 0x5a);
}

#[test]
fn memory_load_image() {
    let mut memory = Memory::new();
    let data: Vec<u8> = vec![1, 2, 3];
    memory.load_image(&data);
    assert_eq!(memory.read_u8(0), 1);
    assert_eq!(memory.read_u8(1), 2);
    assert_eq!(memory.read_u8(2), 3);
    assert_eq!(memory.read_u8(3), 0xff);
}

#[test]
fn bus_translation() {
    let memory = Memory::new();
    let mut bus = Bus::new(memory);
    bus.write_u32(0x8000_0008, 0xcafe_f00d);
    assert_eq!(bus.read_u32(0x8000_0008), 0xcafe_f00d);
    assert_eq!(bus.read_u16(0x8000_0008), 0xf00d);
    assert_eq!(bus.read_u8(0x8000_000b), 0xca);
    assert_eq!(bus.memory.read_u32(8), 0xcafe_f00d);
}

#[test]
fn bus_range_check() {
    assert!(check_range(0x8000_0000, 4));
    assert!(check_range(0x8000_1000, 4));
    assert!(check_range(0x8000_fffc, 4));
    assert!(!check_range(0x8000_fffd, 4));
    assert!(!check_range(0x8001_0000, 1));
    assert!(!check_range(0, 4));
    assert!(!check_range(0x7fff_ffff, 1));
}

#[test]
fn reg_names() {
    assert_eq!(get_int_reg_name(0), "zero");
    assert_eq!(get_int_reg_name(1), "ra");
    assert_eq!(get_int_reg_name(2), "sp");
    assert_eq!(get_int_reg_name(10), "a0");
    assert_eq!(get_int_reg_name(31), "t6");
    assert_eq!(get_int_reg_name(32), "INVALID");
}

#[test]
fn csr_names() {
    assert_eq!(get_csr_name(0x300), "mstatus");
    assert_eq!(get_csr_name(0x305), "mtvec");
    assert_eq!(get_csr_name(0x341), "mepc");
    assert_eq!(get_csr_name(0x342), "mcause");
    assert_eq!(get_csr_name(0x343), "mtval");
    assert_eq!(get_csr_name(0x7c0), "0x7c0");
}

#[test]
fn number_rendering() {
    assert_eq!(u32_to_dec(0), "0");
    assert_eq!(u32_to_dec(7), "7");
    assert_eq!(u32_to_dec(1234), "1234");
    assert_eq!(u32_to_dec(4294967295), "4294967295");
    assert_eq!(u32_to_hex(0), "0");
    assert_eq!(u32_to_hex(255), "ff");
    assert_eq!(u32_to_hex(0x12340000), "12340000");
    assert_eq!(u32_to_hex(0xffff_ffff), "ffffffff");
}
