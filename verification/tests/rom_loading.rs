//! Tests of cartridge-image parsing, the memory bus, the work RAM and the
//! assembled console.

use rusty_nes::bus::bus::Bus;
use rusty_nes::cpu::cpu::CPU;
use rusty_nes::memory::Memory;
use rusty_nes::nes::NES;
use rusty_nes::ram::RAM;
use rusty_nes::rom::{Header, MirroringType, ROMReadError, ROM};

/// A minimal well-formed iNES image: one 16 KB program bank and one 8 KB
/// character bank, with markers at the banks' first bytes.
fn sample_image(flags_6: u8) -> Vec<u8> {
    let mut data: Vec<u8> = vec![0x4e, 0x45, 0x53, 0x1a, 1, 1, flags_6, 0, 0, 0, 0, 0, 0, 0, 0, 0];
    let mut prg: Vec<u8> = vec![0u8; 16 * 1024];
    prg[0] = 0xaa;
    let mut chr: Vec<u8> = vec![0u8; 8 * 1024];
    chr[0] = 0xbb;
    data.extend_from_slice(&prg);
    data.extend_from_slice(&chr);
    data
}

#[test]
fn loading_a_well_formed_image() {
    let data: Vec<u8> = sample_image(0x01);
    let rom: ROM = ROM::load(&data).expect("well-formed image");
    assert_eq!(rom.header.prg_rom_size, 1);
    assert_eq!(rom.header.chr_rom_size, 1);
    assert_eq!(rom.header.flags_6, 0x01);
    assert_eq!(rom.prg_rom.len(), 16 * 1024);
    assert_eq!(rom.chr_rom.len(), 8 * 1024);
    assert_eq!(rom.prg_rom[0], 0xaa);
    assert_eq!(rom.chr_rom[0], 0xbb);
    assert_eq!(rom.header.nes_constant, [0x4e, 0x45, 0x53, 0x1a]);
}

#[test]
fn mirroring_follows_the_first_flag_bit() {
    let vertical: Vec<u8> = sample_image(0x01);
    assert_eq!(ROM::load(&vertical).unwrap().mirroring, MirroringType::Vertical);
    let horizontal: Vec<u8> = sample_image(0x00);
    assert_eq!(ROM::load(&horizontal).unwrap().mirroring, MirroringType::Horizontal);
}

#[test]
fn fds_and_unif_images_are_not_supported() {
    let mut fds: Vec<u8> = sample_image(0);
    fds[0] = 0x46;
    fds[1] = 0x44;
    fds[2] = 0x53;
    fds[3] = 0x1a;
    assert_eq!(ROM::load(&fds).unwrap_err(), ROMReadError::NotSupported);

    let mut unif: Vec<u8> = sample_image(0);
    unif[0] = 0x55;
    unif[1] = 0x4e;
    unif[2] = 0x49;
    unif[3] = 0x46;
    assert_eq!(ROM::load(&unif).unwrap_err(), ROMReadError::NotSupported);
}

#[test]
fn alien_and_short_images_are_format_errors() {
    let mut garbage: Vec<u8> = sample_image(0);
    garbage[0] = 0x00;
    assert_eq!(ROM::load(&garbage).unwrap_err(), ROMReadError::FormatError);

    let short: Vec<u8> = vec![0x4e, 0x45, 0x53];
    assert_eq!(ROM::load(&short).unwrap_err(), ROMReadError::FormatError);

    // A header that promises more bytes than the image holds.
    let truncated: Vec<u8> = sample_image(0)[..20 * 1024].to_vec();
    assert_eq!(ROM::load(&truncated).unwrap_err(), ROMReadError::FormatError);
}

#[test]
fn header_parses_its_fields() {
    let mut data: Vec<u8> = sample_image(0b_0000_0011);
    data[7] = 0x40;
    data[8] = 2;
    data[9] = 1;
    data[10] = 0x20;
    let header: Header = Header::new(&data).expect("iNES magic");
    assert_eq!(header.prg_rom_size, 1);
    assert_eq!(header.chr_rom_size, 1);
    assert_eq!(header.flags_6, 0b_0000_0011);
    assert_eq!(header.flags_7, 0x40);
    assert_eq!(header.prg_ram_size, 2);
    assert_eq!(header.flags_9, 1);
    assert_eq!(header.flags_10, 0x20);
}

#[test]
fn io_failures_have_their_own_error() {
    // Reading the image's bytes is the caller's business; a read failure is
    // reported distinctly from a malformed image.
    let e: ROMReadError = ROMReadError::IoError;
    assert_ne!(e, ROMReadError::FormatError);
    assert_ne!(e, ROMReadError::NotSupported);
}

#[test]
fn memory_is_little_endian_and_wraps() {
    let mut mem: Memory = Memory::new();
    mem.write(0x1234, 0xcd);
    mem.write(0x1235, 0xab);
    assert_eq!(mem.read_byte(0x1234), 0xcd);
    assert_eq!(mem.read_word(0x1234), 0xabcd);
    // The word at the top of the space wraps to address 0.
    mem.write(0xffff, 0x12);
    mem.write(0x0000, 0x34);
    assert_eq!(mem.read_word(0xffff), 0x3412);
}

#[test]
fn work_ram_reads_back_writes() {
    let mut wram: RAM = RAM::new();
    assert_eq!(wram.read_byte(0x0000), 0);
    wram.write(0x0123, 0x77);
    assert_eq!(wram.read_byte(0x0123), 0x77);
    wram.write(0x0124, 0x55);
    assert_eq!(wram.read_word(0x0123), 0x5577);
    assert_eq!(wram.data.len(), 0x800);
}

#[test]
fn console_assembles_from_an_image() {
    let data: Vec<u8> = sample_image(0x01);
    let nes: NES = NES::new(&data);
    assert!(nes.rom.is_ok());
    assert_eq!(nes.cpu.sp_reg, 0xfd);
    assert_eq!(nes.cpu.p_reg.data, 0x34);
    assert_eq!(nes.wram.data.len(), 0x800);

    let broken: Vec<u8> = vec![0u8; 4];
    let nes2: NES = NES::new(&broken);
    assert!(nes2.rom.is_err());
}

#[test]
fn bus_groups_cpu_and_work_ram() {
    let cpu: CPU = CPU::new(Memory::new());
    let wram: RAM = RAM::new();
    let bus: Bus = Bus::new(cpu, wram);
    assert_eq!(bus.cpu.sp_reg, 0xfd);
    assert_eq!(bus.wram.data.len(), 0x800);
}
