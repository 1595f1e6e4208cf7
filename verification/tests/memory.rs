use feo_boy::memory::mbc::{Mbc, Mbc1};
use feo_boy::memory::Addressable;
use feo_boy::memory::{BiosError, CartridgeError, Mmu};

#[test]
fn mod_rom() {
    let mut mmu = Mmu::new();
    mmu.unmap_bios();

    mmu.mem.rom[0] = 1;
    assert_eq!(mmu.read_byte(0x0000), 1);

    mmu.mem.rom[0x100] = 2;
    assert_eq!(mmu.read_byte(0x0100), 2);

    mmu.mem.rom[0x7FFF] = 3;
    assert_eq!(mmu.read_byte(0x7FFF), 3);
}

#[test]
fn memory_rom() {
    let mut mmu = Mmu::new();
    mmu.unmap_bios();

    mmu.mem.rom[0] = 1;
    assert_eq!(mmu.read_byte(0x0000), 1);

    mmu.mem.rom[0x100] = 2;
    assert_eq!(mmu.read_byte(0x0100), 2);

    mmu.mem.rom[0x7FFF] = 3;
    assert_eq!(mmu.read_byte(0x7FFF), 3);
}

#[test]
fn mod_wram() {
    let mut mmu = Mmu::new();

    mmu.mem.wram[0] = 1;
    assert_eq!(mmu.read_byte(0xC000), 1);
    assert_eq!(mmu.read_byte(0xE000), 1);

    mmu.mem.wram[0x1FFF] = 2;
    assert_eq!(mmu.read_byte(0xDFFF), 2);

    mmu.mem.wram[0x1FFF - 512] = 3;
    assert_eq!(mmu.read_byte(0xFDFF), 3);
}

#[test]
fn memory_wram() {
    let mut mmu = Mmu::new();

    mmu.mem.wram[0] = 1;
    assert_eq!(mmu.read_byte(0xC000), 1);
    assert_eq!(mmu.read_byte(0xE000), 1);

    mmu.mem.wram[0x1FFF] = 2;
    assert_eq!(mmu.read_byte(0xDFFF), 2);

    mmu.mem.wram[0x1FFF - 512] = 3;
    assert_eq!(mmu.read_byte(0xFDFF), 3);
}

#[test]
fn mod_zram() {
    let mut mmu = Mmu::new();

    mmu.mem.zram[0] = 1;
    assert_eq!(mmu.read_byte(0xFF80), 1);

    mmu.mem.zram[0x7E] = 2;
    assert_eq!(mmu.read_byte(0xFFFE), 2);
}

fn rom_with_type(cartridge_type: u8) -> Vec<u8> {
    let mut rom = vec![0u8; 0x8000];
    rom[0x147] = cartridge_type;
    let mut sum: u8 = 0;
    for byte in &rom[0x134..0x14D] {
        sum = sum.wrapping_sub(*byte).wrapping_sub(1);
    }
    rom[0x14D] = sum;
    rom
}

#[test]
fn mmu_bios_size() {
    let mut mmu = Mmu::new();
    assert_eq!(mmu.load_bios(&[0; 10]), Err(BiosError::InvalidSize));
    assert!(!mmu.has_bios());
    assert!(mmu.load_bios(&[7; 256]).is_ok());
    assert!(mmu.has_bios());
    assert_eq!(mmu.read_byte(0x0010), 7);
    mmu.unmap_bios();
    assert_eq!(mmu.read_byte(0x0010), 0);
}

#[test]
fn mmu_rom_too_small() {
    let mut mmu = Mmu::new();
    assert!(matches!(mmu.load_rom(&[0; 0x100]), Err(CartridgeError::InvalidSize)));
}

#[test]
fn mmu_rom_bad_checksum() {
    let mut mmu = Mmu::new();
    let mut rom = rom_with_type(0x00);
    rom[0x14D] = rom[0x14D].wrapping_add(1);
    match mmu.load_rom(&rom) {
        Err(CartridgeError::BadChecksum { checksum, sum }) => {
            assert_eq!(checksum, rom[0x14D]);
            assert_eq!(sum, rom[0x14D].wrapping_sub(1));
        }
        other => panic!("unexpected result: {:?}", other.is_ok()),
    }
}

#[test]
fn mmu_rom_only() {
    let mut mmu = Mmu::new();
    let mut rom = rom_with_type(0x00);
    rom[0x4000] = 0x99;
    assert!(mmu.load_rom(&rom).is_ok());
    assert!(mmu.mbc.is_none());
    mmu.unmap_bios();
    assert_eq!(mmu.read_byte(0x4000), 0x99);
    assert_eq!(mmu.read_byte(0xA000), 0xFF);
}

#[test]
fn mmu_rom_unimplemented() {
    let mut mmu = Mmu::new();
    let rom = rom_with_type(0x19);
    match mmu.load_rom(&rom) {
        Err(CartridgeError::Unimplemented(name)) => assert_eq!(name, "MBC5"),
        other => panic!("unexpected result: {:?}", other.is_ok()),
    }
}

#[test]
fn mmu_mbc1_banks() {
    let mut mmu = Mmu::new();
    let mut rom = rom_with_type(0x01);
    rom.resize(0x10000, 0);
    rom[0x8000] = 0x22;
    rom[0x4000] = 0x11;
    assert!(mmu.load_rom(&rom).is_ok());
    mmu.unmap_bios();
    assert_eq!(mmu.read_byte(0x4000), 0x11);
    mmu.write_byte(0x2000, 2);
    assert_eq!(mmu.read_byte(0x4000), 0x22);
}

#[test]
fn mmu_reset_clears_wram() {
    let mut mmu = Mmu::new();
    mmu.write_byte(0xC010, 5);
    assert_eq!(mmu.read_byte(0xC010), 5);
    mmu.reset();
    assert_eq!(mmu.read_byte(0xC010), 0);
}

#[test]
fn mbc1_bank_switch() {
    let mut rom = vec![0u8; 0x4000 * 4];
    rom[0x4000] = 1;
    rom[0x8000] = 2;
    rom[0xC123] = 3;
    let mut mbc = Mbc1::new(rom);
    assert!(mbc.in_bounds(0x4000));
    assert_eq!(mbc.read_byte(0x4000), 1);

    mbc.write_byte(0x2000, 2);
    assert_eq!(mbc.read_byte(0x4000), 2);
    mbc.write_byte(0x2000, 3);
    assert_eq!(mbc.read_word(0x4122), 0x0300);
    assert!(!{
        mbc.write_byte(0x2000, 4);
        mbc.in_bounds(0x4000)
    });

    mbc.write_byte(0x0000, 0x0A);
    assert_eq!(mbc.read_word(0xA000), 0x0000);
}

#[test]
fn mmu_reset_maps_bios() {
    let mut mmu = Mmu::new();
    mmu.unmap_bios();
    assert!(!mmu.bios_mapped);
    mmu.reset();
    assert!(mmu.bios_mapped);
    assert!(!mmu.has_bios());
}
