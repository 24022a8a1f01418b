use rustboylib::mbc::mbc0::{ERAM_SIZE, MBC0, ROM_SIZE};
use rustboylib::mbc::mbc1::MBC1;
use rustboylib::mbc::{load_cartridge, Cartridge, CartridgeError, CartridgeHeader, MBC};

/// An image of `size` bytes with the given type and RAM size codes.
fn image(size: usize, mbc_type: u8, ram_code: u8) -> Vec<u8> {
    let mut data = vec![0u8; size];
    data[0x0147] = mbc_type;
    data[0x0149] = ram_code;
    data
}

#[test]
fn test_mbc0_init_error_data_size() {
    for _data_size in [ROM_SIZE, ROM_SIZE + 1] {
        let data = Vec::with_capacity(ROM_SIZE + 1);
        assert!(MBC0::from_data(data).is_err());
    }
}

#[test]
fn test_mbc0_init_error_rom_size_overflow() {
    let rom_data = MBC0::from_data([0x00; 0].to_vec());
    assert!(rom_data.is_err());
}

#[test]
fn test_rom0_init_error_ram_size_0() {
    let rom_data = MBC0::from_data([0x00; 0].to_vec());
    assert!(rom_data.is_err());
}

#[test]
fn test_mbc0_init_error_ram_size_zero() {
    assert!(MBC0::from_data(image(0x8000, 0, 0)).is_ok());
}

#[test]
fn mbc0_size_checks() {
    assert!(MBC0::from_data(image(ROM_SIZE, 0, 0x02)).is_ok());
    assert_eq!(MBC0::from_data(image(ROM_SIZE + 1, 0, 0)).err(), Some(CartridgeError::RomTooLarge));
    assert_eq!(MBC0::from_data(image(0x8000, 0, 0x03)).err(), Some(CartridgeError::InvalidRamSize));
    assert_eq!(MBC0::from_data(vec![0u8; 0x100]).err(), Some(CartridgeError::InvalidRamSize));
    // the smallest image whose header can be read loads
    assert!(MBC0::from_data(vec![0u8; 0x14A]).is_ok());
    let m = MBC0::from_data(image(0x8000, 0, 0x02)).unwrap();
    assert_eq!(m.eram.len(), ERAM_SIZE);
}

#[test]
fn mbc0_reads_and_ram() {
    let mut data = image(0x8000, 0, 0x02);
    data[0x1234] = 0x56;
    let mut m = MBC0::from_data(data).unwrap();
    assert_eq!(m.rom_read(0x1234), 0x56);
    m.rom_control(0x1234, 0x99);
    assert_eq!(m.rom_read(0x1234), 0x56);
    m.ram_write(0xA010, 0x42);
    assert_eq!(m.ram_read(0xA010), 0x42);
    let mut no_ram = MBC0::from_data(image(0x8000, 0, 0)).unwrap();
    no_ram.ram_write(0xA010, 0x42);
    assert_eq!(no_ram.ram_read(0xA010), 0);
}

#[test]
fn header_fields() {
    assert_eq!(CartridgeHeader::address(CartridgeHeader::MBC_TYPE), Some(0x0147));
    assert_eq!(CartridgeHeader::address(CartridgeHeader::RAM_SIZE), Some(0x0149));
    assert_eq!(CartridgeHeader::ram_size(&image(0x150, 0, 0x01)), 0x0800);
    assert_eq!(CartridgeHeader::ram_size(&image(0x150, 0, 0x02)), 0x2000);
    assert_eq!(CartridgeHeader::ram_size(&image(0x150, 0, 0x03)), 0x8000);
    assert_eq!(CartridgeHeader::ram_size(&image(0x150, 0, 0x04)), 0);
}

#[test]
fn mbc1_banking() {
    let mut data = image(0x4000 * 8, 0x03, 0x03);
    for bank in 0..8 {
        data[bank * 0x4000 + 0x10] = bank as u8;
    }
    let mut m = MBC1::new(data).unwrap();
    assert_eq!(m.ram.len(), 0x8000);
    assert_eq!(m.rom_read(0x0010), 0);
    assert_eq!(m.rom_read(0x4010), 1);
    m.rom_control(0x2000, 0x05);
    assert_eq!(m.rom_read(0x4010), 5);
    // bank 0 is promoted to 1
    m.rom_control(0x2000, 0x00);
    assert_eq!(m.rom_read(0x4010), 1);
    assert_eq!(m.rom_bank, 1);
    // the upper bits in ROM mode: 0x20 | 0x01 = 0x21 lies past this image
    m.rom_control(0x4000, 0x01);
    assert_eq!(m.rom_bank, 0x21);
    m.rom_control(0x4000, 0x00);
    // RAM is disabled until 0x0A is written
    m.ram_write(0xA000, 0x11);
    assert_eq!(m.ram_read(0xA000), 0);
    m.rom_control(0x0000, 0x1A);
    m.ram_write(0xA000, 0x11);
    assert_eq!(m.ram_read(0xA000), 0x11);
    // RAM banking mode selects the RAM bank
    m.rom_control(0x6000, 0x01);
    m.rom_control(0x4000, 0x02);
    assert_eq!(m.ram_read(0xA000), 0);
    m.ram_write(0xA000, 0x22);
    assert_eq!(m.ram[2 * 0x2000], 0x22);
    m.rom_control(0x0000, 0x00);
    assert_eq!(m.ram_read(0xA000), 0);
}

#[test]
fn mbc1_rejects_large_rom() {
    assert_eq!(MBC1::new(vec![0u8; 0x4000 * 0x7D + 1]).err(), Some(CartridgeError::RomTooLarge));
}

#[test]
fn load_cartridge_selects_controller() {
    assert!(matches!(load_cartridge(image(0x8000, 0x00, 0)), Ok(Cartridge::NoMapper(_))));
    assert!(matches!(load_cartridge(image(0x8000, 0x01, 0)), Ok(Cartridge::Bank1(_))));
    assert_eq!(load_cartridge(image(0x8000, 0x05, 0)).err().map(|e| e.message()), Some("unsupported cartridge MBC"));
    assert!(matches!(load_cartridge(vec![0u8; 10]), Err(CartridgeError::UnsupportedMapper)));
    assert!(matches!(load_cartridge(vec![0u8; 0x14A]), Ok(Cartridge::NoMapper(_))));
}
