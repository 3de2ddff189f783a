use rust64::c64::crt::{Crt, CrtError, ChipType};
use rust64::c64::memory::Memory;

fn image(hw_type: u16, chip_type: u16, data: &[u8]) -> Vec<u8> {
    let mut d: Vec<u8> = b"C64 CARTRIDGE   ".to_vec();
    d.extend_from_slice(&[0x00, 0x00, 0x00, 0x40]); // header length
    d.extend_from_slice(&[0x01, 0x00]); // version
    d.extend_from_slice(&hw_type.to_be_bytes());
    d.push(0x00); // exrom
    d.push(0x01); // game
    while d.len() < 0x20 {
        d.push(0);
    }
    d.extend_from_slice(b"TEST");
    while d.len() < 0x40 {
        d.push(0);
    }
    d.extend_from_slice(b"CHIP");
    d.extend_from_slice(&((0x10 + data.len()) as u32).to_be_bytes());
    d.extend_from_slice(&chip_type.to_be_bytes());
    d.extend_from_slice(&[0x00, 0x00]); // bank
    d.extend_from_slice(&[0x80, 0x00]); // load address
    d.extend_from_slice(&(data.len() as u16).to_be_bytes());
    d.extend_from_slice(data);
    d
}

#[test]
fn parses_header_and_chip() {
    let d = image(0, 0, &[1, 2, 3, 4]);
    let crt = Crt::from_bytes(&d).ok().unwrap();
    assert_eq!(crt.header.header_len, 0x40);
    assert_eq!(crt.header.version, [1, 0]);
    assert_eq!(crt.header.exrom, 0);
    assert_eq!(crt.header.game, 1);
    assert_eq!(&crt.header.name[0..4], b"TEST");
    assert_eq!(crt.chips.len(), 1);
    assert_eq!(crt.chips[0].chip_type, ChipType::ROM);
    assert_eq!(crt.chips[0].load_addr, 0x8000);
    assert_eq!(crt.chips[0].length, 0x14);
    assert_eq!(crt.chips[0].data, vec![1, 2, 3, 4]);
}

#[test]
fn two_chips_follow_each_other() {
    let mut d = image(0, 1, &[9, 8]);
    d.extend_from_slice(b"CHIP");
    d.extend_from_slice(&[0, 0, 0, 0x11, 0, 2, 0, 1, 0xA0, 0x00, 0, 1, 0x77]);
    let crt = Crt::from_bytes(&d).ok().unwrap();
    assert_eq!(crt.chips.len(), 2);
    assert_eq!(crt.chips[0].chip_type, ChipType::RAM);
    assert_eq!(crt.chips[1].chip_type, ChipType::Flash);
    assert_eq!(crt.chips[1].bank_number, 1);
    assert_eq!(crt.chips[1].load_addr, 0xA000);
    assert_eq!(crt.chips[1].data, vec![0x77]);
}

#[test]
fn short_chip_data_is_zero_padded() {
    let mut d = image(0, 0, &[5, 6, 7, 8]);
    d.truncate(d.len() - 2);
    let crt = Crt::from_bytes(&d).ok().unwrap();
    assert_eq!(crt.chips[0].data, vec![5, 6, 0, 0]);
}

#[test]
fn bad_signature_is_refused() {
    let mut d = image(0, 0, &[1]);
    d[0] = b'X';
    assert_eq!(Crt::from_bytes(&d).err(), Some(CrtError::InvalidSignature));
}

#[test]
fn unsupported_hardware_type_is_refused() {
    let d = image(1, 0, &[1]);
    assert_eq!(Crt::from_bytes(&d).err(), Some(CrtError::UnsupportedType));
}

#[test]
fn invalid_chip_type_is_refused() {
    let d = image(0, 5, &[1]);
    assert_eq!(Crt::from_bytes(&d).err(), Some(CrtError::InvalidChipType));
}

#[test]
fn truncated_header_is_refused() {
    let d = image(0, 0, &[1]);
    assert_eq!(Crt::from_bytes(&d[0..22]).err(), Some(CrtError::UnexpectedEof));
}

#[test]
fn chip_data_is_loaded_into_memory() {
    let d = image(0, 0, &[0xDE, 0xAD]);
    let crt = Crt::from_bytes(&d).ok().unwrap();
    let mut mem = Memory::new_shared(vec![0u8; 0x2000], vec![0u8; 0x1000], vec![0u8; 0x2000]);
    crt.load_into_memory(&mut mem);
    assert_eq!(mem.read_byte(0x8000), 0xDE);
    assert_eq!(mem.read_byte(0x8001), 0xAD);
}
