use phase::interrupt::IRQ_PERIPHERAL;
use phase::peripheral::PeripheralPort;
use phase::peripheral::controller::ControllerState;
use phase::peripheral::memcard::MemoryCard;
use phase::{Button, ControllerType, Port};

const DATA: u32 = 0x1F80_1040;
const STAT: u32 = 0x1F80_1044;
const CTRL: u32 = 0x1F80_104A;
const BAUD: u32 = 0x1F80_104E;

fn transfer_all(card: &mut MemoryCard, bytes: &[u8]) -> Vec<u8> {
    bytes.iter().map(|b| card.transfer_data(*b)).collect()
}

fn write_command(hi: u8, lo: u8, data: &[u8]) -> Vec<u8> {
    let checksum = data.iter().fold(hi ^ lo, |c, b| c ^ b);
    let mut cmd = vec![0x57, 0x00, 0x00, hi, lo];
    cmd.extend_from_slice(data);
    cmd.extend_from_slice(&[checksum, 0x00, 0x00, 0x00]);
    cmd
}

fn read_command(hi: u8, lo: u8) -> Vec<u8> {
    let mut cmd = vec![0x52, 0x00, 0x00, hi, lo];
    cmd.extend_from_slice(&[0u8; 134]);
    cmd
}

#[test]
fn memcard_write_then_read() {
    let mut card = MemoryCard::new(None);
    let data: Vec<u8> = (0..128).map(|i| (i * 3 + 1) as u8).collect();
    let out = transfer_all(&mut card, &write_command(0x01, 0x05, &data));
    // The flag byte, the card's ID, the sector number echoed back, ...
    assert_eq!(out[0], 0x08);
    assert_eq!(&out[1..3], &[0x5A, 0x5D]);
    assert_eq!(out[3], 0x00);
    assert_eq!(out[4], 0x01);
    assert_eq!(out[5], 0x00);
    assert_eq!(&out[out.len() - 3..], &[0x5C, 0x5D, 0x47]);
    assert!(card.transfer_complete());

    let out = transfer_all(&mut card, &read_command(0x01, 0x05));
    assert_eq!(out.len(), 139);
    assert_eq!(&out[1..3], &[0x5A, 0x5D]);
    assert_eq!(&out[5..9], &[0x5C, 0x5D, 0x01, 0x05]);
    assert_eq!(&out[9..137], &data[..]);
    let checksum = data.iter().fold(0x01 ^ 0x05, |c, b| c ^ b);
    assert_eq!(out[137], checksum);
    assert_eq!(out[138], 0x47);
    // A good read clears the flag.
    assert_eq!(card.transfer_data(0x52), 0x00);
    card.cancel_transfer();

    // The sector is stored at 128 bytes per sector.
    let contents = card.flush().unwrap();
    let start = 0x105 * 128;
    assert_eq!(&contents[start..start + 128], &data[..]);
    assert!(contents[start - 1] == 0 && contents[start + 128] == 0);
    assert!(card.flush().is_none());
}

#[test]
fn memcard_get_id() {
    let mut card = MemoryCard::new(Some(vec![0xAB; 128 * 1024]));
    let out = transfer_all(&mut card, &[0x53, 0, 0, 0, 0, 0, 0, 0, 0]);
    assert_eq!(out, vec![0x08, 0x5A, 0x5D, 0x5C, 0x5D, 0x04, 0x00, 0x00, 0x80]);
    assert!(card.transfer_complete());
    // An unknown command answers zero and starts nothing.
    assert_eq!(card.transfer_data(0x12), 0x00);
    assert!(card.transfer_complete());
    // Existing contents need no writing back.
    assert!(card.flush().is_none());
}

#[test]
fn memcard_bad_sector_and_checksum() {
    let mut card = MemoryCard::new(None);
    let out = transfer_all(&mut card, &[0x52, 0, 0, 0x04, 0x00, 0, 0, 0, 0]);
    assert_eq!(&out[7..9], &[0xFF, 0xFF]);
    assert!(card.transfer_complete());

    let data = [0u8; 128];
    let mut cmd = write_command(0x00, 0x01, &data);
    let bad = cmd[133] ^ 1;
    cmd[133] = bad;
    let out = transfer_all(&mut card, &cmd[..133]);
    assert_eq!(out.len(), 133);
    assert!(!card.can_transfer(bad));
    assert!(card.can_transfer(bad ^ 1));
}

/// Send a byte, let a baud period pass, and take the answer.
fn exchange(port: &mut PeripheralPort, byte: u8) -> (u8, u32) {
    port.write_byte(DATA, byte);
    assert!(port.can_clock(1088));
    let irq = port.clock(1088);
    (port.read_byte(DATA), irq)
}

fn setup_port() -> PeripheralPort {
    let mut port = PeripheralPort::new();
    port.write_halfword(BAUD, 0x88);
    // Transmit enable, select the first port, acknowledge interrupts.
    port.write_halfword(CTRL, 0x1003);
    port
}

#[test]
fn port_controller_poll() {
    let mut port = setup_port();
    let mut pad = ControllerState::new(ControllerType::Digital);
    pad.press_button(Button::Cross, true);
    port.set_controller_state(Port::One, pad);
    let answers: Vec<u8> = [0x01, 0x42, 0x00, 0x00, 0x00].iter().map(|b| exchange(&mut port, *b).0).collect();
    assert_eq!(answers, vec![0xFF, 0x41, 0x5A, 0xFF, 0xBF]);
    // Each byte raised the acknowledge interrupt.
    port.write_byte(DATA, 0x01);
    assert_eq!(port.clock(1088), IRQ_PERIPHERAL);
    assert_eq!(port.clock(1), 0);
}

#[test]
fn port_unplugged_controller() {
    let mut port = setup_port();
    port.set_controller_state(Port::One, ControllerState::new(ControllerType::Digital));
    port.clear_controller_state(Port::One);
    let answers: Vec<u8> = [0x01, 0x42, 0x00].iter().map(|b| exchange(&mut port, *b).0).collect();
    // Nobody answers: the transfer ends after the ID's high byte.
    assert_eq!(answers, vec![0xFF, 0xFF, 0xFF]);
}

#[test]
fn port_memory_card_id() {
    let mut port = setup_port();
    port.insert_mem_card(Port::One, None);
    let bytes = [0x81, 0x53, 0, 0, 0, 0, 0, 0, 0, 0];
    let answers: Vec<u8> = bytes.iter().map(|b| exchange(&mut port, *b).0).collect();
    assert_eq!(answers, vec![0xFF, 0x08, 0x5A, 0x5D, 0x5C, 0x5D, 0x04, 0x00, 0x00, 0x80]);
    let (first, second) = port.flush_mem_cards();
    assert_eq!(first.unwrap().len(), 128 * 1024);
    assert!(second.is_none());
    let (first, _) = port.flush_mem_cards();
    assert!(first.is_none());
}

#[test]
fn port_status_and_cancel() {
    let mut port = PeripheralPort::new();
    assert_eq!(port.read_halfword(STAT), 0);
    port.write_halfword(BAUD, 0x10);
    port.write_halfword(CTRL, 0x0003);
    port.write_byte(DATA, 0x01);
    // Ready to send; the timer (0x10 * 8 cycles) shows in the top bits.
    assert_eq!(port.read_word(STAT), 0x0001 | ((0x80 / 8) << 11));
    // An unknown first byte cannot be sent.
    let mut other = PeripheralPort::new();
    other.write_byte(DATA, 0x02);
    assert!(!other.can_clock(1_000_000));
    // Clearing transmit enable cancels the transfer.
    port.write_halfword(CTRL, 0x0000);
    assert_eq!(port.read_halfword(STAT) & 1, 0);
    assert!(port.can_clock(1_000_000));
    assert_eq!(port.read_byte(DATA), 0xFF);
}
