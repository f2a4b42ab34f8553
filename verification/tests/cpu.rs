use phase::cpu::cop0::{SystemCoproc, Exception, ExceptionCode, STATUS_BOOT_EXC_VECTORS};
use phase::peripheral::controller::{ControllerState, button_bit};
use phase::{Button, ControllerType};

#[test]
fn cop0_reset_and_prid() {
    let mut cop0 = SystemCoproc::new();
    assert_eq!(cop0.reset(), 0xBFC0_0000);
    assert_eq!(cop0.move_from_reg(12), STATUS_BOOT_EXC_VECTORS);
    assert_eq!(cop0.move_from_reg(13), 0);
    assert_eq!(cop0.move_from_reg(15), 1);
}

#[test]
fn cop0_exception_and_return() {
    let mut cop0 = SystemCoproc::new();
    // Register 13 takes the status, register 12 the cause.
    cop0.move_to_reg(13, STATUS_BOOT_EXC_VECTORS | 0x0000_0401);
    assert_eq!(cop0.move_from_reg(12), STATUS_BOOT_EXC_VECTORS | 0x0000_0401);
    assert!(!cop0.check_interrupt());
    let vector = cop0.trigger_exception(&Exception {
        code: ExceptionCode::Syscall,
        bad_virtual_addr: 0,
        ret_addr: 0x8001_2340,
        branch_delay: false,
    });
    assert_eq!(vector, 0xBFC0_0180);
    assert_eq!(cop0.move_from_reg(14), 0x8001_2340);
    assert_eq!(cop0.move_from_reg(13) & 0x7C, 8 << 2);
    assert_eq!(cop0.move_from_reg(12), STATUS_BOOT_EXC_VECTORS | 0x0000_0404);
    // RFE restores the mode bits.
    cop0.operation(0x10);
    assert_eq!(cop0.move_from_reg(12), STATUS_BOOT_EXC_VECTORS | 0x0000_0401);
}

#[test]
fn cop0_exception_vector_after_boot() {
    let mut cop0 = SystemCoproc::new();
    cop0.move_to_reg(13, 0);
    let vector = cop0.trigger_exception(&Exception {
        code: ExceptionCode::AddrErrorLoad,
        bad_virtual_addr: 0x1235,
        ret_addr: 0x100,
        branch_delay: false,
    });
    assert_eq!(vector, 0x8000_0080);
    assert_eq!(cop0.move_from_reg(8), 0x1235);
    assert_eq!(ExceptionCode::AddrErrorLoad.number(), 4);
}

#[test]
fn cop0_external_interrupt() {
    let mut cop0 = SystemCoproc::new();
    cop0.move_to_reg(13, 0x0000_0401);
    assert!(cop0.external_interrupt(0x04));
    assert!(cop0.check_interrupt());
    assert!(!cop0.external_interrupt(0x08));
    assert!(!cop0.external_interrupt(0));
}

#[test]
fn controller_buttons() {
    let mut pad = ControllerState::new(ControllerType::Digital);
    let mut data = [0u16; 4];
    pad.get_binary(&mut data);
    assert_eq!(data[1], 0xFFFF);
    pad.press_button(Button::Cross, true);
    pad.press_button(Button::Start, true);
    pad.get_binary(&mut data);
    assert_eq!(data[1], 0xFFFF & !(1 << 14) & !(1 << 3));
    pad.press_button(Button::Cross, false);
    pad.get_binary(&mut data);
    assert_eq!(data[1], 0xFFFF & !(1 << 3));
    assert_eq!(data[2], 0);
    assert_eq!(button_bit(Button::Square), 15);
    assert_eq!(button_bit(Button::Select), 0);
}
