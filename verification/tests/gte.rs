use phase::gte::{
    GTE, VXY0, VZ0, IR0, IR1, IR2, IR3, SXY2, SZ3, MAC0, MAC1, MAC2, MAC3, RT11_12, RT13_21, RT22_23,
    RT31_32, RT33, TRX, TRY, TRZ, H, OFX, OFY, DQA, DQB, FLAG, VXY1, VZ1, VXY2, VZ2, SXY0, SXY1, OTZ, SZ1,
    SZ2, ZSF3, LZCS, LZCR, RGBC, RGB2, L11_12, L13_21, L22_23, L31_32, L33, LR1R2, LG2G3, LB3,
};

fn make_u32(lo: i16, hi: i16) -> u32 {
    (lo as u16 as u32) | ((hi as u16 as u32) << 16)
}

#[test]
fn rtps() {
    let mut gte = GTE::new();
    // In
    gte.move_to_reg(VXY0, make_u32(0x1_800, 0x0_800));
    gte.move_to_reg(VZ0, 0x1_000);
    gte.move_to_control(RT11_12, make_u32(0x1_000, 0x0_000));
    gte.move_to_control(RT13_21, make_u32(0x0_000, 0x0_000));
    gte.move_to_control(RT22_23, make_u32(0x1_000, 0x0_000));
    gte.move_to_control(RT31_32, make_u32(0x0_000, 0x0_000));
    gte.move_to_control(RT33, 0x1_000);
    gte.move_to_control(TRX, 0x2);
    gte.move_to_control(TRY, 0x2);
    gte.move_to_control(TRZ, 0x2);
    gte.move_to_control(H, 0x100);
    gte.move_to_control(OFX, 0x0);
    gte.move_to_control(OFY, 0x0);
    gte.move_to_control(DQA, 0x1);
    gte.move_to_control(DQB, 0x0);

    gte.rtps(12, false);

    // Out
    assert_eq!(gte.read_data_reg(IR0), 0x0);
    assert_eq!(gte.read_data_reg(IR1), 0x1802);
    assert_eq!(gte.read_data_reg(IR2), 0x0802);
    assert_eq!(gte.read_data_reg(IR3), 0x1002);
    assert_eq!(gte.read_data_reg(SXY2), 0x0080_017F);
    assert_eq!(gte.read_data_reg(SZ3), 0x1002);
    assert_eq!(gte.read_data_reg(MAC0), 0x00000FFE);
    assert_eq!(gte.read_data_reg(MAC1), 0x01802000);
    assert_eq!(gte.read_data_reg(MAC2), 0x00802000);
    assert_eq!(gte.read_data_reg(MAC3), 0x01002000);
    assert_eq!(gte.read_data_reg(FLAG), 0x0);
    assert_eq!(gte.move_from_control(FLAG), 0x0);
}

#[test]
fn rtpt_pushes_screen_fifo() {
    let mut gte = GTE::new();
    gte.move_to_control(RT11_12, 0x1000);
    gte.move_to_control(RT22_23, 0x1000);
    gte.move_to_control(RT33, 0x1000);
    gte.move_to_control(H, 0x100);
    gte.move_to_reg(VXY0, make_u32(0x100, 0x200));
    gte.move_to_reg(VZ0, 0x1000);
    gte.move_to_reg(VXY1, make_u32(0x300, 0x400));
    gte.move_to_reg(VZ1, 0x1000);
    gte.move_to_reg(VXY2, make_u32(0x500, 0x600));
    gte.move_to_reg(VZ2, 0x1000);
    gte.rtpt(12, false);
    // Each screen point is (v * 0x100 / 0x1000) rounded.
    assert_eq!(gte.read_data_reg(SXY0), make_u32(0x10, 0x20));
    assert_eq!(gte.read_data_reg(SXY1), make_u32(0x30, 0x40));
    assert_eq!(gte.read_data_reg(SXY2), make_u32(0x50, 0x60));
    assert_eq!(gte.read_data_reg(SZ3), 0x1000);
}

#[test]
fn rtps_divide_overflow_sets_flags() {
    let mut gte = GTE::new();
    gte.move_to_control(H, 0x100);
    gte.rtps(12, false);
    // SZ3 is 0, so the division overflows: DivOvf (bit 17) and checksum (bit 31).
    assert_eq!(gte.move_from_control(FLAG), 0x8002_0000);
    assert_eq!(gte.read_data_reg(SZ3), 0);
}

#[test]
fn nclip_signed_area() {
    let mut gte = GTE::new();
    gte.move_to_reg(SXY0, make_u32(0, 0));
    gte.move_to_reg(SXY1, make_u32(10, 0));
    gte.move_to_reg(SXY2, make_u32(0, 10));
    gte.operation(0x06);
    assert_eq!(gte.read_data_reg(MAC0), 100);
    gte.move_to_reg(SXY1, make_u32(0, 10));
    gte.move_to_reg(SXY2, make_u32(10, 0));
    gte.operation(0x06);
    assert_eq!(gte.read_data_reg(MAC0) as i32, -100);
}

#[test]
fn sqr_squares_ir() {
    let mut gte = GTE::new();
    gte.move_to_reg(IR1, 3);
    gte.move_to_reg(IR2, (-4i32) as u32);
    gte.move_to_reg(IR3, 0x7FFF);
    gte.sqr(0, false);
    assert_eq!(gte.read_data_reg(MAC1), 9);
    assert_eq!(gte.read_data_reg(MAC2), 16);
    assert_eq!(gte.read_data_reg(IR1), 9);
    assert_eq!(gte.read_data_reg(IR2), 16);
    // 0x7FFF^2 saturates IR3.
    assert_eq!(gte.read_data_reg(IR3), 0x7FFF);
    assert_eq!(gte.move_from_control(FLAG), 0x8040_0000);
}

#[test]
fn avsz3_averages() {
    let mut gte = GTE::new();
    gte.move_to_control(ZSF3, 0x555);
    gte.move_to_reg(SZ1, 0x300);
    gte.move_to_reg(SZ2, 0x300);
    gte.move_to_reg(SZ3, 0x300);
    gte.avsz3();
    assert_eq!(gte.read_data_reg(MAC0), 0x555 * 0x900);
    assert_eq!(gte.read_data_reg(OTZ), (0x555 * 0x900) >> 12);
}

#[test]
fn lzcr_counts_leading_bits() {
    let mut gte = GTE::new();
    gte.move_to_reg(LZCS, 0x0000_FFFF);
    assert_eq!(gte.move_from_reg(LZCR), 16);
    gte.move_to_reg(LZCS, 0xFF00_0000);
    assert_eq!(gte.move_from_reg(LZCR), 8);
    gte.move_to_reg(LZCS, 0);
    assert_eq!(gte.move_from_reg(LZCR), 32);
    assert_eq!(gte.store_to_mem(LZCS), 0);
}

#[test]
fn ncs_background_color() {
    let mut gte = GTE::new();
    gte.move_to_reg(RGBC, 0x2A00_0000);
    gte.move_to_control(L11_12, 0);
    gte.move_to_control(L22_23, 0);
    gte.move_to_control(L33, 0);
    gte.move_to_control(LR1R2, 0);
    gte.move_to_control(LG2G3, 0);
    gte.move_to_control(LB3, 0);
    // Background color (in 1/16 units after >> 4).
    gte.move_to_control(phase::gte::RBK, 0x100);
    gte.move_to_control(phase::gte::GBK, 0x200);
    gte.move_to_control(phase::gte::BBK, 0x300);
    gte.ncs(12, false);
    assert_eq!(gte.read_data_reg(RGB2), 0x2A10_2030);
}

#[test]
fn mvmva_rotation_translation() {
    let mut gte = GTE::new();
    gte.move_to_control(RT11_12, 0x1000);
    gte.move_to_control(RT22_23, 0x1000);
    gte.move_to_control(RT33, 0x1000);
    gte.move_to_control(TRX, 1);
    gte.move_to_control(TRY, 2);
    gte.move_to_control(TRZ, 3);
    gte.move_to_reg(VXY0, make_u32(10, 20));
    gte.move_to_reg(VZ0, 30);
    gte.mvmva(12, false, 0, 0, 0);
    assert_eq!(gte.read_data_reg(IR1), 11);
    assert_eq!(gte.read_data_reg(IR2), 22);
    assert_eq!(gte.read_data_reg(IR3), 33);
    let _ = RGB2;
}

#[test]
fn operation_sqr_with_sf_bit_shifts_by_twelve() {
    let mut gte = GTE::new();
    gte.move_to_reg(IR1, 0x40);
    gte.operation(0x0008_0028);
    assert_eq!(gte.read_data_reg(MAC1), 0x1000);
    assert_eq!(gte.read_data_reg(IR1), 1);
    assert_eq!(gte.read_data_reg(IR2), 0);
    assert_eq!(gte.read_data_reg(IR3), 0);
    assert_eq!(gte.move_from_control(FLAG), 0);
}

/// RT = [[1,1,2],[2,3,3],[4,4,5]], V0 = (1,0,0), no translation.
fn rows_setup() -> GTE {
    let mut gte = GTE::new();
    gte.move_to_control(RT11_12, make_u32(1, 1));
    gte.move_to_control(RT13_21, make_u32(2, 2));
    gte.move_to_control(RT22_23, make_u32(3, 3));
    gte.move_to_control(RT31_32, make_u32(4, 4));
    gte.move_to_control(RT33, make_u32(5, 5));
    gte.move_to_reg(VXY0, make_u32(1, 0));
    gte.move_to_reg(VZ0, 0);
    gte
}

#[test]
fn mvmva_multiplies_rows_of_the_matrix() {
    let mut gte = rows_setup();
    let mut other = rows_setup();
    gte.mvmva(0, false, 0, 0, 0);
    assert_eq!(gte.read_data_reg(MAC1), 1);
    assert_eq!(gte.read_data_reg(MAC2), 2);
    assert_eq!(gte.read_data_reg(MAC3), 4);
    assert_eq!(gte.read_data_reg(IR1), 1);
    assert_eq!(gte.read_data_reg(IR2), 2);
    assert_eq!(gte.read_data_reg(IR3), 4);
    // The perspective transformation uses the same rows.
    other.rtps(0, false);
    assert_eq!(other.read_data_reg(MAC1), 1);
    assert_eq!(other.read_data_reg(MAC2), 2);
    assert_eq!(other.read_data_reg(IR3), 4);
}

#[test]
fn mvmva_light_matrix_times_vector_one() {
    // L = [[1,2,3],[4,5,6],[7,8,9]], V1 = (1,10,100), translation vector 3 (none).
    let mut gte = GTE::new();
    gte.move_to_control(L11_12, make_u32(1, 2));
    gte.move_to_control(L13_21, make_u32(3, 4));
    gte.move_to_control(L22_23, make_u32(5, 6));
    gte.move_to_control(L31_32, make_u32(7, 8));
    gte.move_to_control(L33, make_u32(9, 0));
    gte.move_to_reg(VXY1, make_u32(1, 10));
    gte.move_to_reg(VZ1, 100);
    gte.mvmva(0, false, 1, 1, 3);
    assert_eq!(gte.read_data_reg(MAC1), 321);
    assert_eq!(gte.read_data_reg(MAC2), 654);
    assert_eq!(gte.read_data_reg(MAC3), 987);
}
