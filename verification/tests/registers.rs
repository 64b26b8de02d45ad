use self_balancing_robot2::imu::adxl345;
use self_balancing_robot2::imu::adxl345_registers::{FULL_RES, RANGE_16G, RANGE_2G, RANGE_4G, RANGE_8G};
use self_balancing_robot2::imu::itg3200;
use self_balancing_robot2::imu::itg3200_registers::{
    DLPFFS_DLPF_CFG, DLPFFS_FS_SEL, INTCFG_ITG_RDY_EN, INTCFG_RAW_RDY_EN, RANGE2000,
};

#[test]
fn accel_sample_is_little_endian_twos_complement() {
    let buffer = [0x34, 0x12, 0xFF, 0xFF, 0x00, 0x80];
    assert_eq!(adxl345::decode_accel(&buffer), (0x1234, -1, -32768));
    assert_eq!(adxl345::combine_le(0x01, 0x00), 1);
    assert_eq!(adxl345::combine_le(0x00, 0x01), 256);
}

#[test]
fn gyro_sample_is_big_endian_twos_complement() {
    let buffer = [0x12, 0x34, 0xFF, 0xFE, 0x7F, 0xFF];
    assert_eq!(itg3200::decode_gyro(&buffer), (0x1234, -2, 32767));
    assert_eq!(itg3200::decode_temp(&[0xCC, 0x70]), -13200);
}

#[test]
fn range_setting_keeps_other_format_bits() {
    assert_eq!(adxl345::format_with_range(0b1010_1110, RANGE_4G), 0b1010_1101);
    assert_eq!(adxl345::format_with_range(0xFF, RANGE_2G), 0xFC);
    assert_eq!(adxl345::format_with_range(0x00, RANGE_16G), 0x03);
    for current in 0..=255u8 {
        for range in [RANGE_2G, RANGE_4G, RANGE_8G, RANGE_16G] {
            let f = adxl345::format_with_range(current, range);
            assert_eq!(adxl345::range_of_format(f), range);
            assert_eq!(f & 0xFC, current & 0xFC);
        }
    }
}

#[test]
fn invalid_range_falls_back_to_2g_without_reading() {
    assert_eq!(adxl345::direct_range_format(4), Some(RANGE_2G));
    assert_eq!(adxl345::direct_range_format(200), Some(RANGE_2G));
    assert_eq!(adxl345::direct_range_format(RANGE_8G), None);
    assert_eq!(adxl345::format_with_range(0xFF, 7), RANGE_2G);
}

#[test]
fn full_res_bit_set_and_cleared() {
    assert_eq!(adxl345::format_with_full_res(0x01, true), 0x09);
    assert_eq!(adxl345::format_with_full_res(0xFF, false), 0xF7);
    assert_eq!(adxl345::format_with_full_res(0x09, true) & FULL_RES, FULL_RES);
}

#[test]
fn accel_offsets_round_trip() {
    assert_eq!(adxl345::offsets_to_registers(-1, 127, -128), (0xFF, 0x7F, 0x80));
    assert_eq!(adxl345::offsets_from_registers(0xFF, 0x7F, 0x80), (-1, 127, -128));
    for v in i8::MIN..=i8::MAX {
        assert_eq!(adxl345::offset_from_register(adxl345::offset_to_register(v)), v);
    }
}

#[test]
fn full_scale_field_round_trip() {
    assert_eq!(itg3200::format_with_full_scale(0x00, RANGE2000), 0x18);
    assert_eq!(itg3200::format_with_full_scale(0xFF, 0), 0xE7);
    for current in 0..=255u8 {
        for range in 0..=3u8 {
            let v = itg3200::format_with_full_scale(current, range);
            assert_eq!(itg3200::full_scale_of(v), range);
            assert_eq!(v & !DLPFFS_FS_SEL, current & !DLPFFS_FS_SEL);
        }
    }
}

#[test]
fn filter_and_clock_fields() {
    assert_eq!(itg3200::format_with_filter(0xF8, 0x0D), 0xFD);
    assert_eq!(itg3200::filter_of(0xFD), 5);
    assert_eq!(itg3200::format_with_filter(0x1F, 0) & !DLPFFS_DLPF_CFG, 0x18);
    assert_eq!(itg3200::format_with_clock_source(0x80, 1), 0x81);
    assert_eq!(itg3200::format_with_clock_source(0xFF, 0x09), 0xF9);
    assert_eq!(itg3200::clock_source_of(0xF9), 1);
}

#[test]
fn interrupt_flags() {
    assert_eq!(itg3200::int_cfg_with_itg_ready(0x00, true), INTCFG_ITG_RDY_EN);
    assert_eq!(itg3200::int_cfg_with_itg_ready(0xFF, false), 0xFB);
    assert_eq!(itg3200::int_cfg_with_raw_data_ready(0x04, true), 0x05);
    assert_eq!(itg3200::int_cfg_with_raw_data_ready(0xFF, false), 0xFF & !INTCFG_RAW_RDY_EN);
    assert!(itg3200::status_itg_ready(0x04));
    assert!(!itg3200::status_itg_ready(0x01));
    assert!(itg3200::status_raw_data_ready(0x01));
    assert!(!itg3200::status_raw_data_ready(0xFE));
}
