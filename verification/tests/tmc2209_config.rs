use self_balancing_robot2::stepper::{
    chopconf_value, direction_datagram, Sweep, SweepAction, SWEEP_STEPS, gconf_value, ihold_irun_value, init_datagrams, pwmconf_value,
};

/// CRC-8 of the TMC2209 datagrams, written out for checking.
fn crc(data: &[u8]) -> u8 {
    let mut crc = 0u8;
    for &b in data {
        let mut byte = b;
        for _ in 0..8 {
            if ((crc >> 7) ^ (byte & 1)) != 0 {
                crc = (crc << 1) ^ 0x07;
            } else {
                crc <<= 1;
            }
            byte >>= 1;
        }
    }
    crc
}

#[test]
fn register_values() {
    // reset 0x10000053, TOFF 5, MRES 4, VSENSE
    assert_eq!(chopconf_value(false), 0x1400_0055);
    assert_eq!(chopconf_value(true), 0x1402_0055);
    // IRUN 20, IHOLD 0, IHOLDDELAY 1
    assert_eq!(ihold_irun_value(20), 0x0001_1400);
    assert_eq!(ihold_irun_value(31), 0x0001_1F00);
    assert_eq!(pwmconf_value(), 0xC10D_0024);
    assert_eq!(gconf_value(false), 0x41);
    assert_eq!(gconf_value(true), 0x49);
}

#[test]
fn init_datagrams_in_order() {
    let d = init_datagrams(0, true, 17);
    assert_eq!(d.len(), 3);
    assert_eq!(&d[0][..7], &[0x05, 0x00, 0xEC, 0x14, 0x02, 0x00, 0x55]);
    assert_eq!(d[0][7], crc(&d[0][..7]));
    assert_eq!(&d[1][..7], &[0x05, 0x00, 0x90, 0x00, 0x01, 0x11, 0x00]);
    assert_eq!(d[1][7], crc(&d[1][..7]));
    assert_eq!(&d[2][..7], &[0x05, 0x00, 0xF0, 0xC1, 0x0D, 0x00, 0x24]);
    assert_eq!(d[2][7], crc(&d[2][..7]));
}

#[test]
fn direction_datagram_bytes() {
    let d = direction_datagram(3, true);
    assert_eq!(&d[..7], &[0x05, 0x03, 0x80, 0x00, 0x00, 0x00, 0x49]);
    assert_eq!(d[7], crc(&d[..7]));
    let e = direction_datagram(3, false);
    assert_eq!(e[6], 0x41);
    assert_ne!(d[7], e[7]);
}

#[test]
fn sweep_alternates_direction() {
    let mut s = Sweep::new();
    assert_eq!(s.next(), SweepAction::SetDirection(false));
    for _ in 0..SWEEP_STEPS {
        assert_eq!(s.next(), SweepAction::Pulse);
    }
    assert_eq!(s.next(), SweepAction::SetDirection(true));
    for _ in 0..SWEEP_STEPS {
        assert_eq!(s.next(), SweepAction::Pulse);
    }
    assert_eq!(s.next(), SweepAction::SetDirection(false));
}
