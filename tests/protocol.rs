use as5048a::{decode_diag_gain, decode_u16, encode, set_parity, to_be_bytes, Register};

const ALL: [Register; 7] = [
    Register::ClearErrorFlag,
    Register::ProgrammingControl,
    Register::OtpRegisterZeroPosHigh,
    Register::OtpRegisterZeroPosLow,
    Register::DiagAgc,
    Register::Magnitude,
    Register::Angle,
];

#[test]
fn register_addresses() {
    let addresses: Vec<u16> = ALL.iter().map(|r| r.address()).collect();
    assert_eq!(addresses, vec![0x0001, 0x0003, 0x0016, 0x0017, 0x3FFD, 0x3FFE, 0x3FFF]);
}

#[test]
fn encode_magnitude() {
    assert_eq!(encode(Register::Magnitude), 0x7FFE);
}

#[test]
fn encode_angle_sets_parity_bit() {
    assert_eq!(encode(Register::Angle), 0xFFFF);
    assert_eq!(encode(Register::Angle).count_ones() % 2, 0);
}

#[test]
fn encode_each_register() {
    let words: Vec<u16> = ALL.iter().map(|r| encode(*r)).collect();
    assert_eq!(words, vec![0x4001, 0xC003, 0x4016, 0xC017, 0x7FFD, 0x7FFE, 0xFFFF]);
}

#[test]
fn parity_even_for_every_address() {
    for address in 0u16..=0x3FFF {
        let w = set_parity(0x4000 | address);
        assert_eq!(w.count_ones() % 2, 0);
        assert_eq!(w & 0x7FFF, 0x4000 | address);
    }
}

#[test]
fn set_parity_is_idempotent() {
    for x in 0u16..=0xFFFF {
        let once = set_parity(x);
        assert_eq!(set_parity(once), once);
        assert_eq!(once & 0x7FFF, x & 0x7FFF);
    }
}

#[test]
fn set_parity_values() {
    assert_eq!(set_parity(0x0000), 0x0000);
    assert_eq!(set_parity(0x0001), 0x8001);
    assert_eq!(set_parity(0x0003), 0x0003);
    assert_eq!(set_parity(0x8000), 0x8000);
}

#[test]
fn decode_u16_masks_every_input() {
    for hi in 0u8..=0xFF {
        for lo in 0u8..=0xFF {
            let v = decode_u16([hi, lo]);
            assert!(v <= 0x3FFF);
            assert_eq!(v, u16::from_be_bytes([hi, lo]) & 0x3FFF);
        }
    }
}

#[test]
fn decode_u16_values() {
    assert_eq!(decode_u16([0x12, 0x34]), 0x1234);
    assert_eq!(decode_u16([0xC0, 0x00]), 0x0000);
    assert_eq!(decode_u16([0xFF, 0xFF]), 0x3FFF);
}

#[test]
fn decode_diag_gain_nibble_only_on_first_byte() {
    assert_eq!(decode_diag_gain([0xF3, 0x55]), (0x03, 0x55));
    assert_eq!(decode_diag_gain([0x0F, 0xFF]), (0x0F, 0xFF));
}

#[test]
fn to_be_bytes_order() {
    assert_eq!(to_be_bytes(0x7FFE), [0x7F, 0xFE]);
    assert_eq!(to_be_bytes(0x0000), [0x00, 0x00]);
}
