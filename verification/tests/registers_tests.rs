use emucore::registers::{byte_to_flags, flags_to_byte, FlagsRegister, Registers};

#[test]
fn registers_new() {
    let r = Registers::new();

    assert_eq!(r.a, 0x00, "Initialize A");
    assert_eq!(r.f, 0x00, "Initialize F");
    assert_eq!(r.b, 0x00, "Initialize B");
    assert_eq!(r.c, 0x00, "Initialize C");
    assert_eq!(r.d, 0x00, "Initialize D");
    assert_eq!(r.e, 0x00, "Initialize E");
    assert_eq!(r.h, 0x00, "Initialize H");
    assert_eq!(r.l, 0x00, "Initialize L");
}

#[test]
fn af() {
    let mut r = Registers::new();
    r.a = 0xAB;
    r.f = 0xCF;

    assert_eq!(r.af(), 0xABC0, "Get AF , last 4 bits are zeroed");
}

#[test]
fn bc() {
    let mut r = Registers::new();
    r.b = 0xAB;
    r.c = 0xCF;

    assert_eq!(r.bc(), 0xABCF, "Get BC");
}

#[test]
fn de() {
    let mut r = Registers::new();
    r.d = 0xAB;
    r.e = 0xCF;

    assert_eq!(r.de(), 0xABCF, "Get DE");
}

#[test]
fn hl() {
    let mut r = Registers::new();
    r.h = 0xAB;
    r.l = 0xCF;

    assert_eq!(r.hl(), 0xABCF, "Get HL");
}

#[test]
fn set_af() {
    let mut r = Registers::new();

    r.set_af(0xABCD);

    assert_eq!(r.a, 0xAB, "Set A");
    assert_eq!(r.f, 0xC0, "Set F, last 4 bits are zeroed");
}

#[test]
fn set_bc() {
    let mut r = Registers::new();

    r.set_bc(0xABCD);

    assert_eq!(r.b, 0xAB, "Set B");
    assert_eq!(r.c, 0xCD, "Set C");
}

#[test]
fn set_de() {
    let mut r = Registers::new();

    r.set_de(0xABCD);

    assert_eq!(r.d, 0xAB, "Set D");
    assert_eq!(r.e, 0xCD, "Set E");
}

#[test]
fn set_hl() {
    let mut r = Registers::new();

    r.set_hl(0xABCD);

    assert_eq!(r.h, 0xAB, "Set H");
    assert_eq!(r.l, 0xCD, "Set L");
}

#[test]
fn from_byte_to_flags() {
    let byte = 0b11001111u8;
    let flags = byte_to_flags(byte);

    assert_eq!(flags.zero, true, "From byte to flag registers | zero");
    assert_eq!(flags.subtract, true, "From byte to flag registers | subtract");
    assert_eq!(
        flags.half_carry, false,
        "From byte to flag registers | half carry"
    );
    assert_eq!(flags.carry, false, "From byte to flag registers | carry");
}

#[test]
fn from_flags_to_byte() {
    let flags = FlagsRegister {
        zero: true,
        subtract: true,
        half_carry: false,
        carry: false,
    };

    let byte = flags_to_byte(flags);

    assert_eq!(0b11000000, byte, "From flag registers to byte");
}

#[test]
fn flags_round_trip_meaningful_nibble() {
    // The four flag booleans of a byte survive flags -> byte -> flags.
    for x in 0u16..=0xFF {
        let first = byte_to_flags(x as u8);
        let again = byte_to_flags(flags_to_byte(first));
        assert_eq!(first, again, "Round trip over the meaningful nibble");
    }
}

#[test]
fn flags_byte_low_nibble_always_zero() {
    // The byte encoding carries the flags only in its upper nibble.
    for bits in 0u8..16 {
        let flags = FlagsRegister {
            zero: bits & 8 != 0,
            subtract: bits & 4 != 0,
            half_carry: bits & 2 != 0,
            carry: bits & 1 != 0,
        };
        assert_eq!(flags_to_byte(flags) & 0x0F, 0, "Low nibble stays clear");
        assert_eq!(byte_to_flags(flags_to_byte(flags)), flags, "Encoding lossless");
    }
}

#[test]
fn set_af_masks_low_nibble() {
    // set_af(v) then af() equals v & 0xFFF0 for a spread of values.
    let samples = vec![0x0000u16, 0x000F, 0xABCD, 0xFFFF, 0x1234, 0xFFF0, 0x0010];
    for v in samples {
        let mut r = Registers::new();
        r.set_af(v);
        assert_eq!(r.af(), v & 0xFFF0, "AF keeps only the masked value");
    }
}
