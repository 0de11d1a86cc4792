use rustboy::registers::Registers;

#[test]
fn registers_get_initial() {
    let registers = Registers::new();
    assert_eq!(registers.a, 0x01);
    assert_eq!(registers.f, 0xB0);
    assert_eq!(registers.b, 0x00);
    assert_eq!(registers.c, 0x13);
    assert_eq!(registers.d, 0x00);
    assert_eq!(registers.e, 0xD8);
    assert_eq!(registers.h, 0x01);
    assert_eq!(registers.l, 0x4D);
    assert_eq!(registers.pc, 0x0100);
    assert_eq!(registers.sp, 0xFFFE);
    assert_eq!(registers.ime, false);
}

#[test]
fn registers_get_double() {
    let registers = Registers::new();
    assert_eq!(registers.get_af(), 0x01B0);
    assert_eq!(registers.get_bc(), 0x0013);
    assert_eq!(registers.get_de(), 0x00D8);
    assert_eq!(registers.get_hl(), 0x014D);
}

#[test]
fn registers_set_double() {
    let mut registers = Registers::new();

    registers.set_af(0xABCD);
    assert_eq!(registers.get_af(), 0xABCD);
    assert_eq!(registers.a, 0xAB);
    assert_eq!(registers.f, 0xCD);

    registers.set_bc(0xABCD);
    assert_eq!(registers.get_bc(), 0xABCD);
    assert_eq!(registers.b, 0xAB);
    assert_eq!(registers.c, 0xCD);

    registers.set_de(0xABCD);
    assert_eq!(registers.get_de(), 0xABCD);
    assert_eq!(registers.d, 0xAB);
    assert_eq!(registers.e, 0xCD);

    registers.set_hl(0xABCD);
    assert_eq!(registers.get_hl(), 0xABCD);
    assert_eq!(registers.h, 0xAB);
    assert_eq!(registers.l, 0xCD);
}

#[test]
fn mod_get_initial() {
    let registers = Registers::new();
    assert_eq!(registers.a, 0x01);
    assert_eq!(registers.f, 0xB0);
    assert_eq!(registers.b, 0x00);
    assert_eq!(registers.c, 0x13);
    assert_eq!(registers.d, 0x00);
    assert_eq!(registers.e, 0xD8);
    assert_eq!(registers.h, 0x01);
    assert_eq!(registers.l, 0x4D);
    assert_eq!(registers.pc, 0x0100);
    assert_eq!(registers.sp, 0xFFFE);
    assert_eq!(registers.ime, false);
}

#[test]
fn mod_get_double() {
    let registers = Registers::new();
    assert_eq!(registers.get_af(), 0x01B0);
    assert_eq!(registers.get_bc(), 0x0013);
    assert_eq!(registers.get_de(), 0x00D8);
    assert_eq!(registers.get_hl(), 0x014D);
}

#[test]
fn mod_set_double() {
    let mut registers = Registers::new();

    registers.set_af(0xABCD);
    assert_eq!(registers.get_af(), 0xABCD);
    assert_eq!(registers.a, 0xAB);
    assert_eq!(registers.f, 0xCD);

    registers.set_bc(0xABCD);
    assert_eq!(registers.get_bc(), 0xABCD);
    assert_eq!(registers.b, 0xAB);
    assert_eq!(registers.c, 0xCD);

    registers.set_de(0xABCD);
    assert_eq!(registers.get_de(), 0xABCD);
    assert_eq!(registers.d, 0xAB);
    assert_eq!(registers.e, 0xCD);

    registers.set_hl(0xABCD);
    assert_eq!(registers.get_hl(), 0xABCD);
    assert_eq!(registers.h, 0xAB);
    assert_eq!(registers.l, 0xCD);
}

#[test]
fn zero() {
    let mut registers = Registers::new();

    registers.set_zero();
    assert!(registers.is_zero());

    registers.unset_zero();
    assert!(!registers.is_zero());

    registers.set_zero();
    assert!(registers.is_zero());
}

#[test]
fn subtraction() {
    let mut registers = Registers::new();

    registers.set_subtraction();
    assert!(registers.is_subtraction());

    registers.unset_subtraction();
    assert!(!registers.is_subtraction());

    registers.set_subtraction();
    assert!(registers.is_subtraction());
}

#[test]
fn half_carry() {
    let mut registers = Registers::new();

    registers.set_half_carry();
    assert!(registers.is_half_carry());

    registers.unset_half_carry();
    assert!(!registers.is_half_carry());

    registers.set_half_carry();
    assert!(registers.is_half_carry());
}

#[test]
fn full_carry() {
    let mut registers = Registers::new();

    registers.set_full_carry();
    assert!(registers.is_full_carry());

    registers.unset_full_carry();
    assert!(!registers.is_full_carry());

    registers.set_full_carry();
    assert!(registers.is_full_carry());
}
