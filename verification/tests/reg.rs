use mmio::reg::Flag;
use mmio::reg::FlagReg;
use mmio::reg::ReadReg;
use mmio::reg::Reg;
use mmio::reg::WriteReg;
use mmio::vcell::VCell;

#[test]
fn read_converts_raw_value() {
    let r = FlagReg::new(VCell::conjure(0u8));
    assert_eq!(r.read(), Flag(false));
}

#[test]
fn read_converts_any_nonzero_raw_value() {
    let r = FlagReg::new(VCell::conjure(0xff_u8));
    assert_eq!(r.read(), Flag(true));
    let r = FlagReg::new(VCell::conjure(1u8));
    assert_eq!(r.read(), Flag(true));
}

#[test]
fn write_then_read_reflects_converted_value() {
    let mut r = FlagReg::new(VCell::conjure(0u8));
    r.write(Flag(true));
    assert_eq!(r.read(), Flag(true));
    assert_eq!(r.vcell().get(), 1);
    r.write(Flag(false));
    assert_eq!(r.read(), Flag(false));
    assert_eq!(r.vcell().get(), 0);
}

#[test]
fn flag_conversions_are_exact() {
    assert_eq!(Flag::from(0u8), Flag(false));
    assert_eq!(Flag::from(2u8), Flag(true));
    assert_eq!(u8::from(Flag(true)), 1);
    assert_eq!(u8::from(Flag(false)), 0);
}
