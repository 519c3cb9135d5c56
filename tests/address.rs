use mos6502::cpu::address::AddressAndDataDispatch;
use mos6502::cpu::data::DataDispatcher;
use mos6502::cpu::ram::Ram;
use mos6502::cpu::registers::Registers;
use mos6502::cpu::{AddressDataDispatcher, AddressingMode, Error, ErrorType, Memory, Result};

#[test]
fn address_implicit() -> Result<()> {
    let address_dispatcher = AddressAndDataDispatch::new();
    let m = Ram::new(65536);
    let r = Registers::new();

    let address = address_dispatcher.get_address(&AddressingMode::Implicit, &m, &r)?;
    assert_eq!(address, None);

    Ok(())
}

#[test]
fn address_accumulator() -> Result<()> {
    let address_dispatcher = AddressAndDataDispatch::new();
    let m = Ram::new(65536);
    let mut r = Registers::new();
    r.a = 0x10;

    let address = address_dispatcher.get_address(&AddressingMode::Accumulator, &m, &r)?;
    assert_eq!(address, None);

    Ok(())
}

#[test]
fn address_immediate() -> Result<()> {
    let address_dispatcher = AddressAndDataDispatch::new();
    let mut _m = Ram::new(65536);
    let mut r = Registers::new();

    r.pc = 0x10;

    let address = address_dispatcher.get_address(&AddressingMode::Immediate, &_m, &r)?;
    assert_eq!(address, Some(0x11));

    Ok(())
}

#[test]
fn address_zero_page() -> Result<()> {
    let address_dispatcher = AddressAndDataDispatch::new();
    let mut m = Ram::new(65536);
    let mut r = Registers::new();

    let expected_address = 0x7f;
    r.pc = 0x10;
    m.write_byte(r.pc + 1, expected_address)?;

    let address = address_dispatcher.get_address(&AddressingMode::ZeroPage, &m, &r)?;
    assert_eq!(address, Some(expected_address as u16));

    Ok(())
}

#[test]
fn address_zero_page_x() -> Result<()> {
    let address_dispatcher = AddressAndDataDispatch::new();
    let mut m = Ram::new(65536);
    let mut r = Registers::new();

    r.pc = 0x10;
    r.x = 0x80;
    m.write_byte(r.pc + 1, 0x81)?;

    let address = address_dispatcher.get_address(&AddressingMode::ZeroPageX, &m, &r)?;
    assert_eq!(address, Some(0x0001 as u16));

    Ok(())
}

#[test]
fn address_zero_page_y() -> Result<()> {
    let address_dispatcher = AddressAndDataDispatch::new();
    let mut m = Ram::new(65536);
    let mut r = Registers::new();

    r.pc = 0x10;
    r.y = 0x80;
    m.write_byte(r.pc + 1, 0x81)?;

    let address = address_dispatcher.get_address(&AddressingMode::ZeroPageY, &m, &r)?;
    assert_eq!(address, Some(0x0001 as u16));

    Ok(())
}

#[test]
fn address_relative() -> Result<()> {
    let address_dispatcher = AddressAndDataDispatch::new();
    let mut m = Ram::new(65536);
    let mut r = Registers::new();

    r.pc = 0x10;
    r.pc_next = 0x10;
    m.write_byte(0x11, 0xff)?;

    let address = address_dispatcher.get_address(&AddressingMode::Relative, &m, &r)?;
    assert_eq!(address, Some(0x0f));

    Ok(())
}

#[test]
fn address_absolute() -> Result<()> {
    let address_dispatcher = AddressAndDataDispatch::new();
    let mut m = Ram::new(65536);
    let mut r = Registers::new();

    r.pc = 0x00;
    m.write_word(0x01, 0x01234)?;

    let address = address_dispatcher.get_address(&AddressingMode::Absolute, &m, &r)?;
    assert_eq!(address, Some(0x1234));

    Ok(())
}

#[test]
fn address_absolute_x() -> Result<()> {
    let address_dispatcher = AddressAndDataDispatch::new();
    let mut m = Ram::new(65536);
    let mut r = Registers::new();

    r.pc = 0x00;
    r.x = 0x10;
    m.write_word(0x01, 0x01234)?;

    let address = address_dispatcher.get_address(&AddressingMode::AbsoluteX, &m, &r)?;
    assert_eq!(address, Some(0x1244));

    Ok(())
}

#[test]
fn address_absolute_y() -> Result<()> {
    let address_dispatcher = AddressAndDataDispatch::new();
    let mut m = Ram::new(65536);
    let mut r = Registers::new();

    r.pc = 0x00;
    r.y = 0x10;
    m.write_word(0x01, 0x01234)?;

    let address = address_dispatcher.get_address(&AddressingMode::AbsoluteY, &m, &r)?;
    assert_eq!(address, Some(0x1244));

    Ok(())
}

#[test]
fn address_indirect() -> Result<()> {
    let address_dispatcher = AddressAndDataDispatch::new();
    let mut m = Ram::new(65536);
    let mut r = Registers::new();

    r.pc = 0x00;
    m.write_word(0x01, 0x1234)?;
    m.write_word(0x1234, 0x4567)?;

    let address = address_dispatcher.get_address(&AddressingMode::Indirect, &m, &r)?;

    assert_eq!(address, Some(0x4567));

    Ok(())
}

#[test]
fn address_indirect_x() -> Result<()> {
    let address_dispatcher = AddressAndDataDispatch::new();
    let mut m = Ram::new(65536);
    let mut r = Registers::new();

    r.pc = 0x00;
    r.x = 0x10;
    m.write_word(0x01, 0x1234)?;
    m.write_word(0x44, 0x4567)?;

    let address = address_dispatcher.get_address(&AddressingMode::IndirectX, &m, &r)?;

    assert_eq!(address, Some(0x4567));

    Ok(())
}

#[test]
fn address_indirect_y() -> Result<()> {
    let address_dispatcher = AddressAndDataDispatch::new();
    let mut m = Ram::new(65536);
    let mut r = Registers::new();

    r.pc = 0x00;
    r.y = 0x10;
    m.write_word(0x01, 0x1234)?;
    m.write_word(0x1234, 0x4567)?;

    let address = address_dispatcher.get_address(&AddressingMode::IndirectY, &m, &r)?;

    assert_eq!(address, Some(0x4577));

    Ok(())
}

#[test]
fn implicit() -> Result<()> {
    let data_dispatcher = AddressAndDataDispatch::new();
    let m = Ram::new(65536);
    let r = Registers::new();

    let data = data_dispatcher.get_data(&AddressingMode::Implicit, &m, &r)?;
    assert_eq!(data, None);

    Ok(())
}

#[test]
fn accumulator() -> Result<()> {
    let data_dispatcher = AddressAndDataDispatch::new();
    let m = Ram::new(65536);
    let mut r = Registers::new();

    r.a = 0x10;
    let data = data_dispatcher.get_data(&AddressingMode::Accumulator, &m, &r)?;
    assert_eq!(data, Some(0x10));

    Ok(())
}

#[test]
fn immediate() -> Result<()> {
    let data_dispatcher = AddressAndDataDispatch::new();
    let mut m = Ram::new(65536);
    let mut r = Registers::new();

    r.pc = 0x00;
    m.write_byte(0x0001, 0x7f)?;
    let data = data_dispatcher.get_data(&AddressingMode::Immediate, &m, &r)?;

    assert_eq!(data, Some(0x7f));

    Ok(())
}

#[test]
fn zero_page() -> Result<()> {
    let data_dispatcher = AddressAndDataDispatch::new();
    let mut m = Ram::new(65536);
    let mut r = Registers::new();
    r.pc = 0x00;
    m.write_byte(0x0001, 0x7f)?;
    m.write_byte(0x007f, 0xaa)?;

    let data = data_dispatcher.get_data(&AddressingMode::ZeroPage, &m, &r)?;
    assert_eq!(data, Some(0xaa));

    Ok(())
}

#[test]
fn zero_page_x() -> Result<()> {
    let data_dispatcher = AddressAndDataDispatch::new();
    let mut m = Ram::new(65536);
    let mut r = Registers::new();
    r.pc = 0x00;
    r.x = 0x10;
    m.write_byte(0x0001, 0xff)?;
    m.write_byte(0x000f, 0xaa)?;

    let data = data_dispatcher.get_data(&AddressingMode::ZeroPageX, &m, &r)?;
    assert_eq!(data, Some(0xaa));

    Ok(())
}

#[test]
fn zero_page_y() -> Result<()> {
    let data_dispatcher = AddressAndDataDispatch::new();
    let mut m = Ram::new(65536);
    let mut r = Registers::new();
    r.pc = 0x00;
    r.y = 0x10;
    m.write_byte(0x0001, 0xff)?;
    m.write_byte(0x000f, 0xaa)?;

    let data = data_dispatcher.get_data(&AddressingMode::ZeroPageY, &m, &r)?;
    assert_eq!(data, Some(0xaa));

    Ok(())
}

#[test]
fn relative() -> Result<()> {
    let data_dispatcher = AddressAndDataDispatch::new();
    let mut m = Ram::new(65536);
    let mut r = Registers::new();

    r.pc = 0x10;
    r.pc_next = 0x10;
    m.write_byte(0x11, 0xff)?;
    m.write_byte(0x0f, 0xaa)?;

    let data = data_dispatcher.get_data(&AddressingMode::Relative, &m, &r)?;
    assert_eq!(data, Some(0xaa));

    Ok(())
}

#[test]
fn absolute() -> Result<()> {
    let data_dispatcher = AddressAndDataDispatch::new();
    let mut m = Ram::new(65536);
    let mut r = Registers::new();

    r.pc = 0x0010;
    m.write_word(0x0011, 0x1234)?;
    m.write_byte(0x1234, 0xaa)?;

    let data = data_dispatcher.get_data(&AddressingMode::Absolute, &m, &r)?;
    assert_eq!(data, Some(0xaa));

    Ok(())
}

#[test]
fn absolute_x() -> Result<()> {
    let data_dispatcher = AddressAndDataDispatch::new();
    let mut m = Ram::new(65536);
    let mut r = Registers::new();

    r.pc = 0x0010;
    r.x = 0x10;
    m.write_word(0x0011, 0x1234)?;
    m.write_byte(0x1244, 0xaa)?;

    let data = data_dispatcher.get_data(&AddressingMode::AbsoluteX, &m, &r)?;
    assert_eq!(data, Some(0xaa));

    Ok(())
}

#[test]
fn absolute_y() -> Result<()> {
    let data_dispatcher = AddressAndDataDispatch::new();
    let mut m = Ram::new(65536);
    let mut r = Registers::new();

    r.pc = 0x0010;
    r.y = 0x10;
    m.write_word(0x0011, 0x1234)?;
    m.write_byte(0x1244, 0xaa)?;

    let data = data_dispatcher.get_data(&AddressingMode::AbsoluteY, &m, &r)?;
    assert_eq!(data, Some(0xaa));

    Ok(())
}

#[test]
fn indirect() -> Result<()> {
    let data_dispatcher = AddressAndDataDispatch::new();
    let mut m = Ram::new(65536);
    let mut r = Registers::new();

    r.pc = 0x0010;
    m.write_word(0x0011, 0x1234)?;
    m.write_word(0x1234, 0x5678)?;
    m.write_byte(0x5678, 0xaa)?;

    let data = data_dispatcher.get_data(&AddressingMode::Indirect, &m, &r)?;
    assert_eq!(data, Some(0xaa));

    Ok(())
}

#[test]
fn indirect_x() -> Result<()> {
    let data_dispatcher = AddressAndDataDispatch::new();
    let mut m = Ram::new(65536);
    let mut r = Registers::new();

    r.pc = 0x0010;
    r.x = 0x01;
    m.write_byte(0x0011, 0xff)?;
    m.write_word(0x0000, 0x1234)?;
    m.write_byte(0x1234, 0xaa)?;

    let data = data_dispatcher.get_data(&AddressingMode::IndirectX, &m, &r)?;
    assert_eq!(data, Some(0xaa));

    Ok(())
}

#[test]
fn indirect_y() -> Result<()> {
    let data_dispatcher = AddressAndDataDispatch::new();
    let mut m = Ram::new(65536);
    let mut r = Registers::new();

    r.pc = 0x0010;
    r.y = 0x10;
    m.write_byte(0x0011, 0xff)?;
    m.write_word(0x00ff, 0x1234)?;
    m.write_byte(0x1244, 0xaa)?;

    let data = data_dispatcher.get_data(&AddressingMode::IndirectY, &m, &r)?;
    assert_eq!(data, Some(0xaa));

    Ok(())
}

#[test]
fn zero_page_x_wraps_within_page_zero() -> Result<()> {
    let resolver = AddressAndDataDispatch::new();
    let mut m = Ram::new(65536);
    let mut r = Registers::new();
    r.pc = 0x0200;
    r.x = 0x80;
    m.write_byte(0x0201, 0x81)?;
    let address = resolver.get_address(&AddressingMode::ZeroPageX, &m, &r)?;
    assert_eq!(address, Some(0x01));
    for x in [0x00u8, 0x7f, 0x80, 0xff] {
        r.x = x;
        for zp in [0x00u8, 0x01, 0x80, 0xfe, 0xff] {
            m.write_byte(0x0201, zp)?;
            let a = resolver.get_address(&AddressingMode::ZeroPageY, &m, &r)?;
            assert!(a.unwrap() < 0x0100);
            let a = resolver.get_address(&AddressingMode::ZeroPageX, &m, &r)?;
            assert_eq!(a, Some((zp as u16 + x as u16) & 0xff));
        }
    }
    Ok(())
}

#[test]
fn relative_forward_offset() -> Result<()> {
    let resolver = AddressAndDataDispatch::new();
    let mut m = Ram::new(65536);
    let mut r = Registers::new();
    r.pc = 0x10;
    r.pc_next = 0x12;
    m.write_byte(0x11, 0x7f)?;
    assert_eq!(resolver.get_address(&AddressingMode::Relative, &m, &r)?, Some(0x91));
    m.write_byte(0x11, 0x80)?;
    assert_eq!(resolver.get_address(&AddressingMode::Relative, &m, &r)?, Some(0xff92));
    Ok(())
}

#[test]
fn absolute_x_wraps_at_top_of_memory() -> Result<()> {
    let resolver = AddressAndDataDispatch::new();
    let mut m = Ram::new(65536);
    let mut r = Registers::new();
    r.x = 0x10;
    m.write_word(0x01, 0xfff8)?;
    assert_eq!(resolver.get_address(&AddressingMode::AbsoluteX, &m, &r)?, Some(0x0008));
    Ok(())
}

#[test]
fn no_mode_is_an_invalid_addressing_mode() {
    let resolver = AddressAndDataDispatch::new();
    let m = Ram::new(65536);
    let mut r = Registers::new();
    r.pc = 0x1234;
    let expected = Err(Error::with_pc(0x1234, ErrorType::InvalidAddressingMode));
    assert_eq!(resolver.get_address(&AddressingMode::NoMode, &m, &r), expected);
    assert_eq!(resolver.get_data(&AddressingMode::NoMode, &m, &r), Err(Error::with_pc(0x1234, ErrorType::InvalidAddressingMode)));
}

#[test]
fn operand_out_of_range_is_reported() {
    let resolver = AddressAndDataDispatch::new();
    let m = Ram::new(0x10);
    let mut r = Registers::new();
    r.pc = 0x20;
    assert_eq!(
        resolver.get_address(&AddressingMode::ZeroPage, &m, &r),
        Err(Error::without_pc(ErrorType::AddressOutOfRange(0x21)))
    );
}

#[test]
fn data_dispatcher_matches_resolver() -> Result<()> {
    let dispatcher = DataDispatcher::new();
    let mut m = Ram::new(65536);
    let mut r = Registers::new();
    r.pc = 0x0010;
    r.a = 0x33;
    m.write_word(0x0011, 0x1234)?;
    m.write_byte(0x1234, 0xaa)?;
    assert_eq!(dispatcher.dispatch(&AddressingMode::Absolute, &m, &r)?, Some(0xaa));
    assert_eq!(dispatcher.dispatch(&AddressingMode::Accumulator, &m, &r)?, Some(0x33));
    assert_eq!(dispatcher.dispatch(&AddressingMode::Implicit, &m, &r)?, None);
    Ok(())
}
