use mos6502::cpu::memory::OverlayMemory;
use mos6502::cpu::ram::Ram;
use mos6502::cpu::rom::Rom;
use mos6502::cpu::{Memory, Result};

#[test]
fn memory_construct() {
    let ram = Ram::new(0x10000);
    let rom = Rom::new(vec![0; 0x100]);

    let _overlay_mem = OverlayMemory::new(ram, rom, 0xff00);
}


#[test]
fn passthrough_of_base_succeeds() -> Result<()> {
    let base_rom = Rom::new(vec![0xde; 0x100]);
    let overlay_rom = Rom::new(vec![0xed; 0x10]);
    let overlay_mem = OverlayMemory::new(base_rom, overlay_rom, 0x00);

    let b = overlay_mem.read_byte(0x10)?;
    assert_eq!(b, 0xde);

    Ok(())
}

#[test]
fn overlay_succeeds() -> Result<()> {
    let base_rom = Rom::new(vec![0xde; 0x100]);
    let overlay_rom = Rom::new(vec![0xed; 0x10]);
    let overlay_mem = OverlayMemory::new(base_rom, overlay_rom, 0x00);

    let b = overlay_mem.read_byte(0x00)?;
    assert_eq!(b, 0xed);

    Ok(())
}

#[test]
fn write_to_base_succeeds() -> Result<()> {
    let base_ram = Ram::new(0x100);
    let overlay_ram = Ram::new(0x10);
    let mut overlay_mem = OverlayMemory::new(base_ram, overlay_ram, 0x00);

    overlay_mem.write_byte(0x10, 0xde)?;
    let base_read = overlay_mem.base_memory.read_byte(0x10)?;
    assert_eq!(base_read, 0xde);

    let overlay_read = overlay_mem.read_byte(0x10)?;
    assert_eq!(overlay_read, 0xde);

    Ok(())
}

#[test]
fn write_to_overlay_succeeds_does_not_affect_base() -> Result<()> {
    let mut base_ram = Ram::new(0x100);
    base_ram.write_byte(0x00, 0xba)?;

    let overlay_ram = Ram::new(0x10);
    let mut overlay_mem = OverlayMemory::new(base_ram, overlay_ram, 0x00);

    overlay_mem.write_byte(0x00, 0xde)?;

    let overlay_read = overlay_mem.read_byte(0x00)?;
    assert_eq!(overlay_read, 0xde);

    let base_read = overlay_mem.base_memory.read_byte(0x00)?;
    assert_eq!(base_read, 0xba);
    Ok(())
}

#[test]
fn overlay_read_through_scenario() -> Result<()> {
    let mut base_ram = Ram::new(0x100);
    for a in 0..0x100u16 {
        base_ram.write_byte(a, 0xde)?;
    }
    let overlay_rom = Rom::new(vec![0xed; 0x10]);
    let overlay_mem = OverlayMemory::new(base_ram, overlay_rom, 0x00);
    assert_eq!(overlay_mem.read_byte(0x00)?, 0xed);
    assert_eq!(overlay_mem.read_byte(0x0f)?, 0xed);
    assert_eq!(overlay_mem.read_byte(0x10)?, 0xde);
    assert_eq!(overlay_mem.length(), 0x100);
    Ok(())
}

#[test]
fn write_to_rom_overlay_is_a_no_op() -> Result<()> {
    let base_ram = Ram::new(0x10000);
    let overlay_rom = Rom::new(vec![0x42; 0x100]);
    let mut overlay_mem = OverlayMemory::new(base_ram, overlay_rom, 0xff00);
    overlay_mem.write_byte(0xff10, 0x99)?;
    assert_eq!(overlay_mem.read_byte(0xff10)?, 0x42);
    assert_eq!(overlay_mem.base_memory.read_byte(0xff10)?, 0x00);
    overlay_mem.write_byte(0xfeff, 0x99)?;
    assert_eq!(overlay_mem.read_byte(0xfeff)?, 0x99);
    Ok(())
}

#[test]
fn words_across_the_window_edge() -> Result<()> {
    let base_ram = Ram::new(0x100);
    let overlay_ram = Ram::new(0x10);
    let mut overlay_mem = OverlayMemory::new(base_ram, overlay_ram, 0x20);
    overlay_mem.write_word(0x2f, 0xbeef)?;
    assert_eq!(overlay_mem.overlay_memory.read_byte(0x0f)?, 0xef);
    assert_eq!(overlay_mem.base_memory.read_byte(0x30)?, 0xbe);
    assert_eq!(overlay_mem.read_word(0x2f)?, 0xbeef);
    assert_eq!(
        overlay_mem.read_word(0xff),
        Err(mos6502::cpu::Error::without_pc(mos6502::cpu::ErrorType::AddressOutOfRange(0xff)))
    );
    assert_eq!(
        overlay_mem.write_word(0xff, 0x1111),
        Err(mos6502::cpu::Error::without_pc(mos6502::cpu::ErrorType::AddressOutOfRange(0xff)))
    );
    assert_eq!(overlay_mem.read_byte(0xff)?, 0x00);
    Ok(())
}

#[test]
fn overlay_word_at_top_of_address_space() -> Result<()> {
    let mut top_ram = OverlayMemory::new(Ram::new(0x10000), Ram::new(0x100), 0xff00);
    assert_eq!(
        top_ram.read_word(0xffff),
        Err(mos6502::cpu::Error::without_pc(mos6502::cpu::ErrorType::AddressOutOfRange(0xffff)))
    );
    assert_eq!(
        top_ram.write_word(0xffff, 0x1234),
        Err(mos6502::cpu::Error::without_pc(mos6502::cpu::ErrorType::AddressOutOfRange(0xffff)))
    );
    assert_eq!(top_ram.read_byte(0xffff)?, 0x00);
    assert_eq!(top_ram.read_byte(0x0000)?, 0x00);

    // A ROM base ignores the stray high byte; the low byte lands in the RAM overlay.
    let mut rom_base = OverlayMemory::new(Rom::new(vec![0; 0x10000]), Ram::new(0x100), 0xff00);
    rom_base.write_word(0xffff, 0x1234)?;
    assert_eq!(rom_base.read_byte(0xffff)?, 0x34);
    Ok(())
}

#[test]
fn overlay_writes_go_to_one_store() -> Result<()> {
    let mut base_ram = Ram::new(0x100);
    base_ram.write_byte(0x05, 0xba)?;
    let mut overlay_mem = OverlayMemory::new(base_ram, Ram::new(0x10), 0x00);
    overlay_mem.write_word(0x04, 0xdead)?;
    assert_eq!(overlay_mem.base_memory.read_byte(0x05)?, 0xba);
    assert_eq!(overlay_mem.overlay_memory.read_word(0x04)?, 0xdead);
    overlay_mem.write_word(0x40, 0xbeef)?;
    assert_eq!(overlay_mem.overlay_memory.read_word(0x04)?, 0xdead);
    assert_eq!(overlay_mem.base_memory.read_word(0x40)?, 0xbeef);
    assert_eq!(overlay_mem.overlay_offset, 0x00);
    Ok(())
}
