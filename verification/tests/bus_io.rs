use gb_core::bus::MemoryBus;
use gb_core::interrupts::{InterruptController, InterruptSource};
use gb_core::registers::Registers;

#[test]
fn power_on_state() {
    let bus = MemoryBus::new();
    assert_eq!(bus.read_byte(0x0000), 0x00);
    assert_eq!(bus.read_byte(0xFFFF), 0x00);
    assert!(!bus.get_ime());

    let regs = Registers::new();
    assert_eq!(regs.get_af(), 0x0000);
    assert_eq!(regs.get_bc(), 0x0000);
    assert_eq!(regs.get_de(), 0x0000);
    assert_eq!(regs.get_hl(), 0x0000);
}

#[test]
fn boot_overlay_shadows_cartridge_until_switched() {
    let mut bus = MemoryBus::new();
    let mut image = vec![0u8; 0x100];
    image[0x00] = 0x31;
    image[0xFF] = 0x50;
    bus.load_boot_rom(image);

    // While mapped, the bottom 256 bytes come from the boot image even
    // after the flat store underneath is written.
    bus.write_byte(0x0000, 0xAB);
    bus.write_byte(0x00FF, 0xCD);
    assert_eq!(bus.read_byte(0x0000), 0x31);
    assert_eq!(bus.read_byte(0x00FF), 0x50);
    assert_eq!(bus.read_byte(0x0100), 0x00);

    // Any write to the boot-switch address removes the overlay for good.
    bus.write_byte(0xFF50, 0x01);
    assert_eq!(bus.read_byte(0x0000), 0xAB);
    assert_eq!(bus.read_byte(0x00FF), 0xCD);
}

#[test]
fn boot_disable_is_one_way() {
    let mut bus = MemoryBus::new();
    let mut image = vec![0u8; 0x100];
    image[0x10] = 0x99;
    bus.load_boot_rom(image);
    assert_eq!(bus.read_byte(0x0010), 0x99);

    bus.write_byte(0xFF50, 0x00);
    assert_eq!(bus.read_byte(0x0010), 0x00);

    // Writing the switch again, with any value, never restores the overlay.
    bus.write_byte(0xFF50, 0x01);
    bus.write_byte(0xFF50, 0x00);
    bus.write_byte(0xFF50, 0xFF);
    assert_eq!(bus.read_byte(0x0010), 0x00);
}

#[test]
fn lcd_line_reads_fixed_sentinel() {
    let mut bus = MemoryBus::new();
    assert_eq!(bus.read_byte(0xFF44), 0x90);
    bus.write_byte(0xFF44, 0x12);
    assert_eq!(bus.read_byte(0xFF44), 0x90);
}

#[test]
fn interrupt_registers_route_to_controller() {
    let mut bus = MemoryBus::new();
    bus.write_byte(0xFF0F, 0x1F);
    bus.write_byte(0xFFFF, 0x15);
    assert_eq!(bus.read_byte(0xFF0F), 0x1F);
    assert_eq!(bus.read_byte(0xFFFF), 0x15);
    assert_eq!(bus.next_pending(), Some(InterruptSource::VBlank));
    bus.acknowledge_interrupt(InterruptSource::VBlank);
    assert_eq!(bus.read_byte(0xFF0F), 0x1E);
    // Bit 1 is enabled but the next enabled-and-flagged source is the timer.
    assert_eq!(bus.next_pending(), Some(InterruptSource::Timer));
}

#[test]
fn controller_priority_and_masks() {
    let mut ints = InterruptController::new();
    assert_eq!(ints.next_pending(), None);
    ints.write_enable(0x1F);
    assert_eq!(ints.next_pending(), None);
    ints.request(InterruptSource::Joypad);
    ints.request(InterruptSource::Serial);
    assert_eq!(ints.next_pending(), Some(InterruptSource::Serial));
    ints.request(InterruptSource::LcdStat);
    assert_eq!(ints.next_pending(), Some(InterruptSource::LcdStat));
    ints.acknowledge(InterruptSource::LcdStat);
    assert_eq!(ints.next_pending(), Some(InterruptSource::Serial));
    assert_eq!(InterruptSource::Timer.vector(), 0x50);
    assert_eq!(InterruptSource::Joypad.mask(), 0x10);

    // Requesting twice sets the bit once.
    ints.request(InterruptSource::Serial);
    assert_eq!(ints.read_flag(), 0x18);
}

#[test]
fn vram_window_offsets() {
    let mut bus = MemoryBus::new();
    bus.write_vram(0x0000, 0x3C);
    bus.write_vram(0x1FFF, 0xC3);
    assert_eq!(bus.read_byte(0x8000), 0x3C);
    assert_eq!(bus.read_byte(0x9FFF), 0xC3);
    assert_eq!(bus.read_vram(0x0000), 0x3C);
    assert_eq!(bus.read_vram(0x1FFF), 0xC3);
}

#[test]
fn joypad_setter_writes_io_window() {
    let mut bus = MemoryBus::new();
    bus.set_joypad(0x2F);
    assert_eq!(bus.read_byte(0xFF00), 0x2F);
}

#[test]
fn echo_and_high_ram_are_flat_storage() {
    let mut bus = MemoryBus::new();
    bus.write_byte(0xC123, 0x42);
    bus.write_byte(0xE123, 0x24);
    bus.write_byte(0xFF80, 0x18);
    assert_eq!(bus.read_byte(0xC123), 0x42);
    assert_eq!(bus.read_byte(0xE123), 0x24);
    assert_eq!(bus.read_byte(0xFF80), 0x18);
}

#[test]
fn flag_accessors_pack_high_nibble() {
    let mut regs = Registers::new();
    regs.set_flags(true, false, true, false);
    assert_eq!(regs.f, 0xA0);
    assert!(regs.flag_z());
    assert!(!regs.flag_n());
    assert!(regs.flag_h());
    assert!(!regs.flag_c());

    regs.set_af(0x12FF);
    assert_eq!(regs.a, 0x12);
    assert_eq!(regs.f, 0xF0);
    assert_eq!(regs.get_af(), 0x12F0);

    regs.set_bc(0xBEEF);
    assert_eq!(regs.b, 0xBE);
    assert_eq!(regs.c, 0xEF);
}
