//! The unified memory bus: resolves every 16-bit address to exactly one
//! owner.  The boot-ROM overlay shadows the bottom 256 bytes until software
//! writes the boot-switch address, a permanent one-way transition.  The
//! interrupt-flag and interrupt-enable addresses are views onto the
//! interrupt controller, never flat storage, and the fixed LCD-line address
//! always reads back a sentinel so boot programs pass their polling loop.
//!
//! The cartridge window, the video-RAM window, working RAM, echo RAM, high
//! RAM and the rest of the I/O window are held here as flat byte storage;
//! bank switching and pixel rendering belong to outside collaborators, which
//! see the video window through the offset-based accessors below.

use vstd::prelude::*;
use crate::interrupts::InterruptController;

verus! {

/// Number of addressable bytes: the full 16-bit space.
pub const MEM_SIZE: usize = 0x10000;

/// Size of the boot-ROM image mapped at the bottom of the space.
pub const BOOT_ROM_SIZE: usize = 0x100;

/// First address of the video-RAM window.
pub const VRAM_BEGIN: u16 = 0x8000;

/// Last address of the video-RAM window.
pub const VRAM_END: u16 = 0x9FFF;

/// I/O address of the joypad input register.
pub const JOYPAD_INPUT_ADDRESS: u16 = 0xFF00;

/// I/O address of the serial transfer data register.
pub const SERIAL_DATA_ADDRESS: u16 = 0xFF01;

/// I/O address of the serial transfer control register.
pub const SERIAL_CONTROL_ADDRESS: u16 = 0xFF02;

/// I/O address whose write permanently removes the boot-ROM overlay.
pub const BOOT_SWITCH_ADDRESS: u16 = 0xFF50;

/// I/O address of the interrupt pending-flags register.
pub const INTERRUPT_FLAG_ADDRESS: u16 = 0xFF0F;

/// Address of the interrupt enable register, at the top of the space.
pub const INTERRUPT_ENABLE_ADDRESS: u16 = 0xFFFF;

/// I/O address of the LCD-line register.
pub const LCD_LINE_ADDRESS: u16 = 0xFF44;

/// Fixed value every read of the LCD-line address yields.
pub const LCD_LINE_SENTINEL: u8 = 0x90;

/// Mathematical state of the bus: the flat byte store, the boot image, the
/// overlay flag and the interrupt controller.
#[verifier::ext_equal]
pub ghost struct BusState {
    pub mem: Seq<u8>,
    pub boot_rom: Seq<u8>,
    pub boot_mapped: bool,
    pub ints: InterruptController,
}

impl BusState {
    pub open spec fn wf(self) -> bool {
        self.mem.len() == MEM_SIZE && self.boot_rom.len() == BOOT_ROM_SIZE
    }
}

/// The byte a read of `addr` yields: the boot image while the overlay is
/// mapped, the interrupt controller's registers at their two addresses, the
/// LCD-line sentinel, and the flat store everywhere else.
pub open spec fn spec_bus_read(b: BusState, addr: u16) -> u8 {
    if b.boot_mapped && addr < 0x100 {
        b.boot_rom[addr as int]
    } else if addr == INTERRUPT_FLAG_ADDRESS {
        b.ints.flags
    } else if addr == INTERRUPT_ENABLE_ADDRESS {
        b.ints.enable
    } else if addr == LCD_LINE_ADDRESS {
        LCD_LINE_SENTINEL
    } else {
        b.mem[addr as int]
    }
}

/// The bus state after a write of `v` to `addr`.  A write to the boot-switch
/// address clears the overlay flag in the same call; writes to the interrupt
/// registers go to the controller and not to flat storage.
pub open spec fn spec_bus_write(b: BusState, addr: u16, v: u8) -> BusState {
    if addr == BOOT_SWITCH_ADDRESS {
        BusState { boot_mapped: false, mem: b.mem.update(addr as int, v), ..b }
    } else if addr == INTERRUPT_FLAG_ADDRESS {
        BusState { ints: InterruptController { flags: v, ..b.ints }, ..b }
    } else if addr == INTERRUPT_ENABLE_ADDRESS {
        BusState { ints: InterruptController { enable: v, ..b.ints }, ..b }
    } else {
        BusState { mem: b.mem.update(addr as int, v), ..b }
    }
}

pub struct MemoryBus {
    memory: Vec<u8>,
    boot_rom: Vec<u8>,
    is_boot_rom_mapped: bool,
    interrupts: InterruptController,
}

impl View for MemoryBus {
    type V = BusState;

    closed spec fn view(&self) -> BusState {
        BusState {
            mem: self.memory@,
            boot_rom: self.boot_rom@,
            boot_mapped: self.is_boot_rom_mapped,
            ints: self.interrupts,
        }
    }
}

fn zero_bytes(n: usize) -> (v: Vec<u8>)
    ensures
        v@.len() == n,
        forall|i: int| 0 <= i < n ==> v@[i] == 0u8,
{
    let mut v: Vec<u8> = Vec::new();
    while v.len() < n
        invariant
            v@.len() <= n,
            forall|i: int| 0 <= i < v@.len() ==> v@[i] == 0u8,
        decreases n - v@.len(),
    {
        v.push(0);
    }
    v
}

impl MemoryBus {
    /// Power-on state: zeroed storage and boot image, overlay mapped, the
    /// interrupt controller cleared.
    pub fn new() -> (r: MemoryBus)
        ensures
            r@.wf(),
            r@.boot_mapped,
            r@.ints == (InterruptController { enable: 0u8, flags: 0u8, ime: false }),
            forall|i: int| 0 <= i < MEM_SIZE ==> r@.mem[i] == 0u8,
            forall|i: int| 0 <= i < BOOT_ROM_SIZE ==> r@.boot_rom[i] == 0u8,
    {
        MemoryBus {
            memory: zero_bytes(MEM_SIZE),
            boot_rom: zero_bytes(BOOT_ROM_SIZE),
            is_boot_rom_mapped: true,
            interrupts: InterruptController::new(),
        }
    }

    /// Install the fixed 256-byte boot image, once, at power-on.
    pub fn load_boot_rom(&mut self, rom: Vec<u8>)
        requires
            rom@.len() == BOOT_ROM_SIZE,
        ensures
            final(self)@ == (BusState { boot_rom: rom@, ..old(self)@ }),
    {
        self.boot_rom = rom;
    }

    /// Total over the 16-bit range: every address resolves to exactly one
    /// owner and a read never fails.
    pub fn read_byte(&self, address: u16) -> (r: u8)
        requires
            self@.wf(),
        ensures
            r == spec_bus_read(self@, address),
    {
        if self.is_boot_rom_mapped && address < 0x100 {
            self.boot_rom[address as usize]
        } else if address == INTERRUPT_FLAG_ADDRESS {
            self.interrupts.flags
        } else if address == INTERRUPT_ENABLE_ADDRESS {
            self.interrupts.enable
        } else if address == LCD_LINE_ADDRESS {
            LCD_LINE_SENTINEL
        } else {
            self.memory[address as usize]
        }
    }

    /// Total over the 16-bit range; the boot-switch write disables the
    /// overlay permanently in the same call.
    pub fn write_byte(&mut self, address: u16, value: u8)
        requires
            old(self)@.wf(),
        ensures
            final(self)@ == spec_bus_write(old(self)@, address, value),
            final(self)@.wf(),
    {
        if address == BOOT_SWITCH_ADDRESS {
            self.is_boot_rom_mapped = false;
            self.memory[address as usize] = value;
        } else if address == INTERRUPT_FLAG_ADDRESS {
            self.interrupts.write_flag(value);
        } else if address == INTERRUPT_ENABLE_ADDRESS {
            self.interrupts.write_enable(value);
        } else {
            self.memory[address as usize] = value;
        }
    }

    /// The master-enable flag the dispatch sequence and the enable/disable
    /// instructions act on.
    pub fn get_ime(&self) -> (r: bool)
        ensures
            r == self@.ints.ime,
    {
        self.interrupts.ime
    }

    pub fn set_ime(&mut self, enabled: bool)
        ensures
            final(self)@ == (BusState {
                ints: InterruptController { ime: enabled, ..old(self)@.ints },
                ..old(self)@
            }),
    {
        self.interrupts.set_ime(enabled)
    }

    /// The next serviceable source in fixed priority order, if any.
    pub fn next_pending(&self) -> (r: Option<crate::interrupts::InterruptSource>)
        ensures
            r == self@.ints.spec_next_pending(),
    {
        self.interrupts.next_pending()
    }

    /// True iff some source has both its enable and flag bits set.
    pub fn any_pending(&self) -> (r: bool)
        ensures
            r == self@.ints.spec_any_pending(),
    {
        self.interrupts.any_pending()
    }

    /// Schedule a service request from an internal event, such as a
    /// completed scanline.
    pub fn request_interrupt(&mut self, src: crate::interrupts::InterruptSource)
        ensures
            final(self)@ == (BusState {
                ints: InterruptController {
                    flags: crate::words::spec_set_bit(old(self)@.ints.flags, src.spec_mask()),
                    ..old(self)@.ints
                },
                ..old(self)@
            }),
    {
        self.interrupts.request(src)
    }

    /// Clear one source's flag bit, as the dispatch sequence does when it
    /// services it.
    pub fn acknowledge_interrupt(&mut self, src: crate::interrupts::InterruptSource)
        ensures
            final(self)@ == (BusState {
                ints: InterruptController {
                    flags: crate::words::spec_clear_bit(old(self)@.ints.flags, src.spec_mask()),
                    ..old(self)@.ints
                },
                ..old(self)@
            }),
    {
        self.interrupts.acknowledge(src)
    }

    /// Video-memory view for the display collaborator: read by offset within
    /// the video window.
    pub fn read_vram(&self, offset: u16) -> (r: u8)
        requires
            self@.wf(),
            offset <= VRAM_END - VRAM_BEGIN,
        ensures
            r == spec_bus_read(self@, (VRAM_BEGIN + offset) as u16),
    {
        self.read_byte(VRAM_BEGIN + offset)
    }

    /// Video-memory view for the display collaborator: write by offset
    /// within the video window.
    pub fn write_vram(&mut self, offset: u16, value: u8)
        requires
            old(self)@.wf(),
            offset <= VRAM_END - VRAM_BEGIN,
        ensures
            final(self)@ == spec_bus_write(old(self)@, (VRAM_BEGIN + offset) as u16, value),
            final(self)@.wf(),
    {
        self.write_byte(VRAM_BEGIN + offset, value)
    }

    /// Clear the transfer-start bit (bit 7) of the serial control register,
    /// as the serial collaborator does when a transfer completes.
    pub fn serial_control_clear(&mut self)
        requires
            old(self)@.wf(),
        ensures
            final(self)@ == spec_bus_write(
                old(self)@,
                SERIAL_CONTROL_ADDRESS,
                (spec_bus_read(old(self)@, SERIAL_CONTROL_ADDRESS) % 0x80) as u8,
            ),
            final(self)@.wf(),
    {
        let v = self.read_byte(SERIAL_CONTROL_ADDRESS);
        self.write_byte(SERIAL_CONTROL_ADDRESS, v % 0x80);
    }

    /// Narrow setter the surrounding loop uses to report input-state changes
    /// into the I/O window.
    pub fn set_joypad(&mut self, value: u8)
        requires
            old(self)@.wf(),
        ensures
            final(self)@ == spec_bus_write(old(self)@, JOYPAD_INPUT_ADDRESS, value),
            final(self)@.wf(),
    {
        self.write_byte(JOYPAD_INPUT_ADDRESS, value)
    }
}

} // verus!
