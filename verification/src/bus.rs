//! The system bus: 2 KiB of RAM and the cartridge, laid out in the
//! processor's 16-bit address space.
//!
//! | Range       | Device                         | Offset within the device          |
//! |-------------|--------------------------------|-----------------------------------|
//! | $0000-$1FFF | internal RAM                   | address modulo $0800              |
//! | $2000-$3FFF | registers of the picture unit  | not emulated                      |
//! | $4000-$401F | registers for sound and input  | not emulated                      |
//! | $4020-$5FFF | expansion                      | not emulated                      |
//! | $6000-$7FFF | RAM on the cartridge           | not emulated                      |
//! | $8000-$FFFF | program ROM                    | address - $8000 modulo its length |
//!
//! An access to a device that is not emulated is a fault, and so is a write
//! to the ROM.

use crate::cartridge::Cartridge;
use crate::fault::Fault;
use vstd::prelude::*;

verus! {

pub const RAM_SIZE: usize = 0x0800;

pub const RAM_MIRRORS_END: u16 = 0x1FFF;

pub const PPU_REGISTERS_END: u16 = 0x3FFF;

pub const APU_IO_END: u16 = 0x401F;

pub const EXPANSION_END: u16 = 0x5FFF;

pub const CARTRIDGE_START: u16 = 0x8000;

/// The device that an address belongs to.
#[derive(Clone, Copy, Debug, PartialEq, Eq, Structural)]
pub enum Region {
    CpuRam,
    PpuRegisters,
    ApuIo,
    Expansion,
    CartridgeRam,
    CartridgeProgramRom,
}

/// The device that `addr` belongs to.
pub open spec fn region_of(addr: u16) -> Region {
    if addr <= RAM_MIRRORS_END {
        Region::CpuRam
    } else if addr <= PPU_REGISTERS_END {
        Region::PpuRegisters
    } else if addr <= APU_IO_END {
        Region::ApuIo
    } else if addr <= EXPANSION_END {
        Region::Expansion
    } else if addr < CARTRIDGE_START {
        Region::CartridgeRam
    } else {
        Region::CartridgeProgramRom
    }
}

/// What the bus holds, as mathematical values.
pub struct Memory {
    pub ram: Seq<u8>,
    pub program_rom: Seq<u8>,
}

impl Memory {
    /// The RAM has its 2 KiB.
    pub open spec fn wf(self) -> bool {
        self.ram.len() == RAM_SIZE
    }

    /// Whether a read at `addr` is answered: by the RAM, or by the ROM where
    /// the cartridge has any.
    pub open spec fn readable(self, addr: u16) -> bool {
        match region_of(addr) {
            Region::CpuRam => true,
            Region::CartridgeProgramRom => self.program_rom.len() > 0,
            _ => false,
        }
    }

    /// The place within its device that a readable address stands for; for
    /// other addresses, 0.
    pub open spec fn offset(self, addr: u16) -> int {
        if !self.readable(addr) {
            0
        } else if region_of(addr) == Region::CpuRam {
            (addr % 0x0800) as int
        } else {
            (addr - CARTRIDGE_START) % (self.program_rom.len() as int)
        }
    }

    /// The byte read at `addr`.
    pub open spec fn read(self, addr: u16) -> Result<u8, Fault> {
        if !self.readable(addr) {
            Err(Fault::UnimplementedRegion { addr })
        } else if region_of(addr) == Region::CpuRam {
            Ok(self.ram[self.offset(addr)])
        } else {
            Ok(self.program_rom[self.offset(addr)])
        }
    }

    /// The fault that a write at `addr` meets, if any. Only RAM takes writes.
    pub open spec fn write_fault(addr: u16) -> Option<Fault> {
        if addr <= RAM_MIRRORS_END {
            None
        } else if addr >= CARTRIDGE_START {
            Some(Fault::WriteToROM { addr })
        } else {
            Some(Fault::UnimplementedRegion { addr })
        }
    }

    /// The memory after `data` is written at `addr`.
    pub open spec fn write(self, addr: u16, data: u8) -> Result<Memory, Fault> {
        match Self::write_fault(addr) {
            None => Ok(Memory { ram: self.ram.update(self.offset(addr), data), ..self }),
            Some(fault) => Err(fault),
        }
    }

    /// Every address up to $1FFF reads the same byte as its image in the
    /// first 2 KiB.
    pub proof fn lemma_ram_is_mirrored(self, addr: u16)
        requires
            addr <= RAM_MIRRORS_END,
        ensures
            self.read(addr) == self.read((addr % 0x0800) as u16),
    {
    }

    /// A byte written to RAM is read back at the address it was written to
    /// and at each of its mirrors; every other byte of RAM reads as before,
    /// and so does the ROM.
    pub proof fn lemma_read_after_write(self, addr: u16, data: u8, other: u16)
        requires
            self.wf(),
            addr <= RAM_MIRRORS_END,
        ensures
            self.write(addr, data) is Ok,
            self.write(addr, data)->Ok_0.wf(),
            other <= RAM_MIRRORS_END && other % 0x0800 == addr % 0x0800 ==> self.write(
                addr,
                data,
            )->Ok_0.read(other) == Ok::<u8, Fault>(data),
            !(other <= RAM_MIRRORS_END && other % 0x0800 == addr % 0x0800) ==> self.write(
                addr,
                data,
            )->Ok_0.read(other) == self.read(other),
    {
    }

    /// A cartridge with a single 16 KiB page shows it twice: at $8000 and
    /// again at $C000.
    pub proof fn lemma_single_page_is_mirrored(self, addr: u16)
        requires
            self.program_rom.len() == 0x4000,
            0x8000 <= addr < 0xC000,
        ensures
            self.read(addr) == self.read((addr + 0x4000) as u16),
    {
    }
}

/// The bus of the machine. It owns the RAM and the cartridge.
pub struct Bus {
    cpu_ram: [u8; 0x0800],
    cartridge: Cartridge,
}

impl View for Bus {
    type V = Memory;

    closed spec fn view(&self) -> Memory {
        Memory { ram: self.cpu_ram@, program_rom: self.cartridge.program_rom@ }
    }
}

impl Bus {
    /// A bus with the cartridge plugged in and the RAM filled with zeros.
    pub fn new(cartridge: Cartridge) -> (bus: Bus)
        ensures
            bus@ == (Memory {
                ram: Seq::new(RAM_SIZE as nat, |i: int| 0u8),
                program_rom: cartridge.program_rom@,
            }),
    {
        let bus = Bus { cpu_ram: [0;0x0800], cartridge };
        assert(bus.cpu_ram@ =~= Seq::new(RAM_SIZE as nat, |i: int| 0u8));
        bus
    }

    /// The RAM of a bus always has its 2 KiB.
    pub proof fn lemma_wf(&self)
        ensures
            self@.wf(),
    {
    }

    /// Decodes an address into the device that it belongs to and the offset
    /// within that device. For a device that is not emulated, and for the ROM
    /// of a cartridge that has none, the offset is 0.
    pub fn match_address(&self, addr: u16) -> (r: (Region, usize))
        ensures
            r.0 == region_of(addr),
            r.1 == self@.offset(addr),
            self@.readable(addr) ==> r.1 < if r.0 == Region::CpuRam {
                RAM_SIZE as int
            } else {
                self@.program_rom.len() as int
            },
    {
        if addr <= RAM_MIRRORS_END {
            let real_addr = addr & 0b0000_0111_1111_1111;
            assert(real_addr == addr % 0x0800) by (bit_vector)
                requires
                    real_addr == addr & 0b0000_0111_1111_1111,
            ;
            (Region::CpuRam, real_addr as usize)
        } else if addr <= PPU_REGISTERS_END {
            (Region::PpuRegisters, 0)
        } else if addr <= APU_IO_END {
            (Region::ApuIo, 0)
        } else if addr <= EXPANSION_END {
            (Region::Expansion, 0)
        } else if addr < CARTRIDGE_START {
            (Region::CartridgeRam, 0)
        } else if self.cartridge.program_rom.len() > 0 {
            let real_addr = (addr - CARTRIDGE_START) as usize % self.cartridge.program_rom.len();
            (Region::CartridgeProgramRom, real_addr)
        } else {
            (Region::CartridgeProgramRom, 0)
        }
    }

    /// Reads the byte at `addr`. Fails where no device answers.
    pub fn mem_read(&self, addr: u16) -> (r: Result<u8, Fault>)
        ensures
            r == self@.read(addr),
    {
        let (read_from, real_addr) = self.match_address(addr);
        match read_from {
            Region::CpuRam => Ok(self.cpu_ram[real_addr]),
            Region::CartridgeProgramRom => {
                if self.cartridge.program_rom.len() > 0 {
                    Ok(self.cartridge.program_rom[real_addr])
                } else {
                    Err(Fault::UnimplementedRegion { addr })
                }
            },
            _ => Err(Fault::UnimplementedRegion { addr }),
        }
    }

    /// Says whether a write at `addr` would be taken, and if not, why not.
    pub fn check_writable(addr: u16) -> (r: Result<(), Fault>)
        ensures
            match Memory::write_fault(addr) {
                None => r is Ok,
                Some(fault) => r == Err::<(), Fault>(fault),
            },
    {
        if addr <= RAM_MIRRORS_END {
            Ok(())
        } else if addr >= CARTRIDGE_START {
            Err(Fault::WriteToROM { addr })
        } else {
            Err(Fault::UnimplementedRegion { addr })
        }
    }

    /// Writes `data` at `addr`. Fails, and changes nothing, where the address
    /// belongs to the ROM or to no device.
    pub fn mem_write(&mut self, addr: u16, data: u8) -> (r: Result<(), Fault>)
        ensures
            match old(self)@.write(addr, data) {
                Ok(memory) => r is Ok && final(self)@ == memory,
                Err(fault) => r == Err::<(), Fault>(fault) && final(self)@ == old(self)@,
            },
    {
        Self::check_writable(addr)?;
        let (_, real_addr) = self.match_address(addr);
        self.cpu_ram[real_addr] = data;
        Ok(())
    }
}

} // verus!
