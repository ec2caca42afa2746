//! The console's address decoder.
//!
//! | range             | region                                   |
//! |-------------------|------------------------------------------|
//! | `0x0000..=0x1FFF` | work RAM, 2 KiB mirrored four times      |
//! | `0x2000..=0x3FFF` | picture-unit registers, mirrored every 8 |
//! | `0x4000..=0x7FFF` | I/O, expansion ROM and SRAM: not wired   |
//! | `0x8000..=0xFFFF` | cartridge program ROM                    |

use vstd::prelude::*;

verus! {

pub const RAM_SIZE: usize = 0x800;
pub const RAM_MIRROR_END: u16 = 0x1FFF;
pub const PPU_REGISTERS: u16 = 0x2000;
pub const PPU_REGISTERS_MIRROR_END: u16 = 0x3FFF;
pub const PRG_ROM: u16 = 0x8000;
pub const PRG_BANK_SIZE: usize = 0x4000;

/// What a bus holds: the work RAM and the cartridge's program bytes.
pub ghost struct BusView {
    pub ram: Seq<u8>,
    pub prg: Seq<u8>,
}

impl BusView {
    /// 2 KiB of RAM and one or two 16 KiB program banks.
    pub open spec fn wf(self) -> bool {
        &&& self.ram.len() == RAM_SIZE
        &&& (self.prg.len() == PRG_BANK_SIZE || self.prg.len() == 2 * PRG_BANK_SIZE)
    }

    /// The byte a read of `addr` returns.
    pub open spec fn read(self, addr: u16) -> u8 {
        if addr <= RAM_MIRROR_END {
            self.ram[ram_index(addr)]
        } else if PRG_ROM <= addr {
            self.prg[prg_offset(self.prg.len(), addr)]
        } else {
            0
        }
    }

    /// The little-endian word at `addr` and `addr + 1`, the second address
    /// wrapping from `0xFFFF` to `0x0000`.
    pub open spec fn read_u16(self, addr: u16) -> u16 {
        (self.read(addr) as int + 256 * self.read(next_addr(addr)) as int) as u16
    }

    /// The bus after writing `data` at `addr`: only the RAM region is written.
    pub open spec fn write(self, addr: u16, data: u8) -> BusView {
        if addr <= RAM_MIRROR_END {
            BusView { ram: self.ram.update(ram_index(addr), data), ..self }
        } else {
            self
        }
    }

    /// The bus after writing the little-endian word `data` at `addr` and
    /// `addr + 1`, low byte first.
    pub open spec fn write_u16(self, addr: u16, data: u16) -> BusView {
        self.write(addr, (data % 256) as u8).write(next_addr(addr), (data / 256) as u8)
    }
}

/// The address after `addr`, wrapping at the top of the address space.
pub open spec fn next_addr(addr: u16) -> u16 {
    ((addr as int + 1) % 0x10000) as u16
}

/// The RAM cell behind a RAM address: the low 11 bits.
pub open spec fn ram_index(addr: u16) -> int {
    addr as int % (RAM_SIZE as int)
}

/// The offset into the program bytes behind a ROM address: a single bank
/// appears at `0x8000` and again at `0xC000`.
pub open spec fn prg_offset(len: nat, addr: u16) -> int {
    if len == PRG_BANK_SIZE {
        (addr as int - PRG_ROM as int) % (PRG_BANK_SIZE as int)
    } else {
        addr as int - PRG_ROM as int
    }
}

/// The picture-unit register that an address of its window selects.
pub open spec fn ppu_register_spec(addr: u16) -> u16 {
    (PPU_REGISTERS as int + addr as int % 8) as u16
}

/// The register of the picture unit that `addr` (in `0x2000..=0x3FFF`) selects,
/// one of `0x2000..=0x2007`.
pub fn ppu_register(addr: u16) -> (r: u16)
    requires
        PPU_REGISTERS <= addr <= PPU_REGISTERS_MIRROR_END,
    ensures
        r == ppu_register_spec(addr),
{
    let r = addr & 0b0010_0000_0000_0111;
    assert(addr & 0x2007 == 0x2000 + addr % 8) by (bit_vector)
        requires
            0x2000 <= addr <= 0x3FFF,
    ;
    r
}

fn ram_slot(addr: u16) -> (r: usize)
    requires
        addr <= RAM_MIRROR_END,
    ensures
        r == ram_index(addr),
        r < RAM_SIZE,
{
    let lower_11_bits = addr & 0b0000_0111_1111_1111;
    assert(addr & 0x7FF == addr % 0x800) by (bit_vector);
    lower_11_bits as usize
}

/// Work RAM is mirrored: a byte written at any RAM address reads back at
/// every address of `0x0000..=0x1FFF` that agrees with it in its low 11 bits,
/// in particular at `addr + 0x800`, `addr + 0x1000` and `addr + 0x1800`.
pub proof fn lemma_ram_mirroring(bus: BusView, addr: u16, data: u8)
    requires
        bus.wf(),
        addr <= 0x07FF,
    ensures
        forall|b: u16|
            b <= RAM_MIRROR_END && b % 0x800 == addr % 0x800 ==> #[trigger] bus.write(addr, data).read(b)
                == data,
        bus.write(addr, data).read((addr + 0x0800) as u16) == data,
        bus.write(addr, data).read((addr + 0x1000) as u16) == data,
        bus.write(addr, data).read((addr + 0x1800) as u16) == data,
{
}

/// A single 16 KiB bank appears twice: every address of `0x8000..=0xBFFF`
/// reads the same byte as the address `0x4000` above it, and `0x8000` and
/// `0xC000` both read the bank's first byte.
pub proof fn lemma_single_bank_mirroring(bus: BusView)
    requires
        bus.wf(),
        bus.prg.len() == PRG_BANK_SIZE,
    ensures
        forall|off: u16| off < 0x4000 ==> #[trigger] bus.read((0x8000 + off) as u16) == bus.read((0xC000 + off) as u16),
        bus.read(0x8000) == bus.prg[0],
        bus.read(0xC000) == bus.prg[0],
{
}

/// The console's CPU-side bus.
pub struct Bus {
    cpu_vram: Vec<u8>,
    prg_rom: Vec<u8>,
}

impl View for Bus {
    type V = BusView;

    closed spec fn view(&self) -> BusView {
        BusView { ram: self.cpu_vram@, prg: self.prg_rom@ }
    }
}

impl Bus {
    /// A bus with zeroed RAM over the cartridge's program bytes.
    pub fn new(prg_rom: Vec<u8>) -> (r: Bus)
        requires
            prg_rom.len() == PRG_BANK_SIZE || prg_rom.len() == 2 * PRG_BANK_SIZE,
        ensures
            r@.wf(),
            r@.prg == prg_rom@,
            r@.ram == Seq::new(RAM_SIZE as nat, |i: int| 0u8),
    {
        let mut cpu_vram: Vec<u8> = Vec::new();
        while cpu_vram.len() < RAM_SIZE
            invariant
                cpu_vram.len() <= RAM_SIZE,
                forall|i: int| 0 <= i < cpu_vram.len() ==> cpu_vram@[i] == 0u8,
            decreases RAM_SIZE - cpu_vram.len(),
        {
            cpu_vram.push(0);
        }
        let r = Bus { cpu_vram, prg_rom };
        assert(r@.ram =~= Seq::new(RAM_SIZE as nat, |i: int| 0u8));
        r
    }
}

/// Byte and word access to a 16-bit address space.
pub trait Mem {
    /// What the address space is backed by.
    spec fn mem(&self) -> BusView;

    /// The byte at `addr`.
    fn mem_read(&self, addr: u16) -> (r: u8)
        requires
            self.mem().wf(),
        ensures
            r == self.mem().read(addr),
    ;

    /// The little-endian word at `pos`.
    fn mem_read_u16(&self, pos: u16) -> (r: u16)
        requires
            self.mem().wf(),
        ensures
            r == self.mem().read_u16(pos),
    ;

    /// Writes `data` at `addr`; only RAM takes writes.
    fn mem_write(&mut self, addr: u16, data: u8)
        requires
            old(self).mem().wf(),
        ensures
            final(self).mem() == old(self).mem().write(addr, data),
    ;

    /// Writes the little-endian word `data` at `pos`, low byte first.
    fn mem_write_u16(&mut self, pos: u16, data: u16)
        requires
            old(self).mem().wf(),
        ensures
            final(self).mem() == old(self).mem().write_u16(pos, data),
    ;

    /// The program byte behind the ROM address `addr`.
    fn read_prg_rom(&self, addr: u16) -> (r: u8)
        requires
            self.mem().wf(),
            PRG_ROM <= addr,
        ensures
            r == self.mem().prg[prg_offset(self.mem().prg.len(), addr)],
    ;
}

impl Mem for Bus {
    open spec fn mem(&self) -> BusView {
        self@
    }

    fn mem_read(&self, addr: u16) -> (r: u8) {
        if addr <= RAM_MIRROR_END {
            self.cpu_vram[ram_slot(addr)]
        } else if addr <= PPU_REGISTERS_MIRROR_END {
            // The picture unit is not attached: its registers read as zero.
            let _register = ppu_register(addr);
            0
        } else if PRG_ROM <= addr {
            self.read_prg_rom(addr)
        } else {
            0
        }
    }

    fn mem_read_u16(&self, pos: u16) -> (r: u16) {
        let low = self.mem_read(pos) as u16;
        let high = self.mem_read(pos.wrapping_add(1)) as u16;
        assert(high << 8 | low == high * 256 + low) by (bit_vector)
            requires
                high < 256,
                low < 256,
        ;
        (high << 8) | low
    }

    fn mem_write(&mut self, addr: u16, data: u8) {
        if addr <= RAM_MIRROR_END {
            let i = ram_slot(addr);
            self.cpu_vram.set(i, data);
            assert(self@.ram =~= old(self)@.ram.update(ram_index(addr), data));
        } else if addr <= PPU_REGISTERS_MIRROR_END {
            // The picture unit is not attached: writes to its registers are dropped.
            let _register = ppu_register(addr);
        }
        // Program ROM cannot be written through the bus; the unwired range
        // ignores writes.
    }

    fn mem_write_u16(&mut self, pos: u16, data: u16) {
        let high = (data >> 8) as u8;
        let low = (data & 0xFF) as u8;
        assert(data >> 8 == data / 256 && data & 0xFF == data % 256) by (bit_vector);
        self.mem_write(pos, low);
        self.mem_write(pos.wrapping_add(1), high);
    }

    fn read_prg_rom(&self, addr: u16) -> (r: u8) {
        let mut offset = addr - PRG_ROM;
        if self.prg_rom.len() == PRG_BANK_SIZE && offset >= 0x4000 {
            offset = offset % 0x4000;
        }
        self.prg_rom[offset as usize]
    }
}

} // verus!
