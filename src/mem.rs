use vstd::prelude::*;

use crate::cart::{CartError, CartHeader};
use crate::regs::{high_byte, low_byte, pair_value};

verus! {

/// Why a memory access could not be made.
#[derive(Debug, Clone, Copy, PartialEq, Eq, Structural)]
pub enum MemError {
    /// Video RAM belongs to the video unit, which does not exist yet; `offset`
    /// is the position within video RAM.
    VideoNotImplemented { offset: u16 },
    /// The ROM address maps past the end of the loaded image.
    RomOutOfBounds { addr: u16 },
}

/// The regions of the address space.
#[derive(Debug, Clone, Copy, PartialEq, Eq, Structural)]
pub enum Region {
    Rom,
    Vram,
    Sram,
    Wram0,
    Wramx,
    Oam,
    Unused,
    Io,
    Hram,
    Ie,
}

pub const SRAM_LEN: usize = 0x2000;
pub const WRAM_BANK_LEN: usize = 0x1000;
pub const OAM_LEN: usize = 0xa0;
pub const IO_LEN: usize = 0x80;
pub const HRAM_LEN: usize = 0x7f;

/// The address that `addr` stands for: echo RAM (0xE000 to 0xFDFF) aliases the
/// work RAM 0x2000 bytes below it; every other address stands for itself.
pub open spec fn physical(addr: u16) -> u16 {
    if 0xe000 <= addr <= 0xfdff {
        (addr - 0x2000) as u16
    } else {
        addr
    }
}

/// The region that an address falls in, after echo RAM is resolved.
pub open spec fn region_of(addr: u16) -> Region {
    let a = physical(addr);
    if a <= 0x7fff {
        Region::Rom
    } else if a <= 0x9fff {
        Region::Vram
    } else if a <= 0xbfff {
        Region::Sram
    } else if a <= 0xcfff {
        Region::Wram0
    } else if a <= 0xdfff {
        Region::Wramx
    } else if a <= 0xfe9f {
        Region::Oam
    } else if a <= 0xfeff {
        Region::Unused
    } else if a <= 0xff7f {
        Region::Io
    } else if a <= 0xfffe {
        Region::Hram
    } else {
        Region::Ie
    }
}

/// The start address of each region.
pub open spec fn region_base(r: Region) -> u16 {
    match r {
        Region::Rom => 0,
        Region::Vram => 0x8000,
        Region::Sram => 0xa000,
        Region::Wram0 => 0xc000,
        Region::Wramx => 0xd000,
        Region::Oam => 0xfe00,
        Region::Unused => 0xfea0,
        Region::Io => 0xff00,
        Region::Hram => 0xff80,
        Region::Ie => 0xffff,
    }
}

/// The position of an address within its region.
pub open spec fn offset_of(addr: u16) -> u16 {
    (physical(addr) - region_base(region_of(addr))) as u16
}

/// The region and offset of an address: echo RAM is resolved once, then the
/// range is looked up directly.
pub fn decode(addr: u16) -> (r: (Region, u16))
    ensures
        r.0 == region_of(addr),
        r.1 == offset_of(addr),
{
    let a = if 0xe000 <= addr && addr <= 0xfdff {
        addr - 0x2000
    } else {
        addr
    };
    if a <= 0x7fff {
        (Region::Rom, a)
    } else if a <= 0x9fff {
        (Region::Vram, a - 0x8000)
    } else if a <= 0xbfff {
        (Region::Sram, a - 0xa000)
    } else if a <= 0xcfff {
        (Region::Wram0, a - 0xc000)
    } else if a <= 0xdfff {
        (Region::Wramx, a - 0xd000)
    } else if a <= 0xfe9f {
        (Region::Oam, a - 0xfe00)
    } else if a <= 0xfeff {
        (Region::Unused, a - 0xfea0)
    } else if a <= 0xff7f {
        (Region::Io, a - 0xff00)
    } else if a <= 0xfffe {
        (Region::Hram, a - 0xff80)
    } else {
        (Region::Ie, 0)
    }
}

/// The ROM image and the selected bank, as plain values.
pub struct RomView {
    pub bytes: Seq<u8>,
    pub bank: u8,
}

/// The index into the image that a ROM address reads: below 0x4000 the fixed
/// first 16 KiB; from 0x4000 to 0x7FFF the 16 KiB window numbered `bank`, where
/// bank 0 stands for window 1, so that a fresh ROM reads straight through.
pub open spec fn rom_index(bank: u8, addr: u16) -> int {
    if addr < 0x4000 || bank == 0 {
        addr as int
    } else {
        bank as int * 0x4000 + (addr as int - 0x4000)
    }
}

/// The byte that a ROM address reads, if the image reaches that far.
pub open spec fn rom_byte(rom: RomView, addr: u16) -> Option<u8> {
    let i = rom_index(rom.bank, addr);
    if i < rom.bytes.len() {
        Some(rom.bytes[i])
    } else {
        None
    }
}

/// A cartridge ROM image with a selectable upper bank.
pub struct Rom {
    rom: Vec<u8>,
    bank: u8,
}

impl View for Rom {
    type V = RomView;

    closed spec fn view(&self) -> RomView {
        RomView { bytes: self.rom@, bank: self.bank }
    }
}

impl Rom {
    /// An image with bank 0 selected.
    pub fn new(rom: Vec<u8>) -> (r: Rom)
        ensures
            r@ == (RomView { bytes: rom@, bank: 0 }),
    {
        Rom { rom, bank: 0 }
    }

    /// Selects the bank that addresses 0x4000 and up read.
    pub fn set_bank(&mut self, index: u8)
        ensures
            final(self)@ == (RomView { bank: index, ..old(self)@ }),
    {
        self.bank = index;
    }

    /// The byte at a ROM address; `None` where the image ends before it.
    pub fn read(&self, addr: u16) -> (r: Option<u8>)
        ensures
            r == rom_byte(self@, addr),
    {
        let i: usize = if addr < 0x4000 || self.bank == 0 {
            addr as usize
        } else {
            self.bank as usize * 0x4000 + (addr - 0x4000) as usize
        };
        if i < self.rom.len() {
            Some(self.rom[i])
        } else {
            None
        }
    }
}

/// Video RAM. Its accesses belong to the video unit, which does not exist yet,
/// so every access fails.
#[allow(dead_code)]
pub struct Vram {
    charram: Vec<u8>,
    bgdata1: Vec<u8>,
    bgdata2: Vec<u8>,
}

impl Vram {
    /// A zeroed video RAM.
    pub fn new() -> (r: Vram) {
        Vram { charram: vec![0u8; 0x1800], bgdata1: vec![0u8; 0x400], bgdata2: vec![0u8; 0x400] }
    }

    /// Fails: writing video RAM is not implemented.
    pub fn write(&self, addr: u16, val: u8) -> (r: Result<(), MemError>)
        ensures
            r == Err::<(), MemError>(MemError::VideoNotImplemented { offset: addr }),
    {
        Err(MemError::VideoNotImplemented { offset: addr })
    }

    /// Fails: reading video RAM is not implemented.
    pub fn read(&self, addr: u16) -> (r: Result<u8, MemError>)
        ensures
            r == Err::<u8, MemError>(MemError::VideoNotImplemented { offset: addr }),
    {
        Err(MemError::VideoNotImplemented { offset: addr })
    }
}

/// The contents of the address space, as plain values.
pub struct MemView {
    pub rom: RomView,
    pub sram: Seq<u8>,
    pub wram0: Seq<u8>,
    pub wramx: Seq<u8>,
    pub oam: Seq<u8>,
    pub io: Seq<u8>,
    pub hram: Seq<u8>,
    pub ie: u8,
    /// The bank controller generation of the loaded cartridge (0 for none).
    pub mbc: u8,
}

impl MemView {
    /// Each region has its fixed size.
    pub open spec fn wf(self) -> bool {
        &&& self.sram.len() == SRAM_LEN
        &&& self.wram0.len() == WRAM_BANK_LEN
        &&& self.wramx.len() == WRAM_BANK_LEN
        &&& self.oam.len() == OAM_LEN
        &&& self.io.len() == IO_LEN
        &&& self.hram.len() == HRAM_LEN
    }

    /// The bytes of a region that is stored in a buffer.
    pub open spec fn buffer(self, r: Region) -> Seq<u8> {
        match r {
            Region::Sram => self.sram,
            Region::Wram0 => self.wram0,
            Region::Wramx => self.wramx,
            Region::Oam => self.oam,
            Region::Io => self.io,
            Region::Hram => self.hram,
            _ => Seq::empty(),
        }
    }

    /// This memory with the buffer of region `r` replaced by `s`.
    pub open spec fn with_buffer(self, r: Region, s: Seq<u8>) -> MemView {
        match r {
            Region::Sram => MemView { sram: s, ..self },
            Region::Wram0 => MemView { wram0: s, ..self },
            Region::Wramx => MemView { wramx: s, ..self },
            Region::Oam => MemView { oam: s, ..self },
            Region::Io => MemView { io: s, ..self },
            Region::Hram => MemView { hram: s, ..self },
            _ => self,
        }
    }
}

/// Whether a region is held in a buffer that reads give back and writes change.
pub open spec fn is_buffer(r: Region) -> bool {
    r == Region::Sram || r == Region::Wram0 || r == Region::Wramx || r == Region::Oam || r
        == Region::Io || r == Region::Hram
}

/// Whether a byte written at `addr` is kept.
pub open spec fn writable(addr: u16) -> bool {
    is_buffer(region_of(addr)) || region_of(addr) == Region::Ie
}

/// Whether a write at `addr` selects the ROM bank: on a cartridge with a bank
/// controller, writes from 0x2000 to 0x3FFF do.
pub open spec fn is_bank_select(mbc: u8, addr: u16) -> bool {
    mbc != 0 && 0x2000 <= addr <= 0x3fff
}

/// What reading the byte at `addr` gives.
pub open spec fn read_spec(m: MemView, addr: u16) -> Result<u8, MemError> {
    let r = region_of(addr);
    let off = offset_of(addr);
    match r {
        Region::Rom => match rom_byte(m.rom, addr) {
            Some(b) => Ok(b),
            None => Err(MemError::RomOutOfBounds { addr }),
        },
        Region::Vram => Err(MemError::VideoNotImplemented { offset: off }),
        Region::Unused => Ok(0),
        Region::Ie => Ok(m.ie),
        _ => Ok(m.buffer(r)[off as int]),
    }
}

/// The memory after writing `val` at `addr`: on a cartridge with a bank
/// controller a write from 0x2000 to 0x3FFF selects the ROM bank `val`; other
/// writes to ROM and writes to the unused range are dropped; writes to video
/// RAM fail.
pub open spec fn write_spec(m: MemView, addr: u16, val: u8) -> Result<MemView, MemError> {
    let r = region_of(addr);
    let off = offset_of(addr);
    match r {
        Region::Rom => if is_bank_select(m.mbc, addr) {
            Ok(MemView { rom: RomView { bank: val, ..m.rom }, ..m })
        } else {
            Ok(m)
        },
        Region::Vram => Err(MemError::VideoNotImplemented { offset: off }),
        Region::Unused => Ok(m),
        Region::Ie => Ok(MemView { ie: val, ..m }),
        _ => Ok(m.with_buffer(r, m.buffer(r).update(off as int, val))),
    }
}

/// What reading the little-endian word at `addr` gives: the low byte at `addr`,
/// the high byte at `addr + 1` (wrapping); the first failure stops the read.
pub open spec fn read16_spec(m: MemView, addr: u16) -> Result<u16, MemError> {
    match read_spec(m, addr) {
        Err(e) => Err(e),
        Ok(lo) => match read_spec(m, addr.wrapping_add(1)) {
            Err(e) => Err(e),
            Ok(hi) => Ok(pair_value(hi, lo)),
        },
    }
}

/// The memory after writing the little-endian word `val` at `addr`, and the
/// outcome: the low byte goes first, and a failure stops the write there.
pub open spec fn write16_spec(m: MemView, addr: u16, val: u16) -> (MemView, Result<(), MemError>) {
    match write_spec(m, addr, low_byte(val)) {
        Err(e) => (m, Err(e)),
        Ok(m1) => match write_spec(m1, addr.wrapping_add(1), high_byte(val)) {
            Err(e) => (m1, Err(e)),
            Ok(m2) => (m2, Ok(())),
        },
    }
}

/// Echo RAM mirrors work RAM: reading or writing an address from 0xE000 to
/// 0xFDFF has the same effect as reading or writing the address 0x2000 below it.
pub proof fn lemma_echo_mirrors_work_ram(m: MemView, addr: u16, val: u8)
    requires
        m.wf(),
        0xe000 <= addr <= 0xfdff,
    ensures
        read_spec(m, addr) == read_spec(m, (addr - 0x2000) as u16),
        write_spec(m, addr, val) == write_spec(m, (addr - 0x2000) as u16, val),
        write_spec(m, addr, val) is Ok,
{
}

/// A byte written at a writable address reads back unchanged, both from that
/// address and from its echo.
pub proof fn lemma_write_then_read(m: MemView, addr: u16, val: u8)
    requires
        m.wf(),
        writable(addr),
    ensures
        write_spec(m, addr, val) is Ok,
        read_spec(write_spec(m, addr, val)->Ok_0, addr) == Ok::<u8, MemError>(val),
        0xc000 <= addr <= 0xddff ==> read_spec(write_spec(m, addr, val)->Ok_0, (addr + 0x2000) as u16)
            == Ok::<u8, MemError>(val),
        0xe000 <= addr <= 0xfdff ==> read_spec(write_spec(m, addr, val)->Ok_0, (addr - 0x2000) as u16)
            == Ok::<u8, MemError>(val),
{
}

/// A word written at an address where both bytes are writable reads back
/// unchanged from that address.
pub proof fn lemma_word_round_trip(m: MemView, addr: u16, val: u16)
    requires
        m.wf(),
        writable(addr),
        writable(addr.wrapping_add(1)),
    ensures
        write16_spec(m, addr, val).1 == Ok::<(), MemError>(()),
        read16_spec(write16_spec(m, addr, val).0, addr) == Ok::<u16, MemError>(val),
{
    let lo = low_byte(val);
    let hi = high_byte(val);
    let a1 = addr.wrapping_add(1);
    let m1 = write_spec(m, addr, lo)->Ok_0;
    let m2 = write_spec(m1, a1, hi)->Ok_0;
    lemma_write_keeps_wf(m, addr, lo);
    lemma_write_then_read(m1, a1, hi);
    assert(read_spec(m2, addr) == Ok::<u8, MemError>(lo));
    crate::regs::lemma_split_join(val);
}

/// On a cartridge with a bank controller, writing a bank number `n` from 0x2000
/// to 0x3FFF makes 0x4000 to 0x7FFF read the image's 16 KiB window `n` (window 1
/// for `n == 0`), and leaves the first 16 KiB as they were.
pub proof fn lemma_bank_select(m: MemView, sel: u16, n: u8, addr: u16)
    requires
        m.mbc != 0,
        0x2000 <= sel <= 0x3fff,
    ensures
        write_spec(m, sel, n) is Ok,
        0x4000 <= addr <= 0x7fff && n >= 1 && n as int * 0x4000 + (addr - 0x4000) < m.rom.bytes.len()
            ==> read_spec(write_spec(m, sel, n)->Ok_0, addr) == Ok::<u8, MemError>(
            m.rom.bytes[n as int * 0x4000 + (addr - 0x4000)],
        ),
        addr < 0x4000 ==> read_spec(write_spec(m, sel, n)->Ok_0, addr) == read_spec(m, addr),
{
}

/// The whole address space of the console.
pub struct Memory {
    rom: Rom,
    vram: Vram,
    sram: Vec<u8>,
    wram0: Vec<u8>,
    wramx: Vec<u8>,
    oam: Vec<u8>,
    ioregs: Vec<u8>,
    hram: Vec<u8>,
    ie_reg: u8,
    mbc: u8,
}

impl View for Memory {
    type V = MemView;

    closed spec fn view(&self) -> MemView {
        MemView {
            rom: self.rom@,
            sram: self.sram@,
            wram0: self.wram0@,
            wramx: self.wramx@,
            oam: self.oam@,
            io: self.ioregs@,
            hram: self.hram@,
            ie: self.ie_reg,
            mbc: self.mbc,
        }
    }
}

/// Writing a byte keeps every region at its size.
pub proof fn lemma_write_keeps_wf(m: MemView, addr: u16, val: u8)
    requires
        m.wf(),
    ensures
        write_spec(m, addr, val) is Ok ==> write_spec(m, addr, val)->Ok_0.wf(),
{
}

impl Default for Memory {
    /// A memory with 32 KiB of zeroed ROM and every other region zeroed.
    fn default() -> (r: Memory)
        ensures
            r@.wf(),
            r@.rom == (RomView { bytes: Seq::new(0x8000, |i: int| 0u8), bank: 0 }),
            r@.sram == Seq::new(SRAM_LEN as nat, |i: int| 0u8),
            r@.wram0 == Seq::new(WRAM_BANK_LEN as nat, |i: int| 0u8),
            r@.wramx == Seq::new(WRAM_BANK_LEN as nat, |i: int| 0u8),
            r@.oam == Seq::new(OAM_LEN as nat, |i: int| 0u8),
            r@.io == Seq::new(IO_LEN as nat, |i: int| 0u8),
            r@.hram == Seq::new(HRAM_LEN as nat, |i: int| 0u8),
            r@.ie == 0,
            r@.mbc == 0,
    {
        let r = Memory {
            rom: Rom::new(vec![0u8; 0x8000]),
            vram: Vram::new(),
            sram: vec![0u8; SRAM_LEN],
            wram0: vec![0u8; WRAM_BANK_LEN],
            wramx: vec![0u8; WRAM_BANK_LEN],
            oam: vec![0u8; OAM_LEN],
            ioregs: vec![0u8; IO_LEN],
            hram: vec![0u8; HRAM_LEN],
            ie_reg: 0,
            mbc: 0,
        };
        assert(r@.rom.bytes =~= Seq::new(0x8000, |i: int| 0u8));
        assert(r@.sram =~= Seq::new(SRAM_LEN as nat, |i: int| 0u8));
        assert(r@.wram0 =~= Seq::new(WRAM_BANK_LEN as nat, |i: int| 0u8));
        assert(r@.wramx =~= Seq::new(WRAM_BANK_LEN as nat, |i: int| 0u8));
        assert(r@.oam =~= Seq::new(OAM_LEN as nat, |i: int| 0u8));
        assert(r@.io =~= Seq::new(IO_LEN as nat, |i: int| 0u8));
        assert(r@.hram =~= Seq::new(HRAM_LEN as nat, |i: int| 0u8));
        r
    }
}

impl Memory {
    /// Reads the header of a ROM image and, if it is accepted, makes the image
    /// the ROM of this memory with bank 0 selected, and takes on the
    /// cartridge's bank controller generation. A refused image leaves the
    /// memory as it was.
    pub fn load_rom(&mut self, rom_bytes: Vec<u8>) -> (r: Result<CartHeader, CartError>)
        ensures
            crate::cart::parsed_as(r, crate::cart::parse_header(rom_bytes@)),
            r is Ok ==> final(self)@ == (MemView {
                rom: RomView { bytes: rom_bytes@, bank: 0 },
                mbc: r->Ok_0.specs.mbc,
                ..old(self)@
            }),
            r is Err ==> final(self)@ == old(self)@,
    {
        let header = CartHeader::new(&rom_bytes);
        match header {
            Ok(h) => {
                self.rom = Rom::new(rom_bytes);
                self.mbc = h.specs.mbc;
                Ok(h)
            },
            Err(e) => Err(e),
        }
    }

    /// The byte at `addr`.
    pub fn read8(&self, addr: u16) -> (r: Result<u8, MemError>)
        requires
            self@.wf(),
        ensures
            r == read_spec(self@, addr),
    {
        let (region, off) = decode(addr);
        match region {
            Region::Rom => match self.rom.read(addr) {
                Some(b) => Ok(b),
                None => Err(MemError::RomOutOfBounds { addr }),
            },
            Region::Vram => self.vram.read(off),
            Region::Sram => Ok(self.sram[off as usize]),
            Region::Wram0 => Ok(self.wram0[off as usize]),
            Region::Wramx => Ok(self.wramx[off as usize]),
            Region::Oam => Ok(self.oam[off as usize]),
            Region::Unused => Ok(0),
            Region::Io => Ok(self.ioregs[off as usize]),
            Region::Hram => Ok(self.hram[off as usize]),
            Region::Ie => Ok(self.ie_reg),
        }
    }

    /// The little-endian word at `addr`: low byte at `addr`, high byte at `addr + 1`.
    pub fn read16(&self, addr: u16) -> (r: Result<u16, MemError>)
        requires
            self@.wf(),
        ensures
            r == read16_spec(self@, addr),
    {
        let lo = match self.read8(addr) {
            Ok(b) => b,
            Err(e) => return Err(e),
        };
        let hi = match self.read8(addr.wrapping_add(1)) {
            Ok(b) => b,
            Err(e) => return Err(e),
        };
        Ok(((hi as u16) << 8) | (lo as u16))
    }

    /// Writes `val` at `addr`. Writes to ROM and to the unused range are dropped.
    pub fn write(&mut self, addr: u16, val: u8) -> (r: Result<(), MemError>)
        requires
            old(self)@.wf(),
        ensures
            final(self)@.wf(),
            match write_spec(old(self)@, addr, val) {
                Ok(m) => r == Ok::<(), MemError>(()) && final(self)@ == m,
                Err(e) => r == Err::<(), MemError>(e) && final(self)@ == old(self)@,
            },
    {
        let (region, off) = decode(addr);
        proof {
            lemma_write_keeps_wf(self@, addr, val);
        }
        match region {
            Region::Rom => {
                if self.mbc != 0 && 0x2000 <= addr && addr <= 0x3fff {
                    self.rom.set_bank(val);
                }
                Ok(())
            },
            Region::Vram => self.vram.write(off, val),
            Region::Sram => {
                self.sram.set(off as usize, val);
                Ok(())
            },
            Region::Wram0 => {
                self.wram0.set(off as usize, val);
                Ok(())
            },
            Region::Wramx => {
                self.wramx.set(off as usize, val);
                Ok(())
            },
            Region::Oam => {
                self.oam.set(off as usize, val);
                Ok(())
            },
            Region::Unused => Ok(()),
            Region::Io => {
                self.ioregs.set(off as usize, val);
                Ok(())
            },
            Region::Hram => {
                self.hram.set(off as usize, val);
                Ok(())
            },
            Region::Ie => {
                self.ie_reg = val;
                Ok(())
            },
        }
    }

    /// Writes the little-endian word `val` at `addr`: low byte at `addr`, high
    /// byte at `addr + 1`.
    pub fn write16(&mut self, addr: u16, val: u16) -> (r: Result<(), MemError>)
        requires
            old(self)@.wf(),
        ensures
            final(self)@.wf(),
            (final(self)@, r) == write16_spec(old(self)@, addr, val),
    {
        let ls_byte = #[verifier::truncate] ((val & 0xff) as u8);
        let ms_byte = #[verifier::truncate] ((val >> 8) as u8);
        assert(ls_byte == low_byte(val) && ms_byte == high_byte(val));
        match self.write(addr, ls_byte) {
            Ok(()) => {},
            Err(e) => return Err(e),
        }
        self.write(addr.wrapping_add(1), ms_byte)
    }
}

} // verus!
