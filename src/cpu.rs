use vstd::prelude::*;

use crate::cart::{CartHeader, HeaderView};
use crate::mem::{read16_spec, read_spec, write16_spec, write_spec, MemError, MemView, Memory};
use crate::regs::{pair_value, RegPair};

verus! {

/// Bit of the flag register that is set when a result is zero.
pub const ZERO_FLAG: u8 = 0x80;
/// Bit of the flag register that is set after a subtraction.
pub const SUB_FLAG: u8 = 0x40;
/// Bit of the flag register that is set on a carry out of the low nibble.
pub const HALF_CARRY_FLAG: u8 = 0x20;
/// Bit of the flag register that is set on a carry out of the full width.
pub const CARRY_FLAG: u8 = 0x10;

/// The largest cycle cost of any opcode.
pub const MAX_OP_CYCLES: u64 = 24;
/// The highest cycle count at which an instruction can still be run without
/// the counter overflowing.
pub const CYCLE_CEILING: u64 = u64::MAX - MAX_OP_CYCLES;

/// Why execution stopped.
#[derive(Debug, Clone, Copy, PartialEq, Eq, Structural)]
pub enum CpuError {
    /// The opcode `op` has no implementation; `pc` is the program counter at
    /// the time, the address of the opcode when it was read from memory.
    UnsupportedOpcode { op: u8, pc: u16 },
    /// A memory access failed.
    Memory(MemError),
    /// The cycle counter cannot take another instruction without overflowing.
    CycleLimit,
}

/// The cycles that each opcode costs.
pub open spec fn cycles_of(op: u8) -> u8 {
    match op {
        0x08 => 20,
        0xcd => 24,
        0xd3 | 0xdb | 0xdd | 0xe3 | 0xe4 | 0xeb | 0xec | 0xed | 0xf4 | 0xfc
        | 0xfd => 0,
        0xc3 | 0xc5 | 0xc7 | 0xc9 | 0xcf | 0xd5 | 0xd7 | 0xd9 | 0xdf | 0xe5
        | 0xe7 | 0xe8 | 0xea | 0xef | 0xf5 | 0xf7 | 0xfa | 0xff => 16,
        0x01 | 0x11 | 0x18 | 0x21 | 0x28 | 0x31 | 0x34 | 0x35 | 0x36 | 0xc1
        | 0xc2 | 0xc4 | 0xca | 0xcc | 0xd1 | 0xd2 | 0xd4 | 0xda | 0xdc | 0xe0
        | 0xe1 | 0xf0 | 0xf1 | 0xf8 => 12,
        0x02 | 0x03 | 0x06 | 0x09 | 0x0a | 0x0b | 0x0e | 0x12 | 0x13 | 0x16
        | 0x19 | 0x1a | 0x1b | 0x1e | 0x20 | 0x22 | 0x23 | 0x26 | 0x29 | 0x2a
        | 0x2b | 0x2e | 0x30 | 0x32 | 0x33 | 0x38 | 0x39 | 0x3a | 0x3b | 0x3e
        | 0x46 | 0x4e | 0x56 | 0x5e | 0x66 | 0x6e | 0x70 | 0x71 | 0x72 | 0x73
        | 0x74 | 0x75 | 0x77 | 0x7e | 0x86 | 0x8e | 0x96 | 0x9e | 0xa6 | 0xae
        | 0xb6 | 0xbe | 0xc0 | 0xc6 | 0xc8 | 0xce | 0xd0 | 0xd6 | 0xd8 | 0xde
        | 0xe2 | 0xe6 | 0xee | 0xf2 | 0xf6 | 0xf9 | 0xfe => 8,
        _ => 4,
    }
}

/// The cycles that an opcode costs.
pub fn op_cycles(op: u8) -> (r: u8)
    ensures
        r == cycles_of(op),
{
    match op {
        0x08 => 20,
        0xcd => 24,
        0xd3 | 0xdb | 0xdd | 0xe3 | 0xe4 | 0xeb | 0xec | 0xed | 0xf4 | 0xfc
        | 0xfd => 0,
        0xc3 | 0xc5 | 0xc7 | 0xc9 | 0xcf | 0xd5 | 0xd7 | 0xd9 | 0xdf | 0xe5
        | 0xe7 | 0xe8 | 0xea | 0xef | 0xf5 | 0xf7 | 0xfa | 0xff => 16,
        0x01 | 0x11 | 0x18 | 0x21 | 0x28 | 0x31 | 0x34 | 0x35 | 0x36 | 0xc1
        | 0xc2 | 0xc4 | 0xca | 0xcc | 0xd1 | 0xd2 | 0xd4 | 0xda | 0xdc | 0xe0
        | 0xe1 | 0xf0 | 0xf1 | 0xf8 => 12,
        0x02 | 0x03 | 0x06 | 0x09 | 0x0a | 0x0b | 0x0e | 0x12 | 0x13 | 0x16
        | 0x19 | 0x1a | 0x1b | 0x1e | 0x20 | 0x22 | 0x23 | 0x26 | 0x29 | 0x2a
        | 0x2b | 0x2e | 0x30 | 0x32 | 0x33 | 0x38 | 0x39 | 0x3a | 0x3b | 0x3e
        | 0x46 | 0x4e | 0x56 | 0x5e | 0x66 | 0x6e | 0x70 | 0x71 | 0x72 | 0x73
        | 0x74 | 0x75 | 0x77 | 0x7e | 0x86 | 0x8e | 0x96 | 0x9e | 0xa6 | 0xae
        | 0xb6 | 0xbe | 0xc0 | 0xc6 | 0xc8 | 0xce | 0xd0 | 0xd6 | 0xd8 | 0xde
        | 0xe2 | 0xe6 | 0xee | 0xf2 | 0xf6 | 0xf9 | 0xfe => 8,
        _ => 4,
    }
}

/// The opcodes that have an implementation.
pub open spec fn supported(op: u8) -> bool {
    op == 0x00 || op == 0x01 || op == 0x11 || op == 0x21 || op == 0x31 || op == 0x02 || op == 0x12
        || op == 0x09 || op == 0x19 || op == 0x29 || op == 0x39 || op == 0xc3 || op == 0xcd || op
        == 0xe0 || op == 0xf0 || op == 0x18 || op == 0xc9 || op == 0xaf || op == 0xc6 || op == 0xd6
}

/// The flag byte `f` with the bit `mask` set to `v`.
pub open spec fn with_flag(f: u8, mask: u8, v: bool) -> u8 {
    if v {
        f | mask
    } else {
        f & !mask
    }
}

/// Whether the bit `mask` of the flag byte `f` is set.
pub open spec fn flag_set(f: u8, mask: u8) -> bool {
    f & mask != 0
}

/// The four flag bits.
pub open spec fn is_flag_mask(m: u8) -> bool {
    m == ZERO_FLAG || m == SUB_FLAG || m == HALF_CARRY_FLAG || m == CARRY_FLAG
}

/// Setting one flag bit gives it the value asked for, and keeps the other flag
/// bits and the low nibble.
pub proof fn lemma_with_flag(f: u8, mask: u8, other: u8, v: bool)
    requires
        is_flag_mask(mask),
        is_flag_mask(other),
        mask != other,
    ensures
        flag_set(with_flag(f, mask, v), mask) == v,
        flag_set(with_flag(f, mask, v), other) == flag_set(f, other),
        with_flag(f, mask, v) & 0x0f == f & 0x0f,
{
    if v {
        assert(((f | mask) & mask != 0) && (((f | mask) & other != 0) == (f & other != 0)) && (f
            | mask) & 0x0f == f & 0x0f) by (bit_vector)
            requires
                mask == 0x80 || mask == 0x40 || mask == 0x20 || mask == 0x10,
                other == 0x80 || other == 0x40 || other == 0x20 || other == 0x10,
                mask != other,
        ;
    } else {
        assert(!((f & !mask) & mask != 0) && (((f & !mask) & other != 0) == (f & other != 0)) && (f
            & !mask) & 0x0f == f & 0x0f) by (bit_vector)
            requires
                mask == 0x80 || mask == 0x40 || mask == 0x20 || mask == 0x10,
                other == 0x80 || other == 0x40 || other == 0x20 || other == 0x10,
                mask != other,
        ;
    }
}

/// The registers, the cycle counter and the memory, as plain values.
pub struct CpuView {
    pub af: RegPair,
    pub bc: RegPair,
    pub de: RegPair,
    pub hl: RegPair,
    pub sp: u16,
    pub pc: u16,
    pub cycle: u64,
    pub mem: MemView,
}

/// The 16-bit register numbered `i` in the opcode's high nibble: BC, DE, HL, SP.
pub open spec fn wide_of(s: CpuView, i: u8) -> u16 {
    match i {
        0 => s.bc.value(),
        1 => s.de.value(),
        2 => s.hl.value(),
        _ => s.sp,
    }
}

/// The state with the 16-bit register numbered `i` set to `v`.
pub open spec fn with_wide(s: CpuView, i: u8, v: u16) -> CpuView {
    match i {
        0 => CpuView { bc: RegPair::of(v), ..s },
        1 => CpuView { de: RegPair::of(v), ..s },
        2 => CpuView { hl: RegPair::of(v), ..s },
        _ => CpuView { sp: v, ..s },
    }
}

/// Reading the byte at the program counter and moving past it.
pub open spec fn fetch_spec(s: CpuView) -> Result<(CpuView, u8), MemError> {
    match read_spec(s.mem, s.pc) {
        Ok(b) => Ok((CpuView { pc: s.pc.wrapping_add(1), ..s }, b)),
        Err(e) => Err(e),
    }
}

/// Reading the little-endian word at the program counter and moving past it.
pub open spec fn fetch16_spec(s: CpuView) -> Result<(CpuView, u16), MemError> {
    match read16_spec(s.mem, s.pc) {
        Ok(w) => Ok((CpuView { pc: s.pc.wrapping_add(2), ..s }, w)),
        Err(e) => Err(e),
    }
}

/// Adding `v` into HL: the sum wraps at 16 bits; the subtract flag is cleared,
/// half-carry is the carry out of bit 11, carry the carry out of bit 15, and
/// the zero flag is kept.
pub open spec fn add_hl_spec(s: CpuView, v: u16) -> CpuView {
    let hl = s.hl.value();
    let half = (hl & 0xfff) + (v & 0xfff) > 0xfff;
    let carry = hl + v > 0xffff;
    let f = with_flag(with_flag(with_flag(s.af.1, SUB_FLAG, false), HALF_CARRY_FLAG, half), CARRY_FLAG, carry);
    CpuView { hl: RegPair::of(hl.wrapping_add(v)), af: RegPair(s.af.0, f), ..s }
}

/// The flag byte `f` with all four flags set as given.
pub open spec fn with_flags(f: u8, z: bool, n: bool, h: bool, c: bool) -> u8 {
    with_flag(with_flag(with_flag(with_flag(f, ZERO_FLAG, z), SUB_FLAG, n), HALF_CARRY_FLAG, h), CARRY_FLAG, c)
}

/// Adding `v` into A: the sum wraps at 8 bits; zero tells whether it is 0,
/// subtract is cleared, half-carry is the carry out of bit 3, carry the carry
/// out of bit 7.
pub open spec fn add_a_spec(s: CpuView, v: u8) -> CpuView {
    let a = s.af.0;
    let res = a.wrapping_add(v);
    let f = with_flags(s.af.1, res == 0, false, (a & 0xf) + (v & 0xf) > 0xf, a + v > 0xff);
    CpuView { af: RegPair(res, f), ..s }
}

/// Subtracting `v` from A: the difference wraps at 8 bits; zero tells whether
/// it is 0, subtract is set, half-carry is the borrow from bit 4, carry the
/// borrow out of bit 7.
pub open spec fn sub_a_spec(s: CpuView, v: u8) -> CpuView {
    let a = s.af.0;
    let res = a.wrapping_sub(v);
    let f = with_flags(s.af.1, res == 0, true, (a & 0xf) < (v & 0xf), a < v);
    CpuView { af: RegPair(res, f), ..s }
}

/// The 16-bit two's complement value of the signed byte `d`.
pub open spec fn sign_extend(d: u8) -> u16 {
    if d < 0x80 {
        d as u16
    } else {
        (d + 0xff00) as u16
    }
}

/// Pushing a word: the stack pointer goes down by two (wrapping) and the word
/// is written there.
pub open spec fn push16_spec(s: CpuView, val: u16) -> (CpuView, Result<(), MemError>) {
    let sp = s.sp.wrapping_sub(2);
    let (m, r) = write16_spec(s.mem, sp, val);
    (CpuView { sp, mem: m, ..s }, r)
}

/// The state after a byte store, or the failure.
pub open spec fn store_spec(s: CpuView, addr: u16, val: u8) -> (CpuView, Result<(), CpuError>) {
    match write_spec(s.mem, addr, val) {
        Ok(m) => (CpuView { mem: m, ..s }, Ok(())),
        Err(e) => (s, Err(CpuError::Memory(e))),
    }
}

/// What executing the instruction whose opcode `op` stands at the program
/// counter does. An unsupported opcode changes nothing. Otherwise the opcode's
/// cycle cost is added first and the opcode byte is consumed; then the
/// operands are fetched and the effect is made. A failed memory access stops
/// the instruction where it happened.
pub open spec fn execute_spec(s: CpuView, op: u8) -> (CpuView, Result<(), CpuError>) {
    if !supported(op) {
        (s, Err(CpuError::UnsupportedOpcode { op, pc: s.pc }))
    } else {
        let s0 = CpuView {
            cycle: (s.cycle + cycles_of(op)) as u64,
            pc: s.pc.wrapping_add(1),
            ..s
        };
        if op == 0x00 {
            (s0, Ok(()))
        } else if op == 0x01 || op == 0x11 || op == 0x21 {
            match fetch_spec(s0) {
                Ok((s1, hi)) => match fetch_spec(s1) {
                    Ok((s2, lo)) => (with_wide(s2, op / 16, pair_value(hi, lo)), Ok(())),
                    Err(e) => (s1, Err(CpuError::Memory(e))),
                },
                Err(e) => (s0, Err(CpuError::Memory(e))),
            }
        } else if op == 0x31 {
            match fetch16_spec(s0) {
                Ok((s1, v)) => (CpuView { sp: v, ..s1 }, Ok(())),
                Err(e) => (s0, Err(CpuError::Memory(e))),
            }
        } else if op == 0x02 || op == 0x12 {
            store_spec(s0, wide_of(s0, op / 16), s0.af.0)
        } else if op == 0x09 || op == 0x19 || op == 0x29 || op == 0x39 {
            (add_hl_spec(s0, wide_of(s0, op / 16)), Ok(()))
        } else if op == 0xc3 {
            match fetch16_spec(s0) {
                Ok((s1, a)) => (CpuView { pc: a, ..s1 }, Ok(())),
                Err(e) => (s0, Err(CpuError::Memory(e))),
            }
        } else if op == 0xcd {
            match fetch16_spec(s0) {
                Ok((s1, a)) => {
                    let (s2, r) = push16_spec(s1, s1.pc);
                    match r {
                        Ok(()) => (CpuView { pc: a, ..s2 }, Ok(())),
                        Err(e) => (s2, Err(CpuError::Memory(e))),
                    }
                },
                Err(e) => (s0, Err(CpuError::Memory(e))),
            }
        } else if op == 0x18 {
            match fetch_spec(s0) {
                Ok((s1, d)) => (CpuView { pc: s1.pc.wrapping_add(sign_extend(d)), ..s1 }, Ok(())),
                Err(e) => (s0, Err(CpuError::Memory(e))),
            }
        } else if op == 0xc9 {
            match read16_spec(s0.mem, s0.sp) {
                Ok(a) => (CpuView { pc: a, sp: s0.sp.wrapping_add(2), ..s0 }, Ok(())),
                Err(e) => (s0, Err(CpuError::Memory(e))),
            }
        } else if op == 0xaf {
            (CpuView { af: RegPair(0, with_flags(s0.af.1, true, false, false, false)), ..s0 }, Ok(()))
        } else if op == 0xc6 || op == 0xd6 {
            match fetch_spec(s0) {
                Ok((s1, v)) => (if op == 0xc6 { add_a_spec(s1, v) } else { sub_a_spec(s1, v) }, Ok(())),
                Err(e) => (s0, Err(CpuError::Memory(e))),
            }
        } else if op == 0xe0 {
            match fetch_spec(s0) {
                Ok((s1, a8)) => store_spec(s1, (0xff00 + a8) as u16, s1.af.0),
                Err(e) => (s0, Err(CpuError::Memory(e))),
            }
        } else {
            match fetch_spec(s0) {
                Ok((s1, a8)) => match read_spec(s1.mem, (0xff00 + a8) as u16) {
                    Ok(b) => (CpuView { af: RegPair(b, s1.af.1), ..s1 }, Ok(())),
                    Err(e) => (s1, Err(CpuError::Memory(e))),
                },
                Err(e) => (s0, Err(CpuError::Memory(e))),
            }
        }
    }
}

/// The state that start-up leaves: the registers hold what the boot program
/// leaves, which depends on whether the cartridge supports the color console;
/// the stack pointer is 0xFFFE and execution starts at 0x0100.
pub open spec fn boot_spec(s: CpuView, color: bool) -> CpuView {
    if color {
        CpuView {
            af: RegPair::of(0x1180),
            bc: RegPair::of(0x0000),
            de: RegPair::of(0xff56),
            hl: RegPair::of(0x000d),
            sp: 0xfffe,
            pc: 0x0100,
            ..s
        }
    } else {
        CpuView {
            af: RegPair::of(0x01b0),
            bc: RegPair::of(0x0013),
            de: RegPair::of(0x00d8),
            hl: RegPair::of(0x014d),
            sp: 0xfffe,
            pc: 0x0100,
            ..s
        }
    }
}

/// Whether a cartridge supports the color console, alone or besides the older one.
pub open spec fn color_capable(h: HeaderView) -> bool {
    h.gbc || h.gbc_only
}

/// One fetch-decode-execute step: refused when the cycle counter could
/// overflow; otherwise the opcode at the program counter is read and executed.
pub open spec fn step_spec(s: CpuView) -> (CpuView, Result<(), CpuError>) {
    if s.cycle > CYCLE_CEILING {
        (s, Err(CpuError::CycleLimit))
    } else {
        match read_spec(s.mem, s.pc) {
            Err(e) => (s, Err(CpuError::Memory(e))),
            Ok(op) => execute_spec(s, op),
        }
    }
}

/// Whether `n` successful steps lead from `s` to `t`.
pub open spec fn runs_to(s: CpuView, n: nat, t: CpuView) -> bool
    decreases n,
{
    if n == 0 {
        s == t
    } else {
        step_spec(s).1 is Ok && runs_to(step_spec(s).0, (n - 1) as nat, t)
    }
}

/// Whether, from `s`, `n` steps succeed and the next one fails with `r`,
/// leaving the state `f`.
pub open spec fn stops_after(s: CpuView, n: nat, f: CpuView, r: CpuError) -> bool
    decreases n,
{
    if n == 0 {
        step_spec(s) == (f, Err::<(), CpuError>(r))
    } else {
        step_spec(s).1 is Ok && stops_after(step_spec(s).0, (n - 1) as nat, f, r)
    }
}

/// A run of `n` steps followed by one more successful step is a run of `n + 1` steps.
pub proof fn lemma_runs_to_extend(s: CpuView, n: nat, t: CpuView)
    requires
        runs_to(s, n, t),
        step_spec(t).1 is Ok,
    ensures
        runs_to(s, n + 1, step_spec(t).0),
    decreases n,
{
    if n > 0 {
        lemma_runs_to_extend(step_spec(s).0, (n - 1) as nat, t);
        assert(((n + 1) - 1) as nat == ((n - 1) as nat) + 1);
    } else {
        assert(runs_to(step_spec(s).0, 0, step_spec(t).0));
    }
}

/// A run of `n` steps followed by a failing step stops after `n` steps.
pub proof fn lemma_runs_to_stop(s: CpuView, n: nat, t: CpuView, f: CpuView, r: CpuError)
    requires
        runs_to(s, n, t),
        step_spec(t) == (f, Err::<(), CpuError>(r)),
    ensures
        stops_after(s, n, f, r),
    decreases n,
{
    if n > 0 {
        lemma_runs_to_stop(step_spec(s).0, (n - 1) as nat, t, f, r);
    }
}

/// A successful step charges at least four cycles.
pub proof fn lemma_step_charges(s: CpuView)
    ensures
        step_spec(s).1 is Ok ==> step_spec(s).0.cycle >= s.cycle + 4,
{
    if s.cycle <= CYCLE_CEILING {
        if let Ok(op) = read_spec(s.mem, s.pc) {
            lemma_execute_charges(s, op);
        }
    }
}

/// The processor: its registers, its cycle counter and the memory it runs on.
pub struct Cpu {
    pub af: RegPair,
    pub bc: RegPair,
    pub de: RegPair,
    pub hl: RegPair,
    pub sp: u16,
    pub pc: u16,
    pub cycle: u64,
    pub mem: Memory,
}

impl View for Cpu {
    type V = CpuView;

    open spec fn view(&self) -> CpuView {
        CpuView {
            af: self.af,
            bc: self.bc,
            de: self.de,
            hl: self.hl,
            sp: self.sp,
            pc: self.pc,
            cycle: self.cycle,
            mem: self.mem@,
        }
    }
}

impl Cpu {
    /// A processor with every register and the cycle counter at zero.
    pub fn new(mem: Memory) -> (r: Cpu)
        requires
            mem@.wf(),
        ensures
            r@ == (CpuView {
                af: RegPair(0, 0),
                bc: RegPair(0, 0),
                de: RegPair(0, 0),
                hl: RegPair(0, 0),
                sp: 0,
                pc: 0,
                cycle: 0,
                mem: mem@,
            }),
    {
        Cpu {
            af: RegPair(0, 0),
            bc: RegPair(0, 0),
            de: RegPair(0, 0),
            hl: RegPair(0, 0),
            sp: 0,
            pc: 0,
            cycle: 0,
            mem,
        }
    }

    fn set_flag_zero(&mut self, val: bool)
        ensures
            final(self)@ == (CpuView {
                af: RegPair(old(self).af.0, with_flag(old(self).af.1, ZERO_FLAG, val)),
                ..old(self)@
            }),
    {
        if val {
            self.af.1 = self.af.1 | ZERO_FLAG;
        } else {
            self.af.1 = self.af.1 & !ZERO_FLAG;
        }
    }

    /// Whether the zero flag is set.
    pub fn get_flag_zero(&self) -> (r: bool)
        ensures
            r == flag_set(self.af.1, ZERO_FLAG),
    {
        self.af.1 & ZERO_FLAG != 0
    }

    fn set_flag_substract(&mut self, val: bool)
        ensures
            final(self)@ == (CpuView {
                af: RegPair(old(self).af.0, with_flag(old(self).af.1, SUB_FLAG, val)),
                ..old(self)@
            }),
    {
        if val {
            self.af.1 = self.af.1 | SUB_FLAG;
        } else {
            self.af.1 = self.af.1 & !SUB_FLAG;
        }
    }

    /// Whether the subtract flag is set.
    pub fn get_flag_substract(&self) -> (r: bool)
        ensures
            r == flag_set(self.af.1, SUB_FLAG),
    {
        self.af.1 & SUB_FLAG != 0
    }

    fn set_flag_half_carry(&mut self, val: bool)
        ensures
            final(self)@ == (CpuView {
                af: RegPair(old(self).af.0, with_flag(old(self).af.1, HALF_CARRY_FLAG, val)),
                ..old(self)@
            }),
    {
        if val {
            self.af.1 = self.af.1 | HALF_CARRY_FLAG;
        } else {
            self.af.1 = self.af.1 & !HALF_CARRY_FLAG;
        }
    }

    /// Whether the half-carry flag is set.
    pub fn get_flag_half_carry(&self) -> (r: bool)
        ensures
            r == flag_set(self.af.1, HALF_CARRY_FLAG),
    {
        self.af.1 & HALF_CARRY_FLAG != 0
    }

    fn set_flag_carry(&mut self, val: bool)
        ensures
            final(self)@ == (CpuView {
                af: RegPair(old(self).af.0, with_flag(old(self).af.1, CARRY_FLAG, val)),
                ..old(self)@
            }),
    {
        if val {
            self.af.1 = self.af.1 | CARRY_FLAG;
        } else {
            self.af.1 = self.af.1 & !CARRY_FLAG;
        }
    }

    /// Whether the carry flag is set.
    pub fn get_flag_carry(&self) -> (r: bool)
        ensures
            r == flag_set(self.af.1, CARRY_FLAG),
    {
        self.af.1 & CARRY_FLAG != 0
    }

    /// Sets the registers to the values that the boot program leaves, which
    /// depend on whether the cartridge supports the color console.
    pub fn initialize(&mut self, cart: &CartHeader)
        ensures
            final(self)@ == boot_spec(old(self)@, color_capable(cart@)),
    {
        if cart.gbc || cart.gbc_only {
            self.af.set(0x1180);
            self.bc.set(0x0000);
            self.de.set(0xff56);
            self.hl.set(0x000d);
        } else {
            self.af.set(0x01b0);
            self.bc.set(0x0013);
            self.de.set(0x00d8);
            self.hl.set(0x014d);
        }
        self.sp = 0xfffe;
        self.pc = 0x0100;
    }

    /// The 16-bit register numbered `i`: BC, DE, HL, then SP.
    fn wide(&self, i: u8) -> (r: u16)
        ensures
            r == wide_of(self@, i),
    {
        match i {
            0 => self.bc.get(),
            1 => self.de.get(),
            2 => self.hl.get(),
            _ => self.sp,
        }
    }

    /// Sets the 16-bit register numbered `i`: BC, DE, HL, then SP.
    fn set_wide(&mut self, i: u8, v: u16)
        ensures
            final(self)@ == with_wide(old(self)@, i, v),
    {
        match i {
            0 => self.bc.set(v),
            1 => self.de.set(v),
            2 => self.hl.set(v),
            _ => self.sp = v,
        }
    }

    /// Adds `v` into HL and sets the flags of a 16-bit addition.
    fn add_hl(&mut self, v: u16)
        ensures
            final(self)@ == add_hl_spec(old(self)@, v),
    {
        let hl = self.hl.get();
        assert(hl & 0xfff <= 0xfff && v & 0xfff <= 0xfff) by (bit_vector);
        let half = (hl & 0xfff) + (v & 0xfff) > 0xfff;
        let carry = hl as u32 + v as u32 > 0xffff;
        self.hl.set(hl.wrapping_add(v));
        self.set_flag_substract(false);
        self.set_flag_half_carry(half);
        self.set_flag_carry(carry);
    }

    /// Sets all four flags.
    fn set_flags(&mut self, z: bool, n: bool, h: bool, c: bool)
        ensures
            final(self)@ == (CpuView {
                af: RegPair(old(self).af.0, with_flags(old(self).af.1, z, n, h, c)),
                ..old(self)@
            }),
    {
        self.set_flag_zero(z);
        self.set_flag_substract(n);
        self.set_flag_half_carry(h);
        self.set_flag_carry(c);
    }

    /// Adds `v` into A and sets the flags of an 8-bit addition.
    fn add_a(&mut self, v: u8)
        ensures
            final(self)@ == add_a_spec(old(self)@, v),
    {
        let a = self.af.0;
        assert(a & 0xf <= 0xf && v & 0xf <= 0xf) by (bit_vector);
        let half = (a & 0xf) + (v & 0xf) > 0xf;
        let carry = a as u16 + v as u16 > 0xff;
        let res = a.wrapping_add(v);
        self.af.0 = res;
        self.set_flags(res == 0, false, half, carry);
    }

    /// Subtracts `v` from A and sets the flags of an 8-bit subtraction.
    fn sub_a(&mut self, v: u8)
        ensures
            final(self)@ == sub_a_spec(old(self)@, v),
    {
        let a = self.af.0;
        let res = a.wrapping_sub(v);
        self.af.0 = res;
        self.set_flags(res == 0, true, (a & 0xf) < (v & 0xf), a < v);
    }

    /// Pushes a word on the stack.
    fn stack_push16(&mut self, val: u16) -> (r: Result<(), MemError>)
        requires
            old(self).mem@.wf(),
        ensures
            final(self).mem@.wf(),
            (final(self)@, r) == push16_spec(old(self)@, val),
    {
        self.sp = self.sp.wrapping_sub(2);
        self.mem.write16(self.sp, val)
    }

    /// Reads the byte at the program counter and moves past it.
    fn fetch(&mut self) -> (r: Result<u8, MemError>)
        requires
            old(self).mem@.wf(),
        ensures
            match fetch_spec(old(self)@) {
                Ok((s, b)) => r == Ok::<u8, MemError>(b) && final(self)@ == s,
                Err(e) => r == Err::<u8, MemError>(e) && final(self)@ == old(self)@,
            },
    {
        let val = match self.mem.read8(self.pc) {
            Ok(b) => b,
            Err(e) => return Err(e),
        };
        self.pc = self.pc.wrapping_add(1);
        Ok(val)
    }

    /// Reads the little-endian word at the program counter and moves past it.
    fn fetch16(&mut self) -> (r: Result<u16, MemError>)
        requires
            old(self).mem@.wf(),
        ensures
            match fetch16_spec(old(self)@) {
                Ok((s, w)) => r == Ok::<u16, MemError>(w) && final(self)@ == s,
                Err(e) => r == Err::<u16, MemError>(e) && final(self)@ == old(self)@,
            },
    {
        let val = match self.mem.read16(self.pc) {
            Ok(w) => w,
            Err(e) => return Err(e),
        };
        self.pc = self.pc.wrapping_add(2);
        Ok(val)
    }

    fn jump(&mut self, addr: u16)
        ensures
            final(self)@ == (CpuView { pc: addr, ..old(self)@ }),
    {
        self.pc = addr;
    }

    /// Charges the opcode's cycles and consumes the opcode byte.
    fn begin(&mut self, op: u8)
        requires
            old(self).cycle + cycles_of(op) <= u64::MAX,
        ensures
            final(self)@ == (CpuView {
                cycle: (old(self).cycle + cycles_of(op)) as u64,
                pc: old(self).pc.wrapping_add(1),
                ..old(self)@
            }),
    {
        self.cycle = self.cycle + op_cycles(op) as u64;
        self.pc = self.pc.wrapping_add(1);
    }

    /// Writes the byte `val` at `addr` for an instruction.
    fn store(&mut self, addr: u16, val: u8) -> (r: Result<(), CpuError>)
        requires
            old(self).mem@.wf(),
        ensures
            final(self).mem@.wf(),
            (final(self)@, r) == store_spec(old(self)@, addr, val),
    {
        match self.mem.write(addr, val) {
            Ok(()) => Ok(()),
            Err(e) => Err(CpuError::Memory(e)),
        }
    }

    /// Executes the instruction whose opcode `op` stands at the program counter.
    pub fn execute(&mut self, op: u8) -> (r: Result<(), CpuError>)
        requires
            old(self).mem@.wf(),
            supported(op) ==> old(self).cycle + cycles_of(op) <= u64::MAX,
        ensures
            final(self).mem@.wf(),
            (final(self)@, r) == execute_spec(old(self)@, op),
    {
        match op {
            0x00 => {
                self.begin(op);
                Ok(())
            },
            0x01 | 0x11 | 0x21 => {
                self.begin(op);
                let hi = match self.fetch() {
                    Ok(b) => b,
                    Err(e) => return Err(CpuError::Memory(e)),
                };
                let lo = match self.fetch() {
                    Ok(b) => b,
                    Err(e) => return Err(CpuError::Memory(e)),
                };
                self.set_wide(op / 16, ((hi as u16) << 8) | (lo as u16));
                Ok(())
            },
            0x31 => {
                self.begin(op);
                match self.fetch16() {
                    Ok(v) => {
                        self.sp = v;
                        Ok(())
                    },
                    Err(e) => Err(CpuError::Memory(e)),
                }
            },
            0x02 | 0x12 => {
                self.begin(op);
                let addr = self.wide(op / 16);
                let a = self.af.0;
                self.store(addr, a)
            },
            0x09 | 0x19 | 0x29 | 0x39 => {
                self.begin(op);
                let v = self.wide(op / 16);
                self.add_hl(v);
                Ok(())
            },
            0xc3 => {
                self.begin(op);
                match self.fetch16() {
                    Ok(a16) => {
                        self.jump(a16);
                        Ok(())
                    },
                    Err(e) => Err(CpuError::Memory(e)),
                }
            },
            0xcd => {
                self.begin(op);
                match self.fetch16() {
                    Ok(a16) => {
                        let ret = self.pc;
                        match self.stack_push16(ret) {
                            Ok(()) => {
                                self.jump(a16);
                                Ok(())
                            },
                            Err(e) => Err(CpuError::Memory(e)),
                        }
                    },
                    Err(e) => Err(CpuError::Memory(e)),
                }
            },
            0x18 => {
                self.begin(op);
                match self.fetch() {
                    Ok(d) => {
                        let offset: u16 = if d < 0x80 {
                            d as u16
                        } else {
                            d as u16 + 0xff00
                        };
                        let target = self.pc.wrapping_add(offset);
                        self.jump(target);
                        Ok(())
                    },
                    Err(e) => Err(CpuError::Memory(e)),
                }
            },
            0xc9 => {
                self.begin(op);
                match self.mem.read16(self.sp) {
                    Ok(a16) => {
                        self.sp = self.sp.wrapping_add(2);
                        self.jump(a16);
                        Ok(())
                    },
                    Err(e) => Err(CpuError::Memory(e)),
                }
            },
            0xaf => {
                self.begin(op);
                self.af.0 = 0;
                self.set_flags(true, false, false, false);
                Ok(())
            },
            0xc6 | 0xd6 => {
                self.begin(op);
                match self.fetch() {
                    Ok(v) => {
                        if op == 0xc6 {
                            self.add_a(v);
                        } else {
                            self.sub_a(v);
                        }
                        Ok(())
                    },
                    Err(e) => Err(CpuError::Memory(e)),
                }
            },
            0xe0 => {
                self.begin(op);
                match self.fetch() {
                    Ok(a8) => {
                        let a = self.af.0;
                        self.store(0xff00 + a8 as u16, a)
                    },
                    Err(e) => Err(CpuError::Memory(e)),
                }
            },
            0xf0 => {
                self.begin(op);
                match self.fetch() {
                    Ok(a8) => match self.mem.read8(0xff00 + a8 as u16) {
                        Ok(val) => {
                            self.af.0 = val;
                            Ok(())
                        },
                        Err(e) => Err(CpuError::Memory(e)),
                    },
                    Err(e) => Err(CpuError::Memory(e)),
                }
            },
            _ => Err(CpuError::UnsupportedOpcode { op, pc: self.pc }),
        }
    }

    /// Runs one step: refuses when the cycle counter could overflow, else
    /// reads the opcode at the program counter and executes it.
    pub fn step(&mut self) -> (r: Result<(), CpuError>)
        requires
            old(self).mem@.wf(),
        ensures
            final(self).mem@.wf(),
            (final(self)@, r) == step_spec(old(self)@),
    {
        if self.cycle > CYCLE_CEILING {
            return Err(CpuError::CycleLimit);
        }
        let op = match self.mem.read8(self.pc) {
            Ok(b) => b,
            Err(e) => return Err(CpuError::Memory(e)),
        };
        self.execute(op)
    }

    /// Sets the start-up registers for `cart`, then steps until a step
    /// fails, and returns why: the outcome is that of some number of
    /// successful steps from the start-up state followed by one failing step.
    pub fn run(&mut self, cart: CartHeader) -> (r: CpuError)
        requires
            old(self).mem@.wf(),
        ensures
            final(self).mem@.wf(),
            exists|n: nat| #[trigger] stops_after(boot_spec(old(self)@, color_capable(cart@)), n, final(self)@, r),
    {
        self.initialize(&cart);
        let ghost start = self@;
        let ghost mut n: nat = 0;
        loop
            invariant
                self.mem@.wf(),
                start == boot_spec(old(self)@, color_capable(cart@)),
                runs_to(start, n, self@),
            decreases u64::MAX - self.cycle,
        {
            let ghost before = self@;
            proof {
                lemma_step_charges(before);
            }
            match self.step() {
                Ok(()) => {
                    proof {
                        lemma_runs_to_extend(start, n, before);
                        n = n + 1;
                    }
                },
                Err(e) => {
                    proof {
                        lemma_runs_to_stop(start, n, before, self@, e);
                    }
                    return e;
                },
            }
        }
    }
}

/// An instruction that runs charges its cycle cost, which is never zero.
pub proof fn lemma_execute_charges(s: CpuView, op: u8)
    requires
        supported(op) ==> s.cycle + cycles_of(op) <= u64::MAX,
    ensures
        execute_spec(s, op).1 is Ok ==> supported(op) && execute_spec(s, op).0.cycle == s.cycle
            + cycles_of(op),
        supported(op) ==> cycles_of(op) >= 4,
{
}

/// A no-op moves the program counter on by one, charges four cycles and
/// changes nothing else.
pub proof fn lemma_nop(s: CpuView)
    requires
        s.cycle + 4 <= u64::MAX,
    ensures
        execute_spec(s, 0x00) == (CpuView { pc: s.pc.wrapping_add(1), cycle: (s.cycle + 4) as u64, ..s }, Ok::<(), CpuError>(())),
{
}

/// Loading an immediate value into a register pair (BC, DE or HL) puts the
/// first byte after the opcode in the pair's high register and the second in
/// its low register, moves the program counter on by three and charges twelve
/// cycles; nothing else changes.
pub proof fn lemma_load_immediate(s: CpuView, op: u8, hi: u8, lo: u8)
    requires
        s.cycle + 12 <= u64::MAX,
        op == 0x01 || op == 0x11 || op == 0x21,
        read_spec(s.mem, s.pc.wrapping_add(1)) == Ok::<u8, MemError>(hi),
        read_spec(s.mem, s.pc.wrapping_add(2)) == Ok::<u8, MemError>(lo),
    ensures
        execute_spec(s, op).1 == Ok::<(), CpuError>(()),
        op == 0x01 ==> execute_spec(s, op).0.bc == RegPair(hi, lo),
        op == 0x11 ==> execute_spec(s, op).0.de == RegPair(hi, lo),
        op == 0x21 ==> execute_spec(s, op).0.hl == RegPair(hi, lo),
        wide_of(execute_spec(s, op).0, op / 16) == pair_value(hi, lo),
        execute_spec(s, op).0.pc == s.pc.wrapping_add(3),
        execute_spec(s, op).0.cycle == s.cycle + 12,
        execute_spec(s, op).0.af == s.af,
        execute_spec(s, op).0.sp == s.sp,
        execute_spec(s, op).0.mem == s.mem,
{
    crate::regs::lemma_join_split(hi, lo);
    crate::regs::lemma_split_join(pair_value(hi, lo));
    assert(s.pc.wrapping_add(1).wrapping_add(1) == s.pc.wrapping_add(2));
    assert(s.pc.wrapping_add(1).wrapping_add(1).wrapping_add(1) == s.pc.wrapping_add(3));
}

/// An opcode without an implementation is refused, naming the opcode and the
/// program counter, and changes nothing: not the program counter, not the
/// registers, not the cycle counter, not the memory.
pub proof fn lemma_unsupported_changes_nothing(s: CpuView, op: u8)
    requires
        !supported(op),
    ensures
        execute_spec(s, op) == (s, Err::<(), CpuError>(CpuError::UnsupportedOpcode { op, pc: s.pc })),
{
}

/// After a 16-bit addition into HL, HL holds the wrapped sum, half-carry tells
/// whether bit 11 carried, carry whether bit 15 carried, subtract is clear, and
/// zero and the low nibble of the flag byte are kept.
pub proof fn lemma_add_hl_flags(s: CpuView, v: u16)
    ensures
        add_hl_spec(s, v).hl.value() == s.hl.value().wrapping_add(v),
        flag_set(add_hl_spec(s, v).af.1, HALF_CARRY_FLAG) == ((s.hl.value() & 0xfff) + (v & 0xfff)
            > 0xfff),
        flag_set(add_hl_spec(s, v).af.1, CARRY_FLAG) == (s.hl.value() + v > 0xffff),
        !flag_set(add_hl_spec(s, v).af.1, SUB_FLAG),
        flag_set(add_hl_spec(s, v).af.1, ZERO_FLAG) == flag_set(s.af.1, ZERO_FLAG),
        add_hl_spec(s, v).af.1 & 0x0f == s.af.1 & 0x0f,
{
    let hl = s.hl.value();
    let half = (hl & 0xfff) + (v & 0xfff) > 0xfff;
    let carry = hl + v > 0xffff;
    let f0 = s.af.1;
    let f1 = with_flag(f0, SUB_FLAG, false);
    let f2 = with_flag(f1, HALF_CARRY_FLAG, half);
    lemma_with_flag(f0, SUB_FLAG, ZERO_FLAG, false);
    lemma_with_flag(f1, HALF_CARRY_FLAG, ZERO_FLAG, half);
    lemma_with_flag(f1, HALF_CARRY_FLAG, SUB_FLAG, half);
    lemma_with_flag(f2, CARRY_FLAG, ZERO_FLAG, carry);
    lemma_with_flag(f2, CARRY_FLAG, SUB_FLAG, carry);
    lemma_with_flag(f2, CARRY_FLAG, HALF_CARRY_FLAG, carry);
    crate::regs::lemma_split_join(hl.wrapping_add(v));
}

/// Setting all four flags gives each the value asked for and keeps the low nibble.
pub proof fn lemma_with_flags(f: u8, z: bool, n: bool, h: bool, c: bool)
    ensures
        flag_set(with_flags(f, z, n, h, c), ZERO_FLAG) == z,
        flag_set(with_flags(f, z, n, h, c), SUB_FLAG) == n,
        flag_set(with_flags(f, z, n, h, c), HALF_CARRY_FLAG) == h,
        flag_set(with_flags(f, z, n, h, c), CARRY_FLAG) == c,
        with_flags(f, z, n, h, c) & 0x0f == f & 0x0f,
{
    let f1 = with_flag(f, ZERO_FLAG, z);
    let f2 = with_flag(f1, SUB_FLAG, n);
    let f3 = with_flag(f2, HALF_CARRY_FLAG, h);
    lemma_with_flag(f, ZERO_FLAG, SUB_FLAG, z);
    lemma_with_flag(f1, SUB_FLAG, ZERO_FLAG, n);
    lemma_with_flag(f2, HALF_CARRY_FLAG, ZERO_FLAG, h);
    lemma_with_flag(f2, HALF_CARRY_FLAG, SUB_FLAG, h);
    lemma_with_flag(f3, CARRY_FLAG, ZERO_FLAG, c);
    lemma_with_flag(f3, CARRY_FLAG, SUB_FLAG, c);
    lemma_with_flag(f3, CARRY_FLAG, HALF_CARRY_FLAG, c);
}

/// After an 8-bit addition into A, A holds the wrapped sum, zero tells whether
/// it is 0, half-carry whether bit 3 carried, carry whether bit 7 carried, and
/// subtract is clear.
pub proof fn lemma_add_a_flags(s: CpuView, v: u8)
    ensures
        add_a_spec(s, v).af.0 == s.af.0.wrapping_add(v),
        flag_set(add_a_spec(s, v).af.1, ZERO_FLAG) == (s.af.0.wrapping_add(v) == 0),
        !flag_set(add_a_spec(s, v).af.1, SUB_FLAG),
        flag_set(add_a_spec(s, v).af.1, HALF_CARRY_FLAG) == ((s.af.0 & 0xf) + (v & 0xf) > 0xf),
        flag_set(add_a_spec(s, v).af.1, CARRY_FLAG) == (s.af.0 + v > 0xff),
{
    let a = s.af.0;
    lemma_with_flags(s.af.1, a.wrapping_add(v) == 0, false, (a & 0xf) + (v & 0xf) > 0xf, a + v > 0xff);
}

/// After an 8-bit subtraction from A, A holds the wrapped difference, zero
/// tells whether it is 0, subtract is set, half-carry tells whether bit 4
/// borrowed, carry whether the whole byte borrowed.
pub proof fn lemma_sub_a_flags(s: CpuView, v: u8)
    ensures
        sub_a_spec(s, v).af.0 == s.af.0.wrapping_sub(v),
        flag_set(sub_a_spec(s, v).af.1, ZERO_FLAG) == (s.af.0.wrapping_sub(v) == 0),
        flag_set(sub_a_spec(s, v).af.1, SUB_FLAG),
        flag_set(sub_a_spec(s, v).af.1, HALF_CARRY_FLAG) == ((s.af.0 & 0xf) < (v & 0xf)),
        flag_set(sub_a_spec(s, v).af.1, CARRY_FLAG) == (s.af.0 < v),
{
    let a = s.af.0;
    lemma_with_flags(s.af.1, a.wrapping_sub(v) == 0, true, (a & 0xf) < (v & 0xf), a < v);
}

/// No instruction writes the low nibble of the flag byte: once it is zero, it
/// stays zero.
pub proof fn lemma_flag_low_nibble_kept(s: CpuView, op: u8)
    requires
        supported(op) ==> s.cycle + cycles_of(op) <= u64::MAX,
    ensures
        execute_spec(s, op).0.af.1 & 0x0f == s.af.1 & 0x0f,
{
    let f = s.af.1;
    let hl = s.hl.value();
    let a = s.af.0;
    if op == 0x09 || op == 0x19 || op == 0x29 || op == 0x39 {
        let v = wide_of(s, op / 16);
        let f1 = with_flag(f, SUB_FLAG, false);
        let f2 = with_flag(f1, HALF_CARRY_FLAG, (hl & 0xfff) + (v & 0xfff) > 0xfff);
        lemma_with_flag(f, SUB_FLAG, ZERO_FLAG, false);
        lemma_with_flag(f1, HALF_CARRY_FLAG, ZERO_FLAG, (hl & 0xfff) + (v & 0xfff) > 0xfff);
        lemma_with_flag(f2, CARRY_FLAG, ZERO_FLAG, hl + v > 0xffff);
    } else if op == 0xaf {
        lemma_with_flags(f, true, false, false, false);
    } else if op == 0xc6 || op == 0xd6 {
        match fetch_spec(CpuView { cycle: (s.cycle + cycles_of(op)) as u64, pc: s.pc.wrapping_add(1), ..s }) {
            Ok((s1, v)) => {
                lemma_with_flags(f, a.wrapping_add(v) == 0, false, (a & 0xf) + (v & 0xf) > 0xf, a + v > 0xff);
                lemma_with_flags(f, a.wrapping_sub(v) == 0, true, (a & 0xf) < (v & 0xf), a < v);
            },
            Err(_) => {},
        }
    }
}

} // verus!
