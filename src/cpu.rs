//! Registers, status flags and the fetch-decode-execute loop.

use vstd::prelude::*;

use crate::memory::{next_addr, Bus, BusView, Mem, PRG_BANK_SIZE, RAM_SIZE};
use crate::opcodes::{decode, decode_opcode, operand_bytes, operand_len, Mode, Op};

verus! {

pub const FLAG_CARRY: u8 = 0b0000_0001;
pub const FLAG_ZERO: u8 = 0b0000_0010;
pub const FLAG_INTERRUPT: u8 = 0b0000_0100;
pub const FLAG_DECIMAL: u8 = 0b0000_1000;
pub const FLAG_BREAK: u8 = 0b0001_0000;
pub const FLAG_UNUSED: u8 = 0b0010_0000;
pub const FLAG_OVERFLOW: u8 = 0b0100_0000;
pub const FLAG_NEGATIVE: u8 = 0b1000_0000;

/// Status after construction: interrupts disabled, the unused bit set.
pub const STATUS_RESET: u8 = 0b0010_0100;
/// The page that holds the stack.
pub const STACK: u16 = 0x0100;
/// Where a loaded program starts.
pub const PROGRAM_START: u16 = 0x8000;

/// `stat` with `flag` set when `on` holds and cleared otherwise.
pub open spec fn with_flag(stat: u8, flag: u8, on: bool) -> u8 {
    if on {
        stat | flag
    } else {
        stat & !flag
    }
}

/// `stat` with Zero and Negative recomputed from `v`.
pub open spec fn update_zn(stat: u8, v: u8) -> u8 {
    with_flag(with_flag(stat, FLAG_ZERO, v == 0), FLAG_NEGATIVE, v >= 0x80)
}

/// `v` reduced to a byte.
pub open spec fn wrap8(v: int) -> u8 {
    (v % 256) as u8
}

/// `v` reduced to a 16-bit word.
pub open spec fn wrap16(v: int) -> u16 {
    (v % 0x10000) as u16
}

/// The carry flag as a number.
pub open spec fn carry_in(stat: u8) -> int {
    if stat & FLAG_CARRY != 0 {
        1
    } else {
        0
    }
}

/// Sets or clears the bits of `flag` in `stat`.
pub fn set_flag(stat: u8, flag: u8, on: bool) -> (r: u8)
    ensures
        r == with_flag(stat, flag, on),
{
    if on {
        stat | flag
    } else {
        stat & !flag
    }
}

/// Recomputes Zero and Negative from `v`, keeping every other bit of `stat`.
pub fn set_zn(stat: u8, v: u8) -> (r: u8)
    ensures
        r == update_zn(stat, v),
{
    let s = set_flag(stat, FLAG_ZERO, v == 0);
    set_flag(s, FLAG_NEGATIVE, v >= 0x80)
}

/// The architectural state: registers and what the bus holds.
pub ghost struct CpuView {
    pub a: u8,
    pub x: u8,
    pub y: u8,
    pub sp: u8,
    pub pc: u16,
    pub stat: u8,
    pub mem: BusView,
}

/// The little-endian word of two bytes.
pub open spec fn word_of(lo: u8, hi: u8) -> u16 {
    (lo + 256 * hi) as u16
}

/// The target of an indirect jump through the pointer `w`. The high byte of
/// the pointer never carries: a pointer at the end of a page takes its high
/// byte from the start of that page.
pub open spec fn indirect_target(mem: BusView, w: u16) -> u16 {
    let hi_at = if w % 256 == 255 { (w - 255) as u16 } else { (w + 1) as u16 };
    word_of(mem.read(w), mem.read(hi_at))
}

/// Indexed indirect: the index is added to the zero-page pointer `b` before
/// the pointer is followed; pointer arithmetic stays in the zero page.
pub open spec fn indexed_indirect(mem: BusView, b: u8, x: u8) -> u16 {
    let p = wrap8(b + x);
    word_of(mem.read(p as u16), mem.read(wrap8(p + 1) as u16))
}

/// Indirect indexed: the zero-page pointer `b` is followed, then the index is
/// added to the address found there.
pub open spec fn indirect_indexed(mem: BusView, b: u8, y: u8) -> u16 {
    wrap16(word_of(mem.read(b as u16), mem.read(wrap8(b + 1) as u16)) + y)
}

/// The address that `mode` resolves to, for an instruction whose operand
/// bytes start at `s.pc`. A relative branch resolves to its offset byte;
/// modes without a memory operand resolve to 0.
pub open spec fn operand_address(s: CpuView, mode: Mode) -> u16 {
    match mode {
        Mode::Immediate | Mode::Relative => s.pc,
        Mode::ZeroPage => s.mem.read(s.pc) as u16,
        Mode::ZeroPageX => wrap8(s.mem.read(s.pc) + s.x) as u16,
        Mode::ZeroPageY => wrap8(s.mem.read(s.pc) + s.y) as u16,
        Mode::Absolute => s.mem.read_u16(s.pc),
        Mode::AbsoluteX => wrap16(s.mem.read_u16(s.pc) + s.x),
        Mode::AbsoluteY => wrap16(s.mem.read_u16(s.pc) + s.y),
        Mode::Indirect => indirect_target(s.mem, s.mem.read_u16(s.pc)),
        Mode::IndirectX => indexed_indirect(s.mem, s.mem.read(s.pc), s.x),
        Mode::IndirectY => indirect_indexed(s.mem, s.mem.read(s.pc), s.y),
        _ => 0,
    }
}

/// `s` with the program counter moved past the operand bytes of `mode`.
pub open spec fn advance(s: CpuView, mode: Mode) -> CpuView {
    CpuView { pc: wrap16(s.pc + operand_len(mode)), ..s }
}

/// Pushes `v`: the stack pointer moves down, wrapping within its page.
pub open spec fn push_spec(s: CpuView, v: u8) -> CpuView {
    CpuView { mem: s.mem.write((STACK + s.sp) as u16, v), sp: wrap8(s.sp + 255), ..s }
}

/// Pops a byte: the stack pointer moves up, wrapping within its page.
pub open spec fn pop_spec(s: CpuView) -> (CpuView, u8) {
    let sp = wrap8(s.sp + 1);
    (CpuView { sp, ..s }, s.mem.read((STACK + sp) as u16))
}

/// The status a pull from the stack installs: Break cleared, the unused bit set.
pub open spec fn pulled_status(v: u8) -> u8 {
    (v & !FLAG_BREAK) | FLAG_UNUSED
}

/// Binary addition with carry in: the sum, and the status with Carry,
/// Overflow, Zero and Negative set from it.
pub open spec fn adc_spec(stat: u8, a: u8, m: u8) -> (u8, u8) {
    let sum = a + m + carry_in(stat);
    let r = wrap8(sum);
    let overflow = ((a < 128) == (m < 128)) && ((r < 128) != (a < 128));
    (r, update_zn(with_flag(with_flag(stat, FLAG_CARRY, sum > 255), FLAG_OVERFLOW, overflow), r))
}

/// A comparison of `reg` with `m`: Carry when `reg >= m`, Zero and Negative
/// from the difference.
pub open spec fn compare_spec(stat: u8, reg: u8, m: u8) -> u8 {
    update_zn(with_flag(stat, FLAG_CARRY, reg >= m), wrap8(reg - m + 256))
}

/// A shift or rotate of `v` by one bit: the result, and the status with
/// Carry taken from the bit shifted out.
pub open spec fn shift_spec(op: Op, stat: u8, v: u8) -> (u8, u8) {
    let c = carry_in(stat);
    let r: u8 = match op {
        Op::Asl => wrap8(v * 2),
        Op::Lsr => (v / 2) as u8,
        Op::Rol => wrap8(v * 2 + c),
        _ => (v / 2 + 128 * c) as u8,
    };
    let out = match op {
        Op::Asl | Op::Rol => v >= 128,
        _ => v % 2 == 1,
    };
    (r, update_zn(with_flag(stat, FLAG_CARRY, out), r))
}

/// The status after testing the bits of `m` against the accumulator `a`.
pub open spec fn bit_spec(stat: u8, a: u8, m: u8) -> u8 {
    with_flag(
        with_flag(with_flag(stat, FLAG_ZERO, a & m == 0), FLAG_OVERFLOW, m & 0x40 != 0),
        FLAG_NEGATIVE,
        m >= 0x80,
    )
}

/// Whether a conditional branch is taken under `stat`.
pub open spec fn branch_taken(op: Op, stat: u8) -> bool {
    match op {
        Op::Bcc => stat & FLAG_CARRY == 0,
        Op::Bcs => stat & FLAG_CARRY != 0,
        Op::Bne => stat & FLAG_ZERO == 0,
        Op::Beq => stat & FLAG_ZERO != 0,
        Op::Bvc => stat & FLAG_OVERFLOW == 0,
        Op::Bvs => stat & FLAG_OVERFLOW != 0,
        Op::Bpl => stat & FLAG_NEGATIVE == 0,
        Op::Bmi => stat & FLAG_NEGATIVE != 0,
        _ => false,
    }
}

/// `pc` moved by the signed offset `offset`, wrapping around the address space.
pub open spec fn branch_target(pc: u16, offset: u8) -> u16 {
    if offset < 128 {
        wrap16(pc + offset)
    } else {
        wrap16(pc + offset + 0xFF00)
    }
}

/// The effect of `op` in `mode` on a state whose program counter stands at
/// the instruction's operand bytes. Halting on Brk is the loop's business:
/// here it only moves past its opcode, as Nop does.
#[verifier::opaque]
pub open spec fn execute_spec(s: CpuView, op: Op, mode: Mode) -> CpuView {
    let addr = operand_address(s, mode);
    let m = s.mem.read(addr);
    let n = advance(s, mode);
    match op {
        Op::Lda => CpuView { a: m, stat: update_zn(s.stat, m), ..n },
        Op::Ldx => CpuView { x: m, stat: update_zn(s.stat, m), ..n },
        Op::Ldy => CpuView { y: m, stat: update_zn(s.stat, m), ..n },
        Op::Sta => CpuView { mem: s.mem.write(addr, s.a), ..n },
        Op::Stx => CpuView { mem: s.mem.write(addr, s.x), ..n },
        Op::Sty => CpuView { mem: s.mem.write(addr, s.y), ..n },
        Op::Tax => CpuView { x: s.a, stat: update_zn(s.stat, s.a), ..n },
        Op::Tay => CpuView { y: s.a, stat: update_zn(s.stat, s.a), ..n },
        Op::Txa => CpuView { a: s.x, stat: update_zn(s.stat, s.x), ..n },
        Op::Tya => CpuView { a: s.y, stat: update_zn(s.stat, s.y), ..n },
        Op::Tsx => CpuView { x: s.sp, stat: update_zn(s.stat, s.sp), ..n },
        Op::Txs => CpuView { sp: s.x, ..n },
        Op::Inx => CpuView { x: wrap8(s.x + 1), stat: update_zn(s.stat, wrap8(s.x + 1)), ..n },
        Op::Iny => CpuView { y: wrap8(s.y + 1), stat: update_zn(s.stat, wrap8(s.y + 1)), ..n },
        Op::Dex => CpuView { x: wrap8(s.x + 255), stat: update_zn(s.stat, wrap8(s.x + 255)), ..n },
        Op::Dey => CpuView { y: wrap8(s.y + 255), stat: update_zn(s.stat, wrap8(s.y + 255)), ..n },
        Op::Inc => CpuView {
            mem: s.mem.write(addr, wrap8(m + 1)),
            stat: update_zn(s.stat, wrap8(m + 1)),
            ..n
        },
        Op::Dec => CpuView {
            mem: s.mem.write(addr, wrap8(m + 255)),
            stat: update_zn(s.stat, wrap8(m + 255)),
            ..n
        },
        Op::And => CpuView { a: s.a & m, stat: update_zn(s.stat, s.a & m), ..n },
        Op::Ora => CpuView { a: s.a | m, stat: update_zn(s.stat, s.a | m), ..n },
        Op::Eor => CpuView { a: s.a ^ m, stat: update_zn(s.stat, s.a ^ m), ..n },
        Op::Adc => CpuView { a: adc_spec(s.stat, s.a, m).0, stat: adc_spec(s.stat, s.a, m).1, ..n },
        Op::Sbc => CpuView {
            a: adc_spec(s.stat, s.a, (255 - m) as u8).0,
            stat: adc_spec(s.stat, s.a, (255 - m) as u8).1,
            ..n
        },
        Op::Cmp => CpuView { stat: compare_spec(s.stat, s.a, m), ..n },
        Op::Cpx => CpuView { stat: compare_spec(s.stat, s.x, m), ..n },
        Op::Cpy => CpuView { stat: compare_spec(s.stat, s.y, m), ..n },
        Op::Asl | Op::Lsr | Op::Rol | Op::Ror => if mode == Mode::Accumulator {
            CpuView { a: shift_spec(op, s.stat, s.a).0, stat: shift_spec(op, s.stat, s.a).1, ..n }
        } else {
            CpuView {
                mem: s.mem.write(addr, shift_spec(op, s.stat, m).0),
                stat: shift_spec(op, s.stat, m).1,
                ..n
            }
        },
        Op::Bit => CpuView { stat: bit_spec(s.stat, s.a, m), ..n },
        Op::Clc => CpuView { stat: with_flag(s.stat, FLAG_CARRY, false), ..n },
        Op::Sec => CpuView { stat: with_flag(s.stat, FLAG_CARRY, true), ..n },
        Op::Cli => CpuView { stat: with_flag(s.stat, FLAG_INTERRUPT, false), ..n },
        Op::Sei => CpuView { stat: with_flag(s.stat, FLAG_INTERRUPT, true), ..n },
        Op::Cld => CpuView { stat: with_flag(s.stat, FLAG_DECIMAL, false), ..n },
        Op::Sed => CpuView { stat: with_flag(s.stat, FLAG_DECIMAL, true), ..n },
        Op::Clv => CpuView { stat: with_flag(s.stat, FLAG_OVERFLOW, false), ..n },
        Op::Bcc | Op::Bcs | Op::Beq | Op::Bne | Op::Bmi | Op::Bpl | Op::Bvc | Op::Bvs => CpuView {
            pc: if branch_taken(op, s.stat) {
                branch_target(n.pc, m)
            } else {
                n.pc
            },
            ..s
        },
        Op::Jmp => CpuView { pc: addr, ..s },
        Op::Jsr => CpuView {
            pc: addr,
            ..push_spec(push_spec(s, (wrap16(s.pc + 1) / 256) as u8), (wrap16(s.pc + 1) % 256) as u8)
        },
        Op::Rts => CpuView {
            pc: wrap16(word_of(pop_spec(s).1, pop_spec(pop_spec(s).0).1) + 1),
            ..pop_spec(pop_spec(s).0).0
        },
        Op::Rti => CpuView {
            stat: pulled_status(pop_spec(s).1),
            pc: word_of(pop_spec(pop_spec(s).0).1, pop_spec(pop_spec(pop_spec(s).0).0).1),
            ..pop_spec(pop_spec(pop_spec(s).0).0).0
        },
        Op::Pha => push_spec(n, s.a),
        Op::Php => push_spec(n, s.stat | FLAG_BREAK | FLAG_UNUSED),
        Op::Pla => CpuView {
            a: pop_spec(n).1,
            stat: update_zn(s.stat, pop_spec(n).1),
            ..pop_spec(n).0
        },
        Op::Plp => CpuView { stat: pulled_status(pop_spec(n).1), ..pop_spec(n).0 },
        Op::Nop | Op::Brk => n,
    }
}

/// One instruction: fetch the opcode at `pc`, decode it and perform it.
/// The second component tells whether the instruction was Brk, which halts
/// the processor after moving past its opcode. A byte that names no
/// documented instruction is a one-byte no-op.
pub open spec fn step_spec(s: CpuView) -> (CpuView, bool) {
    let t = CpuView { pc: next_addr(s.pc), ..s };
    match decode(s.mem.read(s.pc)) {
        Some((Op::Brk, _)) => (t, true),
        Some((op, mode)) => (execute_spec(t, op, mode), false),
        None => (t, false),
    }
}

/// At most `fuel` instructions from `s`: the state reached, and whether
/// Brk was reached.
pub open spec fn run_spec(s: CpuView, fuel: nat) -> (CpuView, bool)
    decreases fuel,
{
    if fuel == 0 {
        (s, false)
    } else if step_spec(s).1 {
        step_spec(s)
    } else {
        run_spec(step_spec(s).0, (fuel - 1) as nat)
    }
}

/// `n` zero bytes.
pub open spec fn zeros(n: nat) -> Seq<u8> {
    Seq::new(n, |i: int| 0u8)
}

/// The 32 KiB program ROM that holds `program` at its start, zero after it.
pub open spec fn rom_image(program: Seq<u8>) -> Seq<u8> {
    program + zeros((2 * PRG_BANK_SIZE - program.len()) as nat)
}

/// The state in which a loaded program starts: registers as they were, RAM
/// cleared, the program mapped at `PROGRAM_START`.
pub open spec fn loaded(s: CpuView, program: Seq<u8>) -> CpuView {
    CpuView {
        pc: PROGRAM_START,
        mem: BusView { ram: zeros(RAM_SIZE as nat), prg: rom_image(program) },
        ..s
    }
}

#[verifier::rlimit(30)]
proof fn lemma_effect_tax(s: CpuView)
    ensures
        execute_spec(s, Op::Tax, Mode::Implied) == (CpuView { x: s.a, stat: update_zn(s.stat, s.a), ..s }),
{
    assert(advance(s, Mode::Implied) == s);
    reveal(execute_spec);
}

#[verifier::rlimit(30)]
proof fn lemma_effect_tay(s: CpuView)
    ensures
        execute_spec(s, Op::Tay, Mode::Implied) == (CpuView { y: s.a, stat: update_zn(s.stat, s.a), ..s }),
{
    assert(advance(s, Mode::Implied) == s);
    reveal(execute_spec);
}

#[verifier::rlimit(30)]
proof fn lemma_effect_txa(s: CpuView)
    ensures
        execute_spec(s, Op::Txa, Mode::Implied) == (CpuView { a: s.x, stat: update_zn(s.stat, s.x), ..s }),
{
    assert(advance(s, Mode::Implied) == s);
    reveal(execute_spec);
}

#[verifier::rlimit(30)]
proof fn lemma_effect_tya(s: CpuView)
    ensures
        execute_spec(s, Op::Tya, Mode::Implied) == (CpuView { a: s.y, stat: update_zn(s.stat, s.y), ..s }),
{
    assert(advance(s, Mode::Implied) == s);
    reveal(execute_spec);
}

#[verifier::rlimit(30)]
proof fn lemma_effect_tsx(s: CpuView)
    ensures
        execute_spec(s, Op::Tsx, Mode::Implied) == (CpuView { x: s.sp, stat: update_zn(s.stat, s.sp), ..s }),
{
    assert(advance(s, Mode::Implied) == s);
    reveal(execute_spec);
}

#[verifier::rlimit(30)]
proof fn lemma_effect_txs(s: CpuView)
    ensures
        execute_spec(s, Op::Txs, Mode::Implied) == (CpuView { sp: s.x, ..s }),
{
    assert(advance(s, Mode::Implied) == s);
    reveal(execute_spec);
}

#[verifier::rlimit(30)]
proof fn lemma_effect_inx(s: CpuView)
    ensures
        execute_spec(s, Op::Inx, Mode::Implied) == (CpuView { x: wrap8(s.x + 1), stat: update_zn(s.stat, wrap8(s.x + 1)), ..s }),
{
    assert(advance(s, Mode::Implied) == s);
    reveal(execute_spec);
}

#[verifier::rlimit(30)]
proof fn lemma_effect_iny(s: CpuView)
    ensures
        execute_spec(s, Op::Iny, Mode::Implied) == (CpuView { y: wrap8(s.y + 1), stat: update_zn(s.stat, wrap8(s.y + 1)), ..s }),
{
    assert(advance(s, Mode::Implied) == s);
    reveal(execute_spec);
}

#[verifier::rlimit(30)]
proof fn lemma_effect_dex(s: CpuView)
    ensures
        execute_spec(s, Op::Dex, Mode::Implied) == (CpuView { x: wrap8(s.x + 255), stat: update_zn(s.stat, wrap8(s.x + 255)), ..s }),
{
    assert(advance(s, Mode::Implied) == s);
    reveal(execute_spec);
}

#[verifier::rlimit(30)]
proof fn lemma_effect_dey(s: CpuView)
    ensures
        execute_spec(s, Op::Dey, Mode::Implied) == (CpuView { y: wrap8(s.y + 255), stat: update_zn(s.stat, wrap8(s.y + 255)), ..s }),
{
    assert(advance(s, Mode::Implied) == s);
    reveal(execute_spec);
}

/// Zero and Negative follow the byte `v` alone: Zero is set exactly when `v`
/// is 0, Negative exactly when bit 7 of `v` is set, and every other bit of
/// the status is kept.
pub proof fn lemma_update_zn(stat: u8, v: u8)
    ensures
        (update_zn(stat, v) & FLAG_ZERO != 0) == (v == 0),
        (update_zn(stat, v) & FLAG_NEGATIVE != 0) == (v & 0x80 != 0),
        update_zn(stat, v) & 0x7D == stat & 0x7D,
{
    assert(((if v >= 0x80 { (if v == 0 { stat | 2 } else { stat & !2u8 }) | 0x80 } else { (if v == 0 {
        stat | 2
    } else {
        stat & !2u8
    }) & !0x80u8 }) & 2 != 0) == (v == 0)) by (bit_vector);
    assert(((if v >= 0x80 { (if v == 0 { stat | 2 } else { stat & !2u8 }) | 0x80 } else { (if v == 0 {
        stat | 2
    } else {
        stat & !2u8
    }) & !0x80u8 }) & 0x80 != 0) == (v & 0x80 != 0)) by (bit_vector);
    assert((if v >= 0x80 { (if v == 0 { stat | 2 } else { stat & !2u8 }) | 0x80 } else { (if v == 0 {
        stat | 2
    } else {
        stat & !2u8
    }) & !0x80u8 }) & 0x7D == stat & 0x7D) by (bit_vector);
}

/// Loading the accumulator, whatever the state before: it holds the operand
/// byte, Zero is set exactly when that byte is 0, Negative exactly when its
/// bit 7 is set, and the other registers and status bits are kept.
pub proof fn lemma_load_accumulator(s: CpuView, mode: Mode)
    ensures
        ({
            let t = execute_spec(s, Op::Lda, mode);
            let v = s.mem.read(operand_address(s, mode));
            &&& t.a == v
            &&& (t.stat & FLAG_ZERO != 0) == (v == 0)
            &&& (t.stat & FLAG_NEGATIVE != 0) == (v & 0x80 != 0)
            &&& t.stat & 0x7D == s.stat & 0x7D
            &&& t.x == s.x && t.y == s.y && t.sp == s.sp && t.mem == s.mem
        }),
{
    reveal(execute_spec);
    lemma_update_zn(s.stat, s.mem.read(operand_address(s, mode)));
}

/// A register transfer copies the byte exactly and sets Zero and Negative
/// from the copied byte in the destination, whatever the flags were; the
/// other status bits and the other registers are kept. A transfer into the
/// stack pointer touches no flag.
pub proof fn lemma_transfer(s: CpuView, op: Op)
    requires
        op == Op::Tax || op == Op::Tay || op == Op::Txa || op == Op::Tya || op == Op::Tsx
            || op == Op::Txs,
    ensures
        ({
            let t = execute_spec(s, op, Mode::Implied);
            let v: u8 = match op {
                Op::Tax | Op::Tay => s.a,
                Op::Txa | Op::Txs => s.x,
                Op::Tya => s.y,
                _ => s.sp,
            };
            &&& t.a == (if op == Op::Txa || op == Op::Tya { v } else { s.a })
            &&& t.x == (if op == Op::Tax || op == Op::Tsx { v } else { s.x })
            &&& t.y == (if op == Op::Tay { v } else { s.y })
            &&& t.sp == (if op == Op::Txs { v } else { s.sp })
            &&& t.pc == s.pc && t.mem == s.mem
            &&& if op == Op::Txs {
                t.stat == s.stat
            } else {
                &&& (t.stat & FLAG_ZERO != 0) == (v == 0)
                &&& (t.stat & FLAG_NEGATIVE != 0) == (v & 0x80 != 0)
                &&& t.stat & 0x7D == s.stat & 0x7D
            }
        }),
{
    lemma_effect_tax(s);
    lemma_effect_tay(s);
    lemma_effect_txa(s);
    lemma_effect_tya(s);
    lemma_effect_tsx(s);
    lemma_effect_txs(s);
    lemma_update_zn(s.stat, s.a);
    lemma_update_zn(s.stat, s.x);
    lemma_update_zn(s.stat, s.y);
    lemma_update_zn(s.stat, s.sp);
}

/// Index increments and decrements wrap around a byte: incrementing `0xFF`
/// gives `0x00` and sets Zero, decrementing `0x00` gives `0xFF` and sets
/// Negative.
pub proof fn lemma_index_wrap(s: CpuView)
    ensures
        execute_spec(s, Op::Inx, Mode::Implied).x == (s.x + 1) % 256,
        execute_spec(s, Op::Iny, Mode::Implied).y == (s.y + 1) % 256,
        execute_spec(s, Op::Dex, Mode::Implied).x == (s.x + 255) % 256,
        execute_spec(s, Op::Dey, Mode::Implied).y == (s.y + 255) % 256,
        s.x == 0xFF ==> execute_spec(s, Op::Inx, Mode::Implied).x == 0
            && execute_spec(s, Op::Inx, Mode::Implied).stat & FLAG_ZERO != 0,
        s.y == 0xFF ==> execute_spec(s, Op::Iny, Mode::Implied).y == 0
            && execute_spec(s, Op::Iny, Mode::Implied).stat & FLAG_ZERO != 0,
        s.x == 0 ==> execute_spec(s, Op::Dex, Mode::Implied).x == 0xFF
            && execute_spec(s, Op::Dex, Mode::Implied).stat & FLAG_NEGATIVE != 0,
        s.y == 0 ==> execute_spec(s, Op::Dey, Mode::Implied).y == 0xFF
            && execute_spec(s, Op::Dey, Mode::Implied).stat & FLAG_NEGATIVE != 0,
{
    lemma_effect_inx(s);
    lemma_effect_iny(s);
    lemma_effect_dex(s);
    lemma_effect_dey(s);
    lemma_update_zn(s.stat, wrap8(s.x + 1));
    lemma_update_zn(s.stat, wrap8(s.y + 1));
    lemma_update_zn(s.stat, wrap8(s.x + 255));
    lemma_update_zn(s.stat, wrap8(s.y + 255));
    assert(0xFFu8 & 0x80 != 0) by (bit_vector);
}

/// Zero-page indexed addressing stays in the zero page: base plus index
/// wraps at 256 and never carries into page 1, so base `0xFF` with index
/// `0x02` is address `0x01`.
pub proof fn lemma_zero_page_wrap(s: CpuView)
    ensures
        operand_address(s, Mode::ZeroPageX) == (s.mem.read(s.pc) + s.x) % 256,
        operand_address(s, Mode::ZeroPageY) == (s.mem.read(s.pc) + s.y) % 256,
        operand_address(s, Mode::ZeroPageX) < 256,
        operand_address(s, Mode::ZeroPageY) < 256,
        s.mem.read(s.pc) == 0xFF && s.x == 0x02 ==> operand_address(s, Mode::ZeroPageX) == 0x01,
        s.mem.read(s.pc) == 0xFF && s.y == 0x02 ==> operand_address(s, Mode::ZeroPageY) == 0x01,
{
}

/// The processor: registers, status flags and the bus it owns.
pub struct Cpu {
    pub a: u8,
    pub x: u8,
    pub y: u8,
    pub sp: u8,
    pub pc: u16,
    pub stat: u8,
    pub bus: Bus,
}

impl View for Cpu {
    type V = CpuView;

    open spec fn view(&self) -> CpuView {
        CpuView {
            a: self.a,
            x: self.x,
            y: self.y,
            sp: self.sp,
            pc: self.pc,
            stat: self.stat,
            mem: self.bus@,
        }
    }
}

fn zero_page_plus(b: u8, i: u8) -> (r: u16)
    ensures
        r == wrap8(b + i) as u16,
{
    b.wrapping_add(i) as u16
}

fn word(lo: u8, hi: u8) -> (r: u16)
    ensures
        r == word_of(lo, hi),
{
    (hi as u16) * 256 + lo as u16
}

fn read_indirect_target(bus: &Bus, w: u16) -> (r: u16)
    requires
        bus@.wf(),
    ensures
        r == indirect_target(bus@, w),
{
    let hi_at = if w % 256 == 255 {
        w - 255
    } else {
        w + 1
    };
    word(bus.mem_read(w), bus.mem_read(hi_at))
}

fn read_indexed_indirect(bus: &Bus, b: u8, x: u8) -> (r: u16)
    requires
        bus@.wf(),
    ensures
        r == indexed_indirect(bus@, b, x),
{
    let p = b.wrapping_add(x);
    word(bus.mem_read(p as u16), bus.mem_read(p.wrapping_add(1) as u16))
}

fn read_indirect_indexed(bus: &Bus, b: u8, y: u8) -> (r: u16)
    requires
        bus@.wf(),
    ensures
        r == indirect_indexed(bus@, b, y),
{
    let base = word(bus.mem_read(b as u16), bus.mem_read(b.wrapping_add(1) as u16));
    base.wrapping_add(y as u16)
}

fn wrap_add16(a: u16, b: u16) -> (r: u16)
    ensures
        r == wrap16(a + b),
{
    ((a as u32 + b as u32) % 0x10000) as u16
}

fn inc8(v: u8) -> (r: u8)
    ensures
        r == wrap8(v + 1),
{
    ((v as u16 + 1) % 256) as u8
}

fn dec8(v: u8) -> (r: u8)
    ensures
        r == wrap8(v + 255),
{
    ((v as u16 + 255) % 256) as u8
}

/// Binary addition of `m` and the carry to `a`, with the status it leaves.
pub fn add_with_carry(stat: u8, a: u8, m: u8) -> (r: (u8, u8))
    ensures
        r == adc_spec(stat, a, m),
{
    let c: u16 = if stat & FLAG_CARRY != 0 {
        1
    } else {
        0
    };
    let sum: u16 = a as u16 + m as u16 + c;
    let v = (sum % 256) as u8;
    let overflow = ((a < 128) == (m < 128)) && ((v < 128) != (a < 128));
    let st = set_flag(set_flag(stat, FLAG_CARRY, sum > 255), FLAG_OVERFLOW, overflow);
    (v, set_zn(st, v))
}

/// The status after comparing `reg` with `m`.
pub fn compare(stat: u8, reg: u8, m: u8) -> (r: u8)
    ensures
        r == compare_spec(stat, reg, m),
{
    let diff = ((reg as u16 + 256 - m as u16) % 256) as u8;
    set_zn(set_flag(stat, FLAG_CARRY, reg >= m), diff)
}

/// Shifts or rotates `v` by one bit as `op` says (Asl, Lsr, Rol or Ror).
pub fn shift(op: Op, stat: u8, v: u8) -> (r: (u8, u8))
    ensures
        r == shift_spec(op, stat, v),
{
    let c: u16 = if stat & FLAG_CARRY != 0 {
        1
    } else {
        0
    };
    let w = v as u16;
    let r: u8 = match op {
        Op::Asl => (w * 2 % 256) as u8,
        Op::Lsr => (w / 2) as u8,
        Op::Rol => ((w * 2 + c) % 256) as u8,
        _ => (w / 2 + 128 * c) as u8,
    };
    let out = match op {
        Op::Asl | Op::Rol => v >= 128,
        _ => v % 2 == 1,
    };
    (r, set_zn(set_flag(stat, FLAG_CARRY, out), r))
}

/// The status after testing the bits of `m` against the accumulator.
pub fn bit_test(stat: u8, a: u8, m: u8) -> (r: u8)
    ensures
        r == bit_spec(stat, a, m),
{
    let s = set_flag(stat, FLAG_ZERO, a & m == 0);
    let s = set_flag(s, FLAG_OVERFLOW, m & 0x40 != 0);
    set_flag(s, FLAG_NEGATIVE, m >= 0x80)
}

/// Whether the conditional branch `op` is taken under `stat`.
pub fn is_branch_taken(op: Op, stat: u8) -> (r: bool)
    ensures
        r == branch_taken(op, stat),
{
    match op {
        Op::Bcc => stat & FLAG_CARRY == 0,
        Op::Bcs => stat & FLAG_CARRY != 0,
        Op::Bne => stat & FLAG_ZERO == 0,
        Op::Beq => stat & FLAG_ZERO != 0,
        Op::Bvc => stat & FLAG_OVERFLOW == 0,
        Op::Bvs => stat & FLAG_OVERFLOW != 0,
        Op::Bpl => stat & FLAG_NEGATIVE == 0,
        Op::Bmi => stat & FLAG_NEGATIVE != 0,
        _ => false,
    }
}

/// `pc` moved by the signed offset `offset`.
pub fn branch_destination(pc: u16, offset: u8) -> (r: u16)
    ensures
        r == branch_target(pc, offset),
{
    if offset < 128 {
        wrap_add16(pc, offset as u16)
    } else {
        wrap_add16(pc, offset as u16 + 0xFF00)
    }
}

fn pulled(v: u8) -> (r: u8)
    ensures
        r == pulled_status(v),
{
    (v & !FLAG_BREAK) | FLAG_UNUSED
}

/// `program` followed by zeros up to `len` bytes.
fn padded(program: Vec<u8>, len: usize) -> (r: Vec<u8>)
    requires
        program.len() <= len,
    ensures
        r@ == program@ + zeros((len - program.len()) as nat),
{
    let ghost p = program@;
    let mut r = program;
    while r.len() < len
        invariant
            p.len() <= r.len() <= len,
            r@ =~= p + zeros((r.len() - p.len()) as nat),
        decreases len - r.len(),
    {
        r.push(0);
        assert(r@ =~= p + zeros((r.len() - p.len()) as nat));
    }
    r
}

impl Cpu {
    /// Resolves `mode` for the operand bytes at `pc`.
    pub fn operand_address(&self, mode: Mode) -> (r: u16)
        requires
            self.bus@.wf(),
        ensures
            r == operand_address(self@, mode),
    {
        match mode {
            Mode::Immediate | Mode::Relative => self.pc,
            Mode::ZeroPage => self.bus.mem_read(self.pc) as u16,
            Mode::ZeroPageX => zero_page_plus(self.bus.mem_read(self.pc), self.x),
            Mode::ZeroPageY => zero_page_plus(self.bus.mem_read(self.pc), self.y),
            Mode::Absolute => self.bus.mem_read_u16(self.pc),
            Mode::AbsoluteX => self.bus.mem_read_u16(self.pc).wrapping_add(self.x as u16),
            Mode::AbsoluteY => self.bus.mem_read_u16(self.pc).wrapping_add(self.y as u16),
            Mode::Indirect => read_indirect_target(&self.bus, self.bus.mem_read_u16(self.pc)),
            Mode::IndirectX => read_indexed_indirect(&self.bus, self.bus.mem_read(self.pc), self.x),
            Mode::IndirectY => read_indirect_indexed(&self.bus, self.bus.mem_read(self.pc), self.y),
            _ => 0,
        }
    }

    fn push(&mut self, v: u8)
        requires
            old(self).bus@.wf(),
        ensures
            final(self)@ == push_spec(old(self)@, v),
            final(self).bus@.wf(),
    {
        self.bus.mem_write(STACK + self.sp as u16, v);
        self.sp = dec8(self.sp);
    }

    fn pop(&mut self) -> (r: u8)
        requires
            old(self).bus@.wf(),
        ensures
            (final(self)@, r) == pop_spec(old(self)@),
            final(self).bus@.wf(),
    {
        self.sp = inc8(self.sp);
        self.bus.mem_read(STACK + self.sp as u16)
    }

    /// Performs `op` in `mode` for an instruction whose operand bytes start
    /// at `pc`, leaving `pc` at the next instruction (or the jump target).
    pub fn execute(&mut self, op: Op, mode: Mode)
        requires
            old(self).bus@.wf(),
        ensures
            final(self)@ == execute_spec(old(self)@, op, mode),
            final(self).bus@.wf(),
    {
        reveal(execute_spec);
        let addr = self.operand_address(mode);
        let m = self.bus.mem_read(addr);
        let next = wrap_add16(self.pc, operand_bytes(mode));
        match op {
            Op::Lda => {
                self.a = m;
                self.stat = set_zn(self.stat, m);
                self.pc = next;
            },
            Op::Ldx => {
                self.x = m;
                self.stat = set_zn(self.stat, m);
                self.pc = next;
            },
            Op::Ldy => {
                self.y = m;
                self.stat = set_zn(self.stat, m);
                self.pc = next;
            },
            Op::Sta => {
                self.bus.mem_write(addr, self.a);
                self.pc = next;
            },
            Op::Stx => {
                self.bus.mem_write(addr, self.x);
                self.pc = next;
            },
            Op::Sty => {
                self.bus.mem_write(addr, self.y);
                self.pc = next;
            },
            Op::Tax => {
                self.x = self.a;
                self.stat = set_zn(self.stat, self.x);
                self.pc = next;
            },
            Op::Tay => {
                self.y = self.a;
                self.stat = set_zn(self.stat, self.y);
                self.pc = next;
            },
            Op::Txa => {
                self.a = self.x;
                self.stat = set_zn(self.stat, self.a);
                self.pc = next;
            },
            Op::Tya => {
                self.a = self.y;
                self.stat = set_zn(self.stat, self.a);
                self.pc = next;
            },
            Op::Tsx => {
                self.x = self.sp;
                self.stat = set_zn(self.stat, self.x);
                self.pc = next;
            },
            Op::Txs => {
                self.sp = self.x;
                self.pc = next;
            },
            Op::Inx => {
                self.x = inc8(self.x);
                self.stat = set_zn(self.stat, self.x);
                self.pc = next;
            },
            Op::Iny => {
                self.y = inc8(self.y);
                self.stat = set_zn(self.stat, self.y);
                self.pc = next;
            },
            Op::Dex => {
                self.x = dec8(self.x);
                self.stat = set_zn(self.stat, self.x);
                self.pc = next;
            },
            Op::Dey => {
                self.y = dec8(self.y);
                self.stat = set_zn(self.stat, self.y);
                self.pc = next;
            },
            Op::Inc => {
                let v = inc8(m);
                self.bus.mem_write(addr, v);
                self.stat = set_zn(self.stat, v);
                self.pc = next;
            },
            Op::Dec => {
                let v = dec8(m);
                self.bus.mem_write(addr, v);
                self.stat = set_zn(self.stat, v);
                self.pc = next;
            },
            Op::And => {
                self.a = self.a & m;
                self.stat = set_zn(self.stat, self.a);
                self.pc = next;
            },
            Op::Ora => {
                self.a = self.a | m;
                self.stat = set_zn(self.stat, self.a);
                self.pc = next;
            },
            Op::Eor => {
                self.a = self.a ^ m;
                self.stat = set_zn(self.stat, self.a);
                self.pc = next;
            },
            Op::Adc => {
                let (r, st) = add_with_carry(self.stat, self.a, m);
                self.a = r;
                self.stat = st;
                self.pc = next;
            },
            Op::Sbc => {
                let (r, st) = add_with_carry(self.stat, self.a, 255 - m);
                self.a = r;
                self.stat = st;
                self.pc = next;
            },
            Op::Cmp => {
                self.stat = compare(self.stat, self.a, m);
                self.pc = next;
            },
            Op::Cpx => {
                self.stat = compare(self.stat, self.x, m);
                self.pc = next;
            },
            Op::Cpy => {
                self.stat = compare(self.stat, self.y, m);
                self.pc = next;
            },
            Op::Asl | Op::Lsr | Op::Rol | Op::Ror => {
                if mode == Mode::Accumulator {
                    let (r, st) = shift(op, self.stat, self.a);
                    self.a = r;
                    self.stat = st;
                } else {
                    let (r, st) = shift(op, self.stat, m);
                    self.bus.mem_write(addr, r);
                    self.stat = st;
                }
                self.pc = next;
            },
            Op::Bit => {
                self.stat = bit_test(self.stat, self.a, m);
                self.pc = next;
            },
            Op::Clc => {
                self.stat = set_flag(self.stat, FLAG_CARRY, false);
                self.pc = next;
            },
            Op::Sec => {
                self.stat = set_flag(self.stat, FLAG_CARRY, true);
                self.pc = next;
            },
            Op::Cli => {
                self.stat = set_flag(self.stat, FLAG_INTERRUPT, false);
                self.pc = next;
            },
            Op::Sei => {
                self.stat = set_flag(self.stat, FLAG_INTERRUPT, true);
                self.pc = next;
            },
            Op::Cld => {
                self.stat = set_flag(self.stat, FLAG_DECIMAL, false);
                self.pc = next;
            },
            Op::Sed => {
                self.stat = set_flag(self.stat, FLAG_DECIMAL, true);
                self.pc = next;
            },
            Op::Clv => {
                self.stat = set_flag(self.stat, FLAG_OVERFLOW, false);
                self.pc = next;
            },
            Op::Bcc | Op::Bcs | Op::Beq | Op::Bne | Op::Bmi | Op::Bpl | Op::Bvc | Op::Bvs => {
                self.pc = if is_branch_taken(op, self.stat) {
                    branch_destination(next, m)
                } else {
                    next
                };
            },
            Op::Jmp => {
                self.pc = addr;
            },
            Op::Jsr => {
                let ret = wrap_add16(self.pc, 1);
                self.push((ret / 256) as u8);
                self.push((ret % 256) as u8);
                self.pc = addr;
            },
            Op::Rts => {
                let lo = self.pop();
                let hi = self.pop();
                self.pc = wrap_add16(word(lo, hi), 1);
            },
            Op::Rti => {
                let st = self.pop();
                let lo = self.pop();
                let hi = self.pop();
                self.stat = pulled(st);
                self.pc = word(lo, hi);
            },
            Op::Pha => {
                self.pc = next;
                self.push(self.a);
            },
            Op::Php => {
                self.pc = next;
                self.push(self.stat | FLAG_BREAK | FLAG_UNUSED);
            },
            Op::Pla => {
                self.pc = next;
                let v = self.pop();
                self.a = v;
                self.stat = set_zn(self.stat, v);
            },
            Op::Plp => {
                self.pc = next;
                let v = self.pop();
                self.stat = pulled(v);
            },
            Op::Nop | Op::Brk => {
                self.pc = next;
            },
        }
    }
}

impl Cpu {
    /// A processor in its reset state: registers zeroed, status at
    /// `STATUS_RESET`, RAM cleared and an empty (all-zero) 32 KiB program ROM.
    pub fn new() -> (r: Cpu)
        ensures
            r@ == (CpuView {
                a: 0,
                x: 0,
                y: 0,
                sp: 0,
                pc: 0,
                stat: STATUS_RESET,
                mem: BusView { ram: zeros(RAM_SIZE as nat), prg: zeros(2 * PRG_BANK_SIZE as nat) },
            }),
            r.bus@.wf(),
    {
        let rom = padded(Vec::new(), 2 * PRG_BANK_SIZE);
        assert(rom@ =~= zeros(2 * PRG_BANK_SIZE as nat));
        let bus = Bus::new(rom);
        Cpu { a: 0, x: 0, y: 0, sp: 0, pc: 0, stat: STATUS_RESET, bus }
    }

    /// Maps `program` into the program ROM at `PROGRAM_START` (zero after
    /// it), clears RAM and points `pc` at the program. Other registers keep
    /// their values.
    pub fn load(&mut self, program: Vec<u8>)
        requires
            program.len() <= 2 * PRG_BANK_SIZE,
        ensures
            final(self)@ == loaded(old(self)@, program@),
            final(self).bus@.wf(),
    {
        let len = program.len();
        let rom = padded(program, 2 * PRG_BANK_SIZE);
        self.bus = Bus::new(rom);
        self.pc = PROGRAM_START;
        assert(self@.mem.ram =~= zeros(RAM_SIZE as nat));
    }

    /// Fetches, decodes and performs one instruction; returns whether it was
    /// Brk, which halts the processor.
    pub fn step(&mut self) -> (halted: bool)
        requires
            old(self).bus@.wf(),
        ensures
            (final(self)@, halted) == step_spec(old(self)@),
            final(self).bus@.wf(),
    {
        let opcode = self.bus.mem_read(self.pc);
        self.pc = self.pc.wrapping_add(1);
        match decode_opcode(opcode) {
            Some((Op::Brk, _)) => true,
            Some((op, mode)) => {
                self.execute(op, mode);
                false
            },
            None => false,
        }
    }

    /// Runs until Brk or until `max_steps` instructions have been performed;
    /// returns whether Brk was reached.
    pub fn run(&mut self, max_steps: u64) -> (halted: bool)
        requires
            old(self).bus@.wf(),
        ensures
            (final(self)@, halted) == run_spec(old(self)@, max_steps as nat),
            final(self).bus@.wf(),
    {
        let ghost start = self@;
        let mut remaining = max_steps;
        let mut halted = false;
        while remaining > 0 && !halted
            invariant
                self.bus@.wf(),
                run_spec(start, max_steps as nat) == if halted {
                    (self@, true)
                } else {
                    run_spec(self@, remaining as nat)
                },
            decreases remaining,
        {
            let ghost before = self@;
            halted = self.step();
            assert(run_spec(before, remaining as nat) == if halted {
                (self@, true)
            } else {
                run_spec(self@, (remaining - 1) as nat)
            });
            remaining = remaining - 1;
        }
        halted
    }

    /// Starts execution at `entry` and runs as `run` does.
    pub fn run_from(&mut self, entry: u16, max_steps: u64) -> (halted: bool)
        requires
            old(self).bus@.wf(),
        ensures
            (final(self)@, halted) == run_spec(CpuView { pc: entry, ..old(self)@ }, max_steps as nat),
            final(self).bus@.wf(),
    {
        self.pc = entry;
        self.run(max_steps)
    }

    /// Loads `program` and runs it from `PROGRAM_START` until Brk, for at
    /// most `u64::MAX` instructions; returns whether Brk was reached.
    pub fn interpret(&mut self, program: Vec<u8>) -> (halted: bool)
        requires
            program.len() <= 2 * PRG_BANK_SIZE,
        ensures
            (final(self)@, halted) == run_spec(loaded(old(self)@, program@), u64::MAX as nat),
    {
        self.load(program);
        self.run(u64::MAX)
    }
}

} // verus!
