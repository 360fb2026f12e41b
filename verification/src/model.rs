//! Mathematical model of the machine and of one execution step.
//!
//! [`CpuModel`] is the ghost view of a CPU: the eight single-byte registers,
//! the 16-bit program counter and stack pointer, the 64KB memory as a
//! sequence, and the execution mode.  [`step_spec`] gives the meaning of one
//! fetch-decode-execute-advance cycle over that model; the executable
//! dispatcher is proved to match it exactly.

use crate::alu;
use crate::mmu::zero_memory;
use crate::mmu::MEMORY_SIZE;
use crate::tables;
use crate::Failure;
use vstd::prelude::*;

verus! {

/// Execution mode of the CPU.  Specific opcodes move the CPU from `Running`
/// to `Halted` or `Stopped`; while suspended, a step changes nothing.
/// Waking the CPU again is an outside collaborator's responsibility (the
/// interrupt or input controller), so no transition back is defined here.
#[derive(Clone, Copy, Debug, PartialEq, Eq, Structural)]
pub enum ExecState {
    Running,
    Halted,
    Stopped,
}

/// The ghost state of one whole machine: register file, program counter,
/// stack pointer, memory contents and execution mode.
#[verifier::ext_equal]
pub ghost struct CpuModel {
    pub a: u8,
    pub f: u8,
    pub b: u8,
    pub c: u8,
    pub d: u8,
    pub e: u8,
    pub h: u8,
    pub l: u8,
    pub sp: u16,
    pub pc: u16,
    pub mem: Seq<u8>,
    pub mode: ExecState,
}

/// The 16-bit value formed from a high and a low register byte.
pub open spec fn pair16(hi: u8, lo: u8) -> u16 {
    ((hi as int) * 256 + (lo as int)) as u16
}

/// High byte of a 16-bit value.
pub open spec fn high_byte(v: u16) -> u8 {
    (v / 256) as u8
}

/// Low byte of a 16-bit value.
pub open spec fn low_byte(v: u16) -> u8 {
    (v % 256) as u8
}

/// A 16-bit value with its two bytes exchanged: the endianness conversion
/// applied to absolute-address operands.
pub open spec fn swap_bytes(v: u16) -> u16 {
    ((v % 256) * 256 + v / 256) as u16
}

/// A flags byte with its low four bits forced to zero.
pub open spec fn mask_flags(x: u8) -> u8 {
    (x / 16 * 16) as u8
}

/// 16-bit increment, wrapping from 0xFFFF to 0x0000.
pub open spec fn wrap_inc16(v: u16) -> u16 {
    if v == 0xFFFF {
        0
    } else {
        (v + 1) as u16
    }
}

/// 16-bit decrement, wrapping from 0x0000 to 0xFFFF.
pub open spec fn wrap_dec16(v: u16) -> u16 {
    if v == 0 {
        0xFFFF
    } else {
        (v - 1) as u16
    }
}

/// The program counter advanced by `k` bytes, wrapping within the 64KB
/// address space.
pub open spec fn wrap_add16(pc: u16, k: int) -> u16
    recommends
        k >= 0,
{
    ((pc + k) % 0x10000) as u16
}

/// The 16-bit word read big-endian-from-stream at `addr`: the earlier byte
/// is the high byte.
pub open spec fn word_at(mem: Seq<u8>, addr: int) -> u16
    recommends
        0 <= addr,
        addr + 1 < mem.len(),
{
    ((mem[addr] as int) * 256 + (mem[addr + 1] as int)) as u16
}

/// The one-byte immediate of the instruction at the model's program counter.
pub open spec fn imm8(m: CpuModel) -> u8 {
    m.mem[m.pc as int + 1]
}

/// The two-byte immediate of the instruction at the model's program counter.
pub open spec fn imm16(m: CpuModel) -> u16 {
    word_at(m.mem, m.pc as int + 1)
}

impl CpuModel {
    /// Well-formed machine state: exactly 64KB of memory, and the low four
    /// bits of the flags register zero.
    pub open spec fn wf(self) -> bool {
        &&& self.mem.len() == MEMORY_SIZE
        &&& alu::flags_wf(self.f)
    }

    /// The AF register pair.
    pub open spec fn af(self) -> u16 {
        pair16(self.a, self.f)
    }

    /// The BC register pair.
    pub open spec fn bc(self) -> u16 {
        pair16(self.b, self.c)
    }

    /// The DE register pair.
    pub open spec fn de(self) -> u16 {
        pair16(self.d, self.e)
    }

    /// The HL register pair.
    pub open spec fn hl(self) -> u16 {
        pair16(self.h, self.l)
    }

    /// This state with the AF pair set to `v`; the low four bits of the
    /// flags half always read zero, so they are dropped on the way in.
    pub open spec fn with_af(self, v: u16) -> CpuModel {
        CpuModel { a: high_byte(v), f: mask_flags(low_byte(v)), ..self }
    }

    /// This state with the BC pair set to `v`.
    pub open spec fn with_bc(self, v: u16) -> CpuModel {
        CpuModel { b: high_byte(v), c: low_byte(v), ..self }
    }

    /// This state with the DE pair set to `v`.
    pub open spec fn with_de(self, v: u16) -> CpuModel {
        CpuModel { d: high_byte(v), e: low_byte(v), ..self }
    }

    /// This state with the HL pair set to `v`.
    pub open spec fn with_hl(self, v: u16) -> CpuModel {
        CpuModel { h: high_byte(v), l: low_byte(v), ..self }
    }
}

/// The machine state at power-on: every register, the program counter, the
/// stack pointer and all of memory zero, and the CPU running.
pub open spec fn init_model() -> CpuModel {
    CpuModel {
        a: 0,
        f: 0,
        b: 0,
        c: 0,
        d: 0,
        e: 0,
        h: 0,
        l: 0,
        sp: 0,
        pc: 0,
        mem: zero_memory(),
        mode: ExecState::Running,
    }
}

/// The 8-bit operand location selected by a three-bit index: B, C, D, E, H,
/// L, the memory byte addressed by HL, A — in that order.
pub open spec fn reg8_read(m: CpuModel, idx: u8) -> u8
    recommends
        idx < 8,
{
    if idx == 0 {
        m.b
    } else if idx == 1 {
        m.c
    } else if idx == 2 {
        m.d
    } else if idx == 3 {
        m.e
    } else if idx == 4 {
        m.h
    } else if idx == 5 {
        m.l
    } else if idx == 6 {
        m.mem[m.hl() as int]
    } else {
        m.a
    }
}

/// The state after writing `v` to the operand location selected by `idx`,
/// with the same location order as [`reg8_read`].
pub open spec fn reg8_write(m: CpuModel, idx: u8, v: u8) -> CpuModel
    recommends
        idx < 8,
{
    if idx == 0 {
        CpuModel { b: v, ..m }
    } else if idx == 1 {
        CpuModel { c: v, ..m }
    } else if idx == 2 {
        CpuModel { d: v, ..m }
    } else if idx == 3 {
        CpuModel { e: v, ..m }
    } else if idx == 4 {
        CpuModel { h: v, ..m }
    } else if idx == 5 {
        CpuModel { l: v, ..m }
    } else if idx == 6 {
        CpuModel { mem: m.mem.update(m.hl() as int, v), ..m }
    } else {
        CpuModel { a: v, ..m }
    }
}

/// The effect of an extended-space sub-opcode on registers, flags and
/// memory.  The sub-opcode decodes systematically: bits 0-2 select the
/// operand location, bits 3-5 the row (rotate/shift kind, or bit position),
/// bits 6-7 the group — rotate/shift, bit test, bit reset, bit set.  The
/// program counter is not touched here; the dispatcher advances it.
pub open spec fn cb_action(m: CpuModel, sub: u8) -> CpuModel
    recommends
        tables::cb_implemented(sub),
{
    let idx = sub % 8;
    let row = (sub / 8) % 8;
    let v = reg8_read(m, idx);
    if sub < 0x40 {
        let rf = if row == 0 {
            alu::rotate_left_carry_spec(v)
        } else if row == 1 {
            alu::rotate_right_carry_spec(v)
        } else if row == 4 {
            alu::shift_left_spec(v)
        } else if row == 5 {
            alu::shift_right_arithmetic_spec(v)
        } else if row == 6 {
            alu::swap_spec(v)
        } else {
            alu::shift_right_logical_spec(v)
        };
        CpuModel { f: rf.1, ..reg8_write(m, idx, rf.0) }
    } else if sub < 0x80 {
        CpuModel { f: alu::test_bit_spec(v, row, m.f), ..m }
    } else if sub < 0xC0 {
        reg8_write(m, idx, alu::reset_bit_spec(v, row))
    } else {
        reg8_write(m, idx, alu::set_bit_spec(v, row))
    }
}

/// The explicit jump opcodes: one unconditional and four conditional
/// absolute jumps.
pub open spec fn is_jump(op: u8) -> bool {
    op == 0xC2 || op == 0xC3 || op == 0xCA || op == 0xD2 || op == 0xDA
}

/// Whether a jump opcode transfers control in state `m`: unconditionally,
/// or on the Zero or Carry flag being clear or set.
pub open spec fn jump_taken(m: CpuModel, op: u8) -> bool
    recommends
        is_jump(op),
{
    ||| op == 0xC3
    ||| op == 0xC2 && !alu::zero_flag(m.f)
    ||| op == 0xCA && alu::zero_flag(m.f)
    ||| op == 0xD2 && !alu::carry_flag(m.f)
    ||| op == 0xDA && alu::carry_flag(m.f)
}

/// The effect of a base-space opcode (jumps excepted) on registers, flags,
/// memory and execution mode, given the prefetched immediates `n` and `nn`.
/// The program counter is not touched here; the dispatcher advances it.
pub open spec fn base_action(m: CpuModel, op: u8, n: u8, nn: u16) -> CpuModel
    recommends
        tables::base_implemented(op),
        !is_jump(op),
{
    if op == 0x00 {
        m
    } else if op == 0x02 {
        CpuModel { mem: m.mem.update(m.bc() as int, m.a), ..m }
    } else if op == 0x03 {
        m.with_bc(wrap_inc16(m.bc()))
    } else if op == 0x0A {
        CpuModel { a: m.mem[m.bc() as int], ..m }
    } else if op == 0x0B {
        m.with_bc(wrap_dec16(m.bc()))
    } else if op == 0x10 {
        CpuModel { mode: ExecState::Stopped, ..m }
    } else if op == 0x12 {
        CpuModel { mem: m.mem.update(m.de() as int, m.a), ..m }
    } else if op == 0x13 {
        m.with_de(wrap_inc16(m.de()))
    } else if op == 0x1A {
        CpuModel { a: m.mem[m.de() as int], ..m }
    } else if op == 0x1B {
        m.with_de(wrap_dec16(m.de()))
    } else if op == 0x21 {
        m.with_hl(nn)
    } else if op == 0x23 {
        m.with_hl(wrap_inc16(m.hl()))
    } else if op == 0x2B {
        m.with_hl(wrap_dec16(m.hl()))
    } else if op == 0x2F {
        let rf = alu::complement_spec(m.a, m.f);
        CpuModel { a: rf.0, f: rf.1, ..m }
    } else if op == 0x31 {
        CpuModel { sp: nn, ..m }
    } else if op == 0x32 {
        CpuModel { mem: m.mem.update(m.hl() as int, n), ..m }
    } else if op == 0x33 {
        CpuModel { sp: wrap_inc16(m.sp), ..m }
    } else if op == 0x3B {
        CpuModel { sp: wrap_dec16(m.sp), ..m }
    } else if op == 0x3E {
        CpuModel { a: n, ..m }
    } else if op == 0x76 {
        CpuModel { mode: ExecState::Halted, ..m }
    } else if 0x40 <= op && op < 0x80 {
        reg8_write(m, ((op - 0x40) / 8) as u8, reg8_read(m, op % 8))
    } else if op == 0xAF {
        let rf = alu::xor_spec(m.a, m.a);
        CpuModel { a: rf.0, f: rf.1, ..m }
    } else if op == 0xEA {
        CpuModel { mem: m.mem.update(swap_bytes(nn) as int, m.a), ..m }
    } else if op == 0xFA {
        CpuModel { a: m.mem[swap_bytes(nn) as int], ..m }
    } else {
        m
    }
}

/// One decode-execute invocation of a running CPU: reads the opcode at the
/// program counter, resolves the extended space behind the prefix byte,
/// fails on a missing table entry or an immediate reaching past the top of
/// memory, performs the action, and advances the program counter by the
/// table length — except that a taken jump sets it to the literal target.
pub open spec fn dispatch_spec(m: CpuModel) -> Result<CpuModel, Failure>
    recommends
        m.wf(),
        m.mode is Running,
{
    let op = m.mem[m.pc as int];
    if op == 0xCB {
        if m.pc as int + 1 >= MEMORY_SIZE {
            Err(Failure::OutOfRangeAddress { address: (m.pc + 1) as usize })
        } else {
            let sub = m.mem[m.pc as int + 1];
            if tables::cb_implemented(sub) {
                Ok(CpuModel { pc: wrap_add16(m.pc, 2), ..cb_action(m, sub) })
            } else {
                Err(Failure::UnimplementedOpcode { opcode: sub, address: m.pc })
            }
        }
    } else {
        match tables::base_size(op) {
            None => Err(Failure::UnimplementedOpcode { opcode: op, address: m.pc }),
            Some(len) => {
                if len >= 2 && m.pc as int + 1 >= MEMORY_SIZE {
                    Err(Failure::OutOfRangeAddress { address: (m.pc + 1) as usize })
                } else if len >= 3 && m.pc as int + 2 >= MEMORY_SIZE {
                    Err(Failure::OutOfRangeAddress { address: (m.pc + 2) as usize })
                } else {
                    let n = if len >= 2 {
                        imm8(m)
                    } else {
                        0u8
                    };
                    let nn = if len >= 3 {
                        imm16(m)
                    } else {
                        0u16
                    };
                    if is_jump(op) {
                        if jump_taken(m, op) {
                            Ok(CpuModel { pc: nn, ..m })
                        } else {
                            Ok(CpuModel { pc: wrap_add16(m.pc, 3), ..m })
                        }
                    } else {
                        Ok(
                            CpuModel {
                                pc: wrap_add16(m.pc, len as int),
                                ..base_action(m, op, n, nn)
                            },
                        )
                    }
                }
            },
        }
    }
}

/// One invocation of the execution driver: a running CPU dispatches one
/// instruction; a halted or stopped CPU changes nothing until an outside
/// collaborator wakes it.
pub open spec fn step_spec(m: CpuModel) -> Result<CpuModel, Failure>
    recommends
        m.wf(),
{
    if m.mode is Running {
        dispatch_spec(m)
    } else {
        Ok(m)
    }
}

/// Writing an operand location touches at most one register or one memory
/// byte: flags, program counter, stack pointer, execution mode and the
/// memory size are always left as they were.
pub proof fn lemma_reg8_write_frame(m: CpuModel)
    requires
        m.mem.len() == MEMORY_SIZE,
    ensures
        forall|idx: u8, v: u8|
            {
                let w = #[trigger] reg8_write(m, idx, v);
                &&& w.f == m.f
                &&& w.pc == m.pc
                &&& w.sp == m.sp
                &&& w.mode == m.mode
                &&& w.mem.len() == m.mem.len()
            },
{
    assert forall|idx: u8, v: u8|
        {
            let w = #[trigger] reg8_write(m, idx, v);
            &&& w.f == m.f
            &&& w.pc == m.pc
            &&& w.sp == m.sp
            &&& w.mode == m.mode
            &&& w.mem.len() == m.mem.len()
        } by {
        let w = reg8_write(m, idx, v);
        assert(w.mem.len() == m.mem.len());
    }
}

/// An extended-space action preserves well-formedness and never touches the
/// program counter, the stack pointer or the execution mode.
pub proof fn lemma_cb_action_wf(m: CpuModel, sub: u8)
    requires
        m.wf(),
    ensures
        cb_action(m, sub).wf(),
        cb_action(m, sub).pc == m.pc,
        cb_action(m, sub).sp == m.sp,
        cb_action(m, sub).mode == m.mode,
{
    alu::lemma_flags_of_wf_all();
    lemma_reg8_write_frame(m);
}

/// A base-space action preserves well-formedness and never touches the
/// program counter: advancing it is the dispatcher's job alone.
pub proof fn lemma_base_action_wf(m: CpuModel, op: u8, n: u8, nn: u16)
    requires
        m.wf(),
    ensures
        base_action(m, op, n, nn).wf(),
        base_action(m, op, n, nn).pc == m.pc,
{
    alu::lemma_flags_of_wf_all();
    lemma_reg8_write_frame(m);
}

/// One step of a well-formed machine yields a well-formed machine: memory
/// stays 64KB and the low four bits of the flags register stay zero.
pub proof fn lemma_step_preserves_wf(m: CpuModel)
    requires
        m.wf(),
        step_spec(m) is Ok,
    ensures
        (step_spec(m)->Ok_0).wf(),
{
    if m.mode is Running {
        let op = m.mem[m.pc as int];
        if op == 0xCB {
            if m.pc as int + 1 < MEMORY_SIZE {
                let sub = m.mem[m.pc as int + 1];
                if tables::cb_implemented(sub) {
                    lemma_cb_action_wf(m, sub);
                }
            }
        } else {
            if tables::base_size(op) is Some && !is_jump(op) {
                let len = tables::base_size(op)->Some_0;
                let n = if len >= 2 {
                    imm8(m)
                } else {
                    0u8
                };
                let nn = if len >= 3 {
                    imm16(m)
                } else {
                    0u16
                };
                lemma_base_action_wf(m, op, n, nn);
            }
        }
    }
}

/// A step that succeeds consumes exactly the instruction's table length:
/// the program counter advances by that length (wrapping within 64KB) —
/// except for jump opcodes, whose post-step program counter equals the
/// literal jump target when taken, never target plus length.
pub proof fn lemma_step_consumes_length(m: CpuModel)
    requires
        m.wf(),
        m.mode is Running,
        step_spec(m) is Ok,
    ensures
        ({
            let m2 = step_spec(m)->Ok_0;
            let op = m.mem[m.pc as int];
            &&& op == 0xCB ==> m2.pc == wrap_add16(m.pc, 2)
            &&& op != 0xCB && !is_jump(op) ==> m2.pc == wrap_add16(
                m.pc,
                tables::base_size(op)->Some_0 as int,
            )
            &&& is_jump(op) && jump_taken(m, op) ==> m2.pc == imm16(m)
            &&& is_jump(op) && !jump_taken(m, op) ==> m2.pc == wrap_add16(m.pc, 3)
        }),
{
    let op = m.mem[m.pc as int];
    if op == 0xCB {
        let sub = m.mem[m.pc as int + 1];
        if m.pc as int + 1 < MEMORY_SIZE && tables::cb_implemented(sub) {
            lemma_cb_action_wf(m, sub);
        }
    } else if tables::base_size(op) is Some && !is_jump(op) {
        let len = tables::base_size(op)->Some_0;
        let n = if len >= 2 {
            imm8(m)
        } else {
            0u8
        };
        let nn = if len >= 3 {
            imm16(m)
        } else {
            0u16
        };
        lemma_base_action_wf(m, op, n, nn);
    }
}

/// An extended-space instruction always consumes exactly two bytes — the
/// prefix byte and the sub-opcode — whatever the sub-opcode is.
pub proof fn lemma_extended_consumes_two_bytes(m: CpuModel)
    requires
        m.wf(),
        m.mode is Running,
        m.mem[m.pc as int] == 0xCB,
        step_spec(m) is Ok,
    ensures
        (step_spec(m)->Ok_0).pc == wrap_add16(m.pc, 2),
{
    lemma_step_consumes_length(m);
}

/// The bit-set and bit-reset rows of the extended space never modify the
/// flags register; only the bit-test row touches flags.
pub proof fn lemma_set_reset_bit_preserve_flags(m: CpuModel, sub: u8)
    requires
        0x80 <= sub,
    ensures
        cb_action(m, sub).f == m.f,
{
}

/// The bit-test row of the extended space sets the Zero flag exactly when
/// the tested bit of the selected operand is zero, and changes nothing but
/// the flags register.
pub proof fn lemma_test_bit_sets_zero(m: CpuModel, sub: u8)
    requires
        0x40 <= sub < 0x80,
    ensures
        alu::zero_flag(cb_action(m, sub).f) == !alu::bit_set(
            reg8_read(m, sub % 8),
            (sub / 8) % 8,
        ),
        cb_action(m, sub).mem == m.mem,
        cb_action(m, sub).a == m.a,
{
    alu::lemma_flags_of_parts(
        !alu::bit_set(reg8_read(m, sub % 8), (sub / 8) % 8),
        false,
        true,
        alu::carry_flag(m.f),
    );
}

/// The 16-bit pair increment and decrement wrap at the 0xFFFF / 0x0000
/// boundary.
pub proof fn lemma_wrap16_boundary()
    ensures
        wrap_inc16(0xFFFF) == 0,
        wrap_dec16(0) == 0xFFFF,
        forall|v: u16| v < 0xFFFF ==> #[trigger] wrap_inc16(v) == v + 1,
        forall|v: u16| v > 0 ==> #[trigger] wrap_dec16(v) == v - 1,
{
}

} // verus!
