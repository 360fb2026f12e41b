//! Register file, decode-execute dispatcher and execution driver.
//!
//! [`CPU`] owns the register file and the memory bus.  One call to
//! [`CPU::cycle`] performs exactly one fetch-decode-execute-advance step and
//! is proved to implement [`step_spec`] over the machine's ghost view: the
//! host populates memory, then invokes `cycle` repeatedly; nothing else
//! advances the machine.

use crate::alu;
use crate::mmu::MMU;
use crate::model::{
    base_action, cb_action, dispatch_spec, high_byte, init_model, is_jump, lemma_base_action_wf,
    lemma_cb_action_wf, lemma_reg8_write_frame, low_byte, reg8_read, reg8_write, step_spec,
    swap_bytes, word_at, wrap_add16, wrap_dec16, wrap_inc16, CpuModel, ExecState,
};
use crate::tables;
use crate::Failure;
use vstd::prelude::*;

verus! {

/// Writes a 16-bit value into a pair of 8-bit registers: the high byte into
/// the first register, the low byte into the second.
pub fn ld_word(r1: &mut u8, r2: &mut u8, nn: u16)
    ensures
        *final(r1) == high_byte(nn),
        *final(r2) == low_byte(nn),
{
    *r1 = (nn / 256) as u8;
    *r2 = (nn % 256) as u8;
}

/// 16-bit increment that wraps from 0xFFFF to 0x0000.
pub fn wrap_inc(v: u16) -> (r: u16)
    ensures
        r == wrap_inc16(v),
{
    if v == 0xFFFF {
        0
    } else {
        v + 1
    }
}

/// 16-bit decrement that wraps from 0x0000 to 0xFFFF.
pub fn wrap_dec(v: u16) -> (r: u16)
    ensures
        r == wrap_dec16(v),
{
    if v == 0 {
        0xFFFF
    } else {
        v - 1
    }
}

/// Advances a program counter by a small byte count, wrapping within the
/// 64KB address space.
pub fn pc_add(pc: u16, k: u8) -> (r: u16)
    ensures
        r == wrap_add16(pc, k as int),
{
    ((pc as u32 + k as u32) % 0x10000) as u16
}

/// The central processing unit: eight single-byte registers (the flags
/// register keeps its low four bits zero), a 16-bit stack pointer and
/// program counter, the memory bus it exclusively owns, and its execution
/// mode.
pub struct CPU {
    pub a: u8,
    pub f: u8,
    pub b: u8,
    pub c: u8,
    pub d: u8,
    pub e: u8,
    pub h: u8,
    pub l: u8,
    pub mmu_ref: MMU,
    pub sp: u16,
    pub pc: u16,
    pub state: ExecState,
}

impl View for CPU {
    type V = CpuModel;

    open spec fn view(&self) -> CpuModel {
        CpuModel {
            a: self.a,
            f: self.f,
            b: self.b,
            c: self.c,
            d: self.d,
            e: self.e,
            h: self.h,
            l: self.l,
            sp: self.sp,
            pc: self.pc,
            mem: self.mmu_ref@,
            mode: self.state,
        }
    }
}

impl CPU {
    /// A well-formed CPU: its model is well-formed.
    pub open spec fn wf(&self) -> bool {
        self@.wf()
    }

    /// Creates the power-on machine: all registers, the program counter,
    /// the stack pointer and all of memory zero, running.
    pub fn new() -> (r: CPU)
        ensures
            r@ == init_model(),
            r.wf(),
    {
        let r = CPU {
            a: 0,
            f: 0,
            b: 0,
            c: 0,
            d: 0,
            e: 0,
            h: 0,
            l: 0,
            mmu_ref: MMU::new(),
            sp: 0,
            pc: 0,
            state: ExecState::Running,
        };
        r
    }

    /// The accumulator register.
    pub fn get_a(&self) -> (r: u8)
        ensures
            r == self@.a,
    {
        self.a
    }

    /// Exchanges the two bytes of a word: the endianness conversion applied
    /// to 16-bit immediates used as absolute addresses.
    pub fn l_e_word_conversion(&self, nn: u16) -> (r: u16)
        ensures
            r == swap_bytes(nn),
    {
        (nn % 256) * 256 + nn / 256
    }

    /// The AF register pair, `(A << 8) | F`.
    pub fn get_af(&self) -> (r: u16)
        ensures
            r == self@.af(),
    {
        (self.a as u16) * 256 + (self.f as u16)
    }

    /// The BC register pair, `(B << 8) | C`.
    pub fn get_bc(&self) -> (r: u16)
        ensures
            r == self@.bc(),
    {
        (self.b as u16) * 256 + (self.c as u16)
    }

    /// The DE register pair, `(D << 8) | E`.
    pub fn get_de(&self) -> (r: u16)
        ensures
            r == self@.de(),
    {
        (self.d as u16) * 256 + (self.e as u16)
    }

    /// The HL register pair, `(H << 8) | L`.
    pub fn get_hl(&self) -> (r: u16)
        ensures
            r == self@.hl(),
    {
        (self.h as u16) * 256 + (self.l as u16)
    }

    /// The stack pointer.
    pub fn get_sp(&self) -> (r: u16)
        ensures
            r == self@.sp,
    {
        self.sp
    }

    /// Sets the AF pair.  The low four bits of the flags register always
    /// read zero, so they are dropped from the written value.
    pub fn set_af(&mut self, val: u16)
        ensures
            final(self)@ == old(self)@.with_af(val),
    {
        self.a = (val / 256) as u8;
        let lo = (val % 256) as u8;
        self.f = lo / 16 * 16;
    }

    /// Sets the BC pair: high byte into B, low byte into C.
    pub fn set_bc(&mut self, val: u16)
        ensures
            final(self)@ == old(self)@.with_bc(val),
    {
        ld_word(&mut self.b, &mut self.c, val);
    }

    /// Sets the DE pair: high byte into D, low byte into E.
    pub fn set_de(&mut self, val: u16)
        ensures
            final(self)@ == old(self)@.with_de(val),
    {
        ld_word(&mut self.d, &mut self.e, val);
    }

    /// Sets the HL pair: high byte into H, low byte into L.
    pub fn set_hl(&mut self, val: u16)
        ensures
            final(self)@ == old(self)@.with_hl(val),
    {
        ld_word(&mut self.h, &mut self.l, val);
    }

    /// Sets the stack pointer.
    pub fn set_sp(&mut self, val: u16)
        ensures
            final(self)@ == (CpuModel { sp: val, ..old(self)@ }),
    {
        self.sp = val;
    }

    /// Fetches the memory byte at a 16-bit address.
    pub fn fetch(&self, addr: u16) -> (r: u8)
        requires
            self.wf(),
        ensures
            r == self@.mem[addr as int],
    {
        self.mmu_ref.byte_at(addr)
    }

    /// Reads the 16-bit word starting at `addr`, big-endian-from-stream:
    /// the byte at `addr` is the high byte.
    pub fn next_word(&self, addr: u16) -> (r: u16)
        requires
            self.wf(),
            addr as int + 1 < 0x10000,
        ensures
            r == word_at(self@.mem, addr as int),
    {
        let b1 = self.fetch(addr);
        let b2 = self.fetch(addr + 1);
        (b1 as u16) * 256 + (b2 as u16)
    }

    /// Reads the 8-bit operand location selected by `idx`: B, C, D, E, H,
    /// L, the memory byte addressed by HL, or A.
    fn read_operand(&self, idx: u8) -> (r: u8)
        requires
            self.wf(),
            idx < 8,
        ensures
            r == reg8_read(self@, idx),
    {
        if idx == 0 {
            self.b
        } else if idx == 1 {
            self.c
        } else if idx == 2 {
            self.d
        } else if idx == 3 {
            self.e
        } else if idx == 4 {
            self.h
        } else if idx == 5 {
            self.l
        } else if idx == 6 {
            let hl = self.get_hl();
            self.fetch(hl)
        } else {
            self.a
        }
    }

    /// Writes `v` to the 8-bit operand location selected by `idx`, with the
    /// same location order as `read_operand`.
    fn write_operand(&mut self, idx: u8, v: u8)
        requires
            old(self).wf(),
            idx < 8,
        ensures
            final(self)@ == reg8_write(old(self)@, idx, v),
            final(self).wf(),
    {
        proof {
            lemma_reg8_write_frame(old(self)@);
        }
        if idx == 0 {
            self.b = v;
        } else if idx == 1 {
            self.c = v;
        } else if idx == 2 {
            self.d = v;
        } else if idx == 3 {
            self.e = v;
        } else if idx == 4 {
            self.h = v;
        } else if idx == 5 {
            self.l = v;
        } else if idx == 6 {
            let hl = self.get_hl();
            self.mmu_ref.write_byte(hl, v);
        } else {
            self.a = v;
        }
    }

    /// Performs the register, flag and memory effect of an extended-space
    /// sub-opcode; the program counter is advanced by the caller.
    fn apply_cb(&mut self, sub: u8)
        requires
            old(self).wf(),
            tables::cb_implemented(sub),
        ensures
            final(self)@ == cb_action(old(self)@, sub),
            final(self).wf(),
    {
        proof {
            lemma_cb_action_wf(old(self)@, sub);
        }
        let idx = sub % 8;
        let row = (sub / 8) % 8;
        let v = self.read_operand(idx);
        if sub < 0x40 {
            let rf = if row == 0 {
                alu::rotate_left_carry(v)
            } else if row == 1 {
                alu::rotate_right_carry(v)
            } else if row == 4 {
                alu::shift_left(v)
            } else if row == 5 {
                alu::shift_right_arithmetic(v)
            } else if row == 6 {
                alu::swap(v)
            } else {
                alu::shift_right_logical(v)
            };
            self.write_operand(idx, rf.0);
            self.f = rf.1;
        } else if sub < 0x80 {
            self.f = alu::test_bit(v, row, self.f);
        } else if sub < 0xC0 {
            let r = alu::reset_bit(v, row);
            self.write_operand(idx, r);
        } else {
            let r = alu::set_bit(v, row);
            self.write_operand(idx, r);
        }
    }

    /// Performs the register, flag, memory and mode effect of a base-space
    /// opcode other than a jump, given the prefetched immediates; the
    /// program counter is advanced by the caller.
    fn apply_base(&mut self, op: u8, n: u8, nn: u16)
        requires
            old(self).wf(),
            tables::base_implemented(op),
            !is_jump(op),
        ensures
            final(self)@ == base_action(old(self)@, op, n, nn),
            final(self).wf(),
    {
        proof {
            lemma_base_action_wf(old(self)@, op, n, nn);
        }
        match op {
            0x00 => {},
            0x02 => {
                let addr = self.get_bc();
                self.mmu_ref.write_byte(addr, self.a);
            },
            0x03 => {
                let v = self.get_bc();
                let v2 = wrap_inc(v);
                self.set_bc(v2);
            },
            0x0A => {
                let addr = self.get_bc();
                self.a = self.fetch(addr);
            },
            0x0B => {
                let v = self.get_bc();
                let v2 = wrap_dec(v);
                self.set_bc(v2);
            },
            0x10 => {
                self.state = ExecState::Stopped;
            },
            0x12 => {
                let addr = self.get_de();
                self.mmu_ref.write_byte(addr, self.a);
            },
            0x13 => {
                let v = self.get_de();
                let v2 = wrap_inc(v);
                self.set_de(v2);
            },
            0x1A => {
                let addr = self.get_de();
                self.a = self.fetch(addr);
            },
            0x1B => {
                let v = self.get_de();
                let v2 = wrap_dec(v);
                self.set_de(v2);
            },
            0x21 => {
                self.set_hl(nn);
            },
            0x23 => {
                let v = self.get_hl();
                let v2 = wrap_inc(v);
                self.set_hl(v2);
            },
            0x2B => {
                let v = self.get_hl();
                let v2 = wrap_dec(v);
                self.set_hl(v2);
            },
            0x2F => {
                let rf = alu::complement(self.a, self.f);
                self.a = rf.0;
                self.f = rf.1;
            },
            0x31 => {
                self.sp = nn;
            },
            0x32 => {
                let addr = self.get_hl();
                self.mmu_ref.write_byte(addr, n);
            },
            0x33 => {
                self.sp = wrap_inc(self.sp);
            },
            0x3B => {
                self.sp = wrap_dec(self.sp);
            },
            0x3E => {
                self.a = n;
            },
            0x76 => {
                self.state = ExecState::Halted;
            },
            0xAF => {
                let rf = alu::xor(self.a, self.a);
                self.a = rf.0;
                self.f = rf.1;
            },
            0xEA => {
                let addr = self.l_e_word_conversion(nn);
                self.mmu_ref.write_byte(addr, self.a);
            },
            0xFA => {
                let addr = self.l_e_word_conversion(nn);
                self.a = self.fetch(addr);
            },
            _ => {
                let src = op % 8;
                let dest = (op - 0x40) / 8;
                let v = self.read_operand(src);
                self.write_operand(dest, v);
            },
        }
    }

    /// Decodes and executes the instruction whose opcode byte has been
    /// fetched at the current program counter: resolves the extended space
    /// behind the prefix byte, looks up the table entry, prefetches any
    /// immediates with explicit bounds checks near the top of memory,
    /// performs the action, and advances the program counter by the table
    /// length — a taken jump instead sets it to the literal target.
    fn decode_execute(&mut self, opcode: u8) -> (r: Result<(), Failure>)
        requires
            old(self).wf(),
            old(self)@.mode is Running,
            opcode == old(self)@.mem[old(self)@.pc as int],
        ensures
            final(self).wf(),
            ({
                let out = dispatch_spec(old(self)@);
                match out {
                    Ok(m2) => r == Ok::<(), Failure>(()) && final(self)@ == m2,
                    Err(e) => r == Err::<(), Failure>(e) && final(self)@ == old(self)@,
                }
            }),
    {
        let pc = self.pc;
        if opcode == 0xCB {
            if pc >= 0xFFFF {
                return Err(Failure::OutOfRangeAddress { address: pc as usize + 1 });
            }
            let sub = self.fetch(pc + 1);
            match tables::cb_prefixed_instruction_size(sub) {
                None => Err(Failure::UnimplementedOpcode { opcode: sub, address: pc }),
                Some(size) => {
                    self.apply_cb(sub);
                    self.pc = pc_add(pc, size);
                    Ok(())
                },
            }
        } else {
            match tables::instruction_size(opcode) {
                None => Err(Failure::UnimplementedOpcode { opcode, address: pc }),
                Some(len) => {
                    let mut n: u8 = 0;
                    let mut nn: u16 = 0;
                    if len >= 2 {
                        if pc >= 0xFFFF {
                            return Err(
                                Failure::OutOfRangeAddress { address: pc as usize + 1 },
                            );
                        }
                        n = self.fetch(pc + 1);
                    }
                    if len >= 3 {
                        if pc >= 0xFFFE {
                            return Err(
                                Failure::OutOfRangeAddress { address: pc as usize + 2 },
                            );
                        }
                        nn = self.next_word(pc + 1);
                    }
                    let jump = opcode == 0xC2 || opcode == 0xC3 || opcode == 0xCA || opcode
                        == 0xD2 || opcode == 0xDA;
                    if jump {
                        let zf = alu::is_zero_set(self.f);
                        let cf = alu::is_carry_set(self.f);
                        let taken = opcode == 0xC3 || (opcode == 0xC2 && !zf) || (opcode == 0xCA
                            && zf) || (opcode == 0xD2 && !cf) || (opcode == 0xDA && cf);
                        if taken {
                            self.pc = nn;
                        } else {
                            self.pc = pc_add(pc, 3);
                        }
                    } else {
                        self.apply_base(opcode, n, nn);
                        self.pc = pc_add(pc, len);
                    }
                    Ok(())
                },
            }
        }
    }

    /// Performs exactly one fetch-decode-execute-advance cycle.  A running
    /// CPU executes the instruction at the program counter; a halted or
    /// stopped CPU changes nothing until an outside collaborator wakes it.
    /// The two failure kinds are deterministic: the same machine state
    /// reproduces the same outcome.
    pub fn cycle(&mut self) -> (r: Result<(), Failure>)
        requires
            old(self).wf(),
        ensures
            final(self).wf(),
            ({
                let out = step_spec(old(self)@);
                match out {
                    Ok(m2) => r == Ok::<(), Failure>(()) && final(self)@ == m2,
                    Err(e) => r == Err::<(), Failure>(e) && final(self)@ == old(self)@,
                }
            }),
    {
        match self.state {
            ExecState::Running => {
                let next_opcode = self.fetch(self.pc);
                self.decode_execute(next_opcode)
            },
            _ => Ok(()),
        }
    }
}

} // verus!
