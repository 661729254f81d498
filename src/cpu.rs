use vstd::prelude::*;
use crate::alu::{
    Shift, add8, sub8, and8, or8, xor8, inc8, dec8, add16, add_sp, daa8, cpl8, scf8, ccf8,
    cb_shift8, a_shift8, bit8, res8, set8, alu_add, alu_sub, alu_and, alu_or, alu_xor, alu_inc,
    alu_dec, alu_add16, alu_add_sp, alu_daa, alu_cpl, alu_scf, alu_ccf, alu_cb_shift, alu_a_shift,
    alu_bit, alu_res, alu_set,
};
use crate::cartridge::{RomLoadError, mbc_kind, header_mbc};
use crate::dissasembler::{Condition, Dissasembler, Instruction, OpCode, Register, RegisterData, Take, unprefixed_spec, prefixed_spec};
use crate::interupts::{Interupt, InteruptState};
use crate::mmu::{MMU, next_addr, next_address};
use crate::register::{Registers, flag_c, flag_z};
use crate::util::word;

verus! {

/// The 8-bit registers that instructions name.
pub open spec fn is_r8(r: Register) -> bool {
    r is A || r is B || r is C || r is D || r is E || r is H || r is L
}

pub open spec fn reg8(regs: Registers, r: Register) -> u8 {
    match r {
        Register::A => regs.a,
        Register::B => regs.b,
        Register::C => regs.c,
        Register::D => regs.d,
        Register::E => regs.e,
        Register::H => regs.h,
        Register::L => regs.l,
        _ => 0,
    }
}

pub open spec fn set_reg8(regs: Registers, r: Register, v: u8) -> Registers {
    match r {
        Register::A => Registers { a: v, ..regs },
        Register::B => Registers { b: v, ..regs },
        Register::C => Registers { c: v, ..regs },
        Register::D => Registers { d: v, ..regs },
        Register::E => Registers { e: v, ..regs },
        Register::H => Registers { h: v, ..regs },
        Register::L => Registers { l: v, ..regs },
        _ => regs,
    }
}

/// An operand that names a memory address: (BC), (DE), (HL), (a16), and
/// the high-page forms (C) and (a8).
pub open spec fn is_pointer_operand(rd: RegisterData) -> bool {
    rd.pointer && (rd.register is BC || rd.register is DE || rd.register is HL
        || rd.register is Const16 || rd.register is C || rd.register is Const8)
}

/// The address a pointer operand names; the high-page forms add 0xFF00.
pub open spec fn addr_of(regs: Registers, rd: RegisterData) -> u16 {
    match rd.register {
        Register::BC => regs.bc(),
        Register::DE => regs.de(),
        Register::HL => regs.hl(),
        Register::Const16(a) => a,
        Register::C => (0xFF00 + regs.c) as u16,
        Register::Const8(a) => (0xFF00 + a) as u16,
        _ => 0,
    }
}

/// An operand an 8-bit value can be read from.
pub open spec fn src8_ok(rd: RegisterData) -> bool {
    is_pointer_operand(rd) || (!rd.pointer && (is_r8(rd.register) || rd.register is Const8))
}

/// An operand an 8-bit value can be stored to.
pub open spec fn dst8_ok(rd: RegisterData) -> bool {
    is_pointer_operand(rd) || (!rd.pointer && is_r8(rd.register))
}

/// The 16-bit registers that loads and arithmetic name.
pub open spec fn is_r16(r: Register) -> bool {
    r is BC || r is DE || r is HL || r is SP
}

/// The register pairs the stack takes.
pub open spec fn is_stack_pair(r: Register) -> bool {
    r is BC || r is DE || r is HL || r is AF
}

pub open spec fn reg16(regs: Registers, r: Register) -> u16 {
    match r {
        Register::BC => regs.bc(),
        Register::DE => regs.de(),
        Register::HL => regs.hl(),
        Register::SP => regs.sp,
        Register::AF => regs.af(),
        Register::PC => regs.pc,
        Register::Const16(x) => x,
        _ => 0,
    }
}

/// The register file with a 16-bit register set; AF drops F's low nibble.
pub open spec fn set_reg16(regs: Registers, r: Register, v: u16) -> Registers {
    match r {
        Register::BC => regs.with_bc(v),
        Register::DE => regs.with_de(v),
        Register::HL => regs.with_hl(v),
        Register::SP => Registers { sp: v, ..regs },
        Register::AF => regs.with_af(v),
        Register::PC => Registers { pc: v, ..regs },
        _ => regs,
    }
}

/// Whether a branch condition holds on the flags.
pub open spec fn cond_holds(regs: Registers, c: Condition) -> bool {
    match c {
        Condition::Always => true,
        Condition::Z => flag_z(regs.f),
        Condition::NZ => !flag_z(regs.f),
        Condition::C => flag_c(regs.f),
        Condition::NC => !flag_c(regs.f),
    }
}

/// The address before `a`; 0 is preceded by 0xFFFF.
pub open spec fn prev_addr(a: u16) -> u16 {
    if a == 0 {
        0xFFFF
    } else {
        (a - 1) as u16
    }
}

fn prev_address(a: u16) -> (r: u16)
    ensures
        r == prev_addr(a),
{
    if a == 0 {
        0xFFFF
    } else {
        a - 1
    }
}

/// `pc` moved by the signed offset `e`, modulo 0x10000.
pub open spec fn relative(pc: u16, e: u8) -> u16 {
    ((pc + (if e < 128 { e as int } else { e - 256 }) + 65536) % 65536) as u16
}

/// Whether `after` is the bus `m` once `val` was pushed below `sp`: the
/// high byte at `sp - 1`, then the low byte at `sp - 2`.
pub open spec fn pushed(m: MMU, after: MMU, sp: u16, val: u16) -> bool {
    exists|mid: MMU|
        #![trigger m.write_post(&mid, prev_addr(sp), (val / 256) as u8)]
        m.write_post(&mid, prev_addr(sp), (val / 256) as u8) && mid.write_post(
            &after,
            prev_addr(prev_addr(sp)),
            (val % 256) as u8,
        )
}

/// Whether `after` is the bus `m` once the word `val` was stored at `a`,
/// low byte first.
pub open spec fn stored16(m: MMU, after: MMU, a: u16, val: u16) -> bool {
    exists|mid: MMU|
        #![trigger m.write_post(&mid, a, (val % 256) as u8)]
        m.write_post(&mid, a, (val % 256) as u8) && mid.write_post(
            &after,
            next_addr(a),
            (val / 256) as u8,
        )
}

/// The processor: register file, memory bus and run state.
pub struct Cpu {
    pub registers: Registers,
    pub mmu: MMU,
    /// HALT ran: waiting for an interrupt.
    pub halted: bool,
    /// EI ran: master enable is set once the next instruction has run.
    pub ei_delay: bool,
    /// STOP or an undefined opcode ran: the system has stopped for good.
    pub stopped: bool,
    /// An undefined opcode, or operands the processor does not have, ran.
    pub fault: bool,
}

impl Cpu {
    pub open spec fn inv(&self) -> bool {
        self.registers.wf() && self.mmu.inv()
    }

    /// The 8-bit value an operand reads.
    pub open spec fn read8(&self, rd: RegisterData) -> u8 {
        if rd.pointer {
            self.mmu.read_spec(addr_of(self.registers, rd))
        } else {
            match rd.register {
                Register::Const8(x) => x,
                r => reg8(self.registers, r),
            }
        }
    }

    /// Whether `after` is this processor with register file `regs` and `val`
    /// stored to operand `rd`.
    pub open spec fn stored8(&self, after: &Cpu, rd: RegisterData, val: u8, regs: Registers) -> bool {
        if rd.pointer {
            &&& *after == Cpu { mmu: after.mmu, registers: regs, ..*self }
            &&& self.mmu.write_post(&after.mmu, addr_of(regs, rd), val)
        } else {
            *after == Cpu { registers: set_reg8(regs, rd.register, val), ..*self }
        }
    }

    /// This processor with register file `regs`.
    pub open spec fn with_regs(self, regs: Registers) -> Cpu {
        Cpu { registers: regs, ..self }
    }

    /// The word on top of the stack.
    pub open spec fn top(&self) -> u16 {
        word(
            self.mmu.read_spec(next_addr(self.registers.sp)),
            self.mmu.read_spec(self.registers.sp),
        )
    }

    /// Whether `after` is this processor once `val` was pushed.
    pub open spec fn push_post(&self, after: &Cpu, val: u16, regs: Registers) -> bool {
        &&& *after == Cpu { mmu: after.mmu, registers: after.registers, ..*self }
        &&& after.registers == Registers { sp: prev_addr(prev_addr(self.registers.sp)), ..regs }
        &&& pushed(self.mmu, after.mmu, self.registers.sp, val)
    }

    /// The result of an 8-bit arithmetic or logic instruction on A.
    pub open spec fn alu_post(&self, after: &Cpu, r: (u8, u8), keep_a: bool) -> bool {
        *after == self.with_regs(
            Registers { a: if keep_a { self.registers.a } else { r.0 }, f: r.1, ..self.registers },
        )
    }

    /// The result of a prefixed rotate or shift on an operand.
    pub open spec fn cb_post(&self, after: &Cpu, k: Shift, rd: RegisterData) -> bool {
        let r = cb_shift8(k, self.read8(rd), self.registers.f);
        self.stored8(after, rd, r.0, Registers { f: r.1, ..self.registers })
    }

    /// The result of a rotate of A.
    pub open spec fn a_shift_post(&self, after: &Cpu, k: Shift) -> bool {
        let r = a_shift8(k, self.registers.a, self.registers.f);
        *after == self.with_regs(Registers { a: r.0, f: r.1, ..self.registers })
    }

    /// Whether a load between these operands is one the processor has.
    pub open spec fn load_ok(r1: RegisterData, r2: RegisterData) -> bool {
        ||| (!r1.pointer && is_r16(r1.register) && !r2.pointer && (r2.register is Const16
            || r2.register is HL))
        ||| (r1.pointer && r1.register is Const16 && !r2.pointer && r2.register is SP)
        ||| (dst8_ok(r1) && src8_ok(r2) && !(r1.pointer && r2.pointer))
    }

    /// The result of `LD r1, r2` (and `LDH`).
    pub open spec fn load_post(&self, after: &Cpu, r1: RegisterData, r2: RegisterData) -> bool {
        if !r1.pointer && is_r16(r1.register) {
            *after == self.with_regs(
                set_reg16(self.registers, r1.register, reg16(self.registers, r2.register)),
            )
        } else if r1.pointer && r1.register is Const16 && r2.register is SP {
            &&& *after == Cpu { mmu: after.mmu, ..*self }
            &&& stored16(self.mmu, after.mmu, addr_of(self.registers, r1), self.registers.sp)
        } else {
            self.stored8(after, r1, self.read8(r2), self.registers)
        }
    }

    /// The result of `LD (HL+), A` or `LD A, (HL+)` (`step` 1), and of the
    /// HL- forms (`step` 0xFFFF).
    pub open spec fn load_step_post(&self, after: &Cpu, r1: RegisterData, step: int) -> bool {
        let hl = self.registers.hl();
        let next = ((hl + step) % 65536) as u16;
        if r1.pointer {
            &&& *after == Cpu { mmu: after.mmu, registers: self.registers.with_hl(next), ..*self }
            &&& self.mmu.write_post(&after.mmu, hl, self.registers.a)
        } else {
            *after == self.with_regs(
                Registers { a: self.mmu.read_spec(hl), ..self.registers }.with_hl(next),
            )
        }
    }

    /// The result of `INC r` and `INC rr`.
    pub open spec fn inc_post(&self, after: &Cpu, r: RegisterData) -> bool {
        if !r.pointer && (is_r16(r.register) || r.register is PC) {
            *after == self.with_regs(
                set_reg16(
                    self.registers,
                    r.register,
                    ((reg16(self.registers, r.register) + 1) % 65536) as u16,
                ),
            )
        } else {
            let x = inc8(self.read8(r), self.registers.f);
            self.stored8(after, r, x.0, Registers { f: x.1, ..self.registers })
        }
    }

    /// The result of `DEC r` and `DEC rr`.
    pub open spec fn dec_post(&self, after: &Cpu, r: RegisterData) -> bool {
        if !r.pointer && is_r16(r.register) {
            *after == self.with_regs(
                set_reg16(
                    self.registers,
                    r.register,
                    ((reg16(self.registers, r.register) + 65535) % 65536) as u16,
                ),
            )
        } else {
            let x = dec8(self.read8(r), self.registers.f);
            self.stored8(after, r, x.0, Registers { f: x.1, ..self.registers })
        }
    }

    /// The result of `ADD A, r`, `ADD HL, rr` and `ADD SP, i8`.
    pub open spec fn add_post(&self, after: &Cpu, r1: RegisterData, r2: RegisterData) -> bool {
        if r1.register is SP {
            let x = add_sp(self.registers.sp, r2.register->Const8_0);
            *after == self.with_regs(Registers { sp: x.0, f: x.1, ..self.registers })
        } else if r1.register is HL {
            let x = add16(self.registers.hl(), reg16(self.registers, r2.register), self.registers.f);
            *after == self.with_regs(Registers { f: x.1, ..self.registers }.with_hl(x.0))
        } else {
            self.alu_post(after, add8(self.registers.a, self.read8(r2), false), false)
        }
    }

    pub open spec fn add_ok(r1: RegisterData, r2: RegisterData) -> bool {
        ||| (!r1.pointer && r1.register is SP && !r2.pointer && r2.register is Const8)
        ||| (!r1.pointer && r1.register is HL && !r2.pointer && is_r16(r2.register))
        ||| (!r1.pointer && r1.register is A && src8_ok(r2))
    }

    /// The result of a jump to `to` under condition `c`.
    pub open spec fn jump_post(&self, after: &Cpu, c: Condition, to: u16) -> bool {
        if cond_holds(self.registers, c) {
            *after == self.with_regs(Registers { pc: to, ..self.registers })
        } else {
            *after == *self
        }
    }

    /// The result of a return under condition `c`.
    pub open spec fn ret_post(&self, after: &Cpu, c: Condition) -> bool {
        if cond_holds(self.registers, c) {
            *after == self.with_regs(
                Registers { pc: self.top(), sp: next_addr(next_addr(self.registers.sp)), ..self.registers },
            )
        } else {
            *after == *self
        }
    }

    /// The result of a call of `to` under condition `c`.
    pub open spec fn call_post(&self, after: &Cpu, c: Condition, to: u16) -> bool {
        if cond_holds(self.registers, c) {
            self.push_post(after, self.registers.pc, Registers { pc: to, ..self.registers })
        } else {
            *after == *self
        }
    }

    /// The result of `POP rr`.
    pub open spec fn pop_post(&self, after: &Cpu, r: Register) -> bool {
        *after == self.with_regs(
            set_reg16(
                Registers { sp: next_addr(next_addr(self.registers.sp)), ..self.registers },
                r,
                self.top(),
            ),
        )
    }

    /// The processor with the interrupt master enable set to `m`.
    pub open spec fn with_master(self, m: bool) -> Cpu {
        Cpu { mmu: MMU { interupt: InteruptState { master: m, ..self.mmu.interupt }, ..self.mmu }, ..self }
    }

    /// Whether `after` is this processor once the highest-priority pending
    /// interrupt was serviced: its request bit and master enable cleared, PC
    /// pushed, and PC set to the source's vector.
    pub open spec fn serviced(&self, after: &Cpu) -> bool {
        let src = self.mmu.interupt.pending_spec();
        let m1 = MMU {
            interupt: InteruptState {
                if_r: self.mmu.interupt.if_r & !src.bit_spec(),
                master: false,
                ..self.mmu.interupt
            },
            ..self.mmu
        };
        Cpu { mmu: m1, ..*self }.push_post(
            after,
            self.registers.pc,
            Registers { pc: src.vector_spec(), ..self.registers },
        )
    }
}

impl Cpu {
    /// The address a pointer operand names.
    fn operand_address(&self, rd: RegisterData) -> (r: u16)
        requires
            is_pointer_operand(rd),
        ensures
            r == addr_of(self.registers, rd),
    {
        match rd.register {
            Register::BC => self.registers.get_bc(),
            Register::DE => self.registers.get_de(),
            Register::HL => self.registers.get_hl(),
            Register::Const16(a) => a,
            Register::C => 0xFF00 + self.registers.c as u16,
            Register::Const8(a) => 0xFF00 + a as u16,
            _ => 0,
        }
    }

    /// Reads an 8-bit operand.
    fn read_operand8(&self, rd: RegisterData) -> (r: u8)
        requires
            self.inv(),
            src8_ok(rd),
        ensures
            r == self.read8(rd),
    {
        if rd.pointer {
            let a = self.operand_address(rd);
            self.mmu.read_8(a)
        } else {
            match rd.register {
                Register::Const8(x) => x,
                Register::A => self.registers.a,
                Register::B => self.registers.b,
                Register::C => self.registers.c,
                Register::D => self.registers.d,
                Register::E => self.registers.e,
                Register::H => self.registers.h,
                Register::L => self.registers.l,
                _ => 0,
            }
        }
    }

    /// Stores an 8-bit value to an operand.
    fn write_operand8(&mut self, rd: RegisterData, val: u8)
        requires
            old(self).inv(),
            dst8_ok(rd),
        ensures
            final(self).inv(),
            old(self).stored8(final(self), rd, val, old(self).registers),
    {
        if rd.pointer {
            let a = self.operand_address(rd);
            self.mmu.write_8(a, val);
        } else {
            match rd.register {
                Register::A => self.registers.a = val,
                Register::B => self.registers.b = val,
                Register::C => self.registers.c = val,
                Register::D => self.registers.d = val,
                Register::E => self.registers.e = val,
                Register::H => self.registers.h = val,
                _ => self.registers.l = val,
            }
        }
    }

    fn read_reg16(&self, r: Register) -> (v: u16)
        ensures
            v == reg16(self.registers, r),
    {
        match r {
            Register::BC => self.registers.get_bc(),
            Register::DE => self.registers.get_de(),
            Register::HL => self.registers.get_hl(),
            Register::SP => self.registers.sp,
            Register::AF => self.registers.get_af(),
            Register::PC => self.registers.pc,
            Register::Const16(x) => x,
            _ => 0,
        }
    }

    fn write_reg16(&mut self, r: Register, v: u16)
        requires
            old(self).inv(),
        ensures
            final(self).inv(),
            *final(self) == old(self).with_regs(set_reg16(old(self).registers, r, v)),
    {
        match r {
            Register::BC => self.registers.set_bc(v),
            Register::DE => self.registers.set_de(v),
            Register::HL => self.registers.set_hl(v),
            Register::SP => self.registers.sp = v,
            Register::AF => self.registers.set_af(v),
            Register::PC => self.registers.pc = v,
            _ => {},
        }
    }

    /// Pushes a word: high byte at SP-1, low byte at SP-2.
    fn push_value(&mut self, val: u16)
        requires
            old(self).inv(),
        ensures
            final(self).inv(),
            old(self).push_post(final(self), val, old(self).registers),
    {
        let sp1 = prev_address(self.registers.sp);
        self.mmu.write_8(sp1, (val / 256) as u8);
        let ghost mid = self.mmu;
        let sp2 = prev_address(sp1);
        self.mmu.write_8(sp2, (val % 256) as u8);
        self.registers.sp = sp2;
        assert(old(self).mmu.write_post(&mid, prev_addr(old(self).registers.sp), (val / 256) as u8));
    }

    /// Pops a word: low byte at SP, high byte at SP+1.
    fn pop_value(&mut self) -> (v: u16)
        requires
            old(self).inv(),
        ensures
            final(self).inv(),
            v == old(self).top(),
            *final(self) == old(self).with_regs(
                Registers { sp: next_addr(next_addr(old(self).registers.sp)), ..old(self).registers },
            ),
    {
        let sp = self.registers.sp;
        let ls = self.mmu.read_8(sp);
        let sp1 = next_address(sp);
        let ms = self.mmu.read_8(sp1);
        self.registers.sp = next_address(sp1);
        crate::util::le_combine(ls, ms)
    }

    /// Reads the byte at PC as an immediate and moves PC past it.
    pub fn get_8(&mut self) -> (r: RegisterData)
        requires
            old(self).inv(),
        ensures
            final(self).inv(),
            r == crate::dissasembler::reg_spec(Register::Const8(old(self).mmu.read_spec(old(self).registers.pc))),
            *final(self) == old(self).with_regs(Registers { pc: next_addr(old(self).registers.pc), ..old(self).registers }),
    {
        let data = self.mmu.read_8(self.registers.pc);
        self.registers.pc = next_address(self.registers.pc);
        RegisterData::from_reg(Register::Const8(data))
    }

    /// Reads the little-endian word at PC as an immediate and moves PC past
    /// it.
    pub fn get_16(&mut self) -> (r: RegisterData)
        requires
            old(self).inv(),
        ensures
            final(self).inv(),
            r == crate::dissasembler::reg_spec(Register::Const16(old(self).mmu.read16_spec(old(self).registers.pc))),
            *final(self) == old(self).with_regs(Registers { pc: next_addr(next_addr(old(self).registers.pc)), ..old(self).registers }),
    {
        let data = self.mmu.read_16(self.registers.pc);
        self.registers.pc = next_address(next_address(self.registers.pc));
        RegisterData::from_reg(Register::Const16(data))
    }

    /// `LD (HL+), A` or `LD A, (HL+)`.
    pub fn load_incrememnt(&mut self, r1: RegisterData, r2: RegisterData)
        requires
            old(self).inv(),
            (r1 == RegisterData { register: Register::HL, pointer: true } && r2 == RegisterData { register: Register::A, pointer: false })
            || (r1 == RegisterData { register: Register::A, pointer: false } && r2 == RegisterData { register: Register::HL, pointer: true }),
        ensures
            final(self).inv(),
            old(self).load_step_post(final(self), r1, 1),
    {
        let hl = self.registers.get_hl();
        let next = ((hl as u32 + 1) % 65536) as u16;
        if r1.pointer {
            let a = self.registers.a;
            self.mmu.write_8(hl, a);
        } else {
            self.registers.a = self.mmu.read_8(hl);
        }
        self.registers.set_hl(next);
    }

    /// `LD (HL-), A` or `LD A, (HL-)`.
    pub fn load_decrement(&mut self, r1: RegisterData, r2: RegisterData)
        requires
            old(self).inv(),
            (r1 == RegisterData { register: Register::HL, pointer: true } && r2 == RegisterData { register: Register::A, pointer: false })
            || (r1 == RegisterData { register: Register::A, pointer: false } && r2 == RegisterData { register: Register::HL, pointer: true }),
        ensures
            final(self).inv(),
            old(self).load_step_post(final(self), r1, 65535),
    {
        let hl = self.registers.get_hl();
        let next = ((hl as u32 + 65535) % 65536) as u16;
        if r1.pointer {
            let a = self.registers.a;
            self.mmu.write_8(hl, a);
        } else {
            self.registers.a = self.mmu.read_8(hl);
        }
        self.registers.set_hl(next);
    }

    /// `LDH`: a load through the high page, (C) or (a8).
    pub fn load_high(&mut self, r1: RegisterData, r2: RegisterData)
        requires
            old(self).inv(),
            dst8_ok(r1),
            src8_ok(r2),
            !(r1.pointer && r2.pointer),
        ensures
            final(self).inv(),
            old(self).load_post(final(self), r1, r2),
    {
        self.load(r1, r2);
    }

    /// `LD HL, SP+i8`.
    pub fn load_hl_sp(&mut self, r: RegisterData)
        requires
            old(self).inv(),
            r.register is Const8,
        ensures
            final(self).inv(),
            ({
                let x = add_sp(old(self).registers.sp, r.register->Const8_0);
                *final(self) == old(self).with_regs(Registers { f: x.1, ..old(self).registers }.with_hl(x.0))
            }),
    {
        let e = match r.register {
            Register::Const8(x) => x,
            _ => 0,
        };
        let (v, f) = alu_add_sp(self.registers.sp, e);
        self.registers.f = f;
        self.registers.set_hl(v);
    }

    /// `LD r1, r2`: 8-bit loads between registers, memory and immediates;
    /// 16-bit loads of immediates and of HL; and `LD (a16), SP`.
    pub fn load(&mut self, r1: RegisterData, r2: RegisterData)
        requires
            old(self).inv(),
            Cpu::load_ok(r1, r2),
        ensures
            final(self).inv(),
            old(self).load_post(final(self), r1, r2),
    {
        if !r1.pointer && matches!(r1.register, Register::BC | Register::DE | Register::HL | Register::SP) {
            let v = self.read_reg16(r2.register);
            self.write_reg16(r1.register, v);
        } else if r1.pointer && matches!(r1.register, Register::Const16(_)) && matches!(r2.register, Register::SP) {
            let a = self.operand_address(r1);
            let sp = self.registers.sp;
            self.mmu.write_8(a, (sp % 256) as u8);
            let ghost mid = self.mmu;
            self.mmu.write_8(next_address(a), (sp / 256) as u8);
            assert(old(self).mmu.write_post(&mid, a, (sp % 256) as u8));
        } else {
            let v = self.read_operand8(r2);
            self.write_operand8(r1, v);
        }
    }

    /// `PUSH rr`.
    pub fn push(&mut self, r1: RegisterData)
        requires
            old(self).inv(),
            is_stack_pair(r1.register) || r1.register is PC,
        ensures
            final(self).inv(),
            old(self).push_post(final(self), reg16(old(self).registers, r1.register), old(self).registers),
    {
        let v = self.read_reg16(r1.register);
        self.push_value(v);
    }

    /// `POP rr`; popping AF clears F's low nibble.
    pub fn pop(&mut self, r1: RegisterData)
        requires
            old(self).inv(),
            is_stack_pair(r1.register) || r1.register is PC,
        ensures
            final(self).inv(),
            old(self).pop_post(final(self), r1.register),
    {
        let v = self.pop_value();
        self.write_reg16(r1.register, v);
    }

    /// `ADD A, r`, `ADD HL, rr` or `ADD SP, i8`.
    pub fn add(&mut self, r1: RegisterData, r2: RegisterData)
        requires
            old(self).inv(),
            Cpu::add_ok(r1, r2),
        ensures
            final(self).inv(),
            old(self).add_post(final(self), r1, r2),
    {
        if matches!(r1.register, Register::SP) {
            let e = match r2.register {
                Register::Const8(x) => x,
                _ => 0,
            };
            let (v, f) = alu_add_sp(self.registers.sp, e);
            self.registers.sp = v;
            self.registers.f = f;
        } else if matches!(r1.register, Register::HL) {
            let rr = self.read_reg16(r2.register);
            let (v, f) = alu_add16(self.registers.get_hl(), rr, self.registers.f);
            self.registers.f = f;
            self.registers.set_hl(v);
        } else {
            let v = self.read_operand8(r2);
            let (res, f) = alu_add(self.registers.a, v, false);
            self.registers.a = res;
            self.registers.f = f;
        }
    }

    /// `ADC A, r`.
    pub fn add_carry(&mut self, r: RegisterData)
        requires
            old(self).inv(),
            src8_ok(r),
        ensures
            final(self).inv(),
            old(self).alu_post(final(self), add8(old(self).registers.a, old(self).read8(r), flag_c(old(self).registers.f)), false),
    {
        let v = self.read_operand8(r);
        let c = self.registers.get_c();
        let (res, f) = alu_add(self.registers.a, v, c);
        self.registers.a = res;
        self.registers.f = f;
    }

    /// `SUB r`.
    pub fn subtract(&mut self, r: RegisterData)
        requires
            old(self).inv(),
            src8_ok(r),
        ensures
            final(self).inv(),
            old(self).alu_post(final(self), sub8(old(self).registers.a, old(self).read8(r), false), false),
    {
        let v = self.read_operand8(r);
        let (res, f) = alu_sub(self.registers.a, v, false);
        self.registers.a = res;
        self.registers.f = f;
    }

    /// `SBC A, r`.
    pub fn subtract_carry(&mut self, r: RegisterData)
        requires
            old(self).inv(),
            src8_ok(r),
        ensures
            final(self).inv(),
            old(self).alu_post(final(self), sub8(old(self).registers.a, old(self).read8(r), flag_c(old(self).registers.f)), false),
    {
        let v = self.read_operand8(r);
        let c = self.registers.get_c();
        let (res, f) = alu_sub(self.registers.a, v, c);
        self.registers.a = res;
        self.registers.f = f;
    }

    /// `CP r`: the flags of `SUB r`, A unchanged.
    pub fn compare(&mut self, r: RegisterData)
        requires
            old(self).inv(),
            src8_ok(r),
        ensures
            final(self).inv(),
            old(self).alu_post(final(self), sub8(old(self).registers.a, old(self).read8(r), false), true),
    {
        let v = self.read_operand8(r);
        let (_res, f) = alu_sub(self.registers.a, v, false);
        self.registers.f = f;
    }

    /// `INC r` or `INC rr`.
    pub fn increment(&mut self, r: RegisterData)
        requires
            old(self).inv(),
            dst8_ok(r) || (!r.pointer && (is_r16(r.register) || r.register is PC)),
        ensures
            final(self).inv(),
            old(self).inc_post(final(self), r),
    {
        if !r.pointer && matches!(r.register, Register::BC | Register::DE | Register::HL | Register::SP | Register::PC) {
            let v = self.read_reg16(r.register);
            self.write_reg16(r.register, ((v as u32 + 1) % 65536) as u16);
        } else {
            let v = self.read_operand8(r);
            let (res, f) = alu_inc(v, self.registers.f);
            self.registers.f = f;
            self.write_operand8(r, res);
        }
    }

    /// `DEC r` or `DEC rr`.
    pub fn decrement(&mut self, r: RegisterData)
        requires
            old(self).inv(),
            dst8_ok(r) || (!r.pointer && is_r16(r.register)),
        ensures
            final(self).inv(),
            old(self).dec_post(final(self), r),
    {
        if !r.pointer && matches!(r.register, Register::BC | Register::DE | Register::HL | Register::SP) {
            let v = self.read_reg16(r.register);
            self.write_reg16(r.register, ((v as u32 + 65535) % 65536) as u16);
        } else {
            let v = self.read_operand8(r);
            let (res, f) = alu_dec(v, self.registers.f);
            self.registers.f = f;
            self.write_operand8(r, res);
        }
    }

    /// `AND r`.
    pub fn and(&mut self, r: RegisterData)
        requires
            old(self).inv(),
            src8_ok(r),
        ensures
            final(self).inv(),
            old(self).alu_post(final(self), and8(old(self).registers.a, old(self).read8(r)), false),
    {
        let v = self.read_operand8(r);
        let (res, f) = alu_and(self.registers.a, v);
        self.registers.a = res;
        self.registers.f = f;
    }

    /// `OR r`.
    pub fn or(&mut self, r: RegisterData)
        requires
            old(self).inv(),
            src8_ok(r),
        ensures
            final(self).inv(),
            old(self).alu_post(final(self), or8(old(self).registers.a, old(self).read8(r)), false),
    {
        let v = self.read_operand8(r);
        let (res, f) = alu_or(self.registers.a, v);
        self.registers.a = res;
        self.registers.f = f;
    }

    /// `XOR r`.
    pub fn xor(&mut self, r: RegisterData)
        requires
            old(self).inv(),
            src8_ok(r),
        ensures
            final(self).inv(),
            old(self).alu_post(final(self), xor8(old(self).registers.a, old(self).read8(r)), false),
    {
        let v = self.read_operand8(r);
        let (res, f) = alu_xor(self.registers.a, v);
        self.registers.a = res;
        self.registers.f = f;
    }

    fn a_shift(&mut self, k: Shift)
        requires
            old(self).inv(),
        ensures
            final(self).inv(),
            old(self).a_shift_post(final(self), k),
    {
        let (res, f) = alu_a_shift(k, self.registers.a, self.registers.f);
        self.registers.a = res;
        self.registers.f = f;
    }

    /// `RLA`.
    pub fn rotate_left_a(&mut self)
        requires
            old(self).inv(),
        ensures
            final(self).inv(),
            old(self).a_shift_post(final(self), Shift::Rl),
    {
        self.a_shift(Shift::Rl);
    }

    /// `RLCA`.
    pub fn rotate_left_copy_a(&mut self)
        requires
            old(self).inv(),
        ensures
            final(self).inv(),
            old(self).a_shift_post(final(self), Shift::Rlc),
    {
        self.a_shift(Shift::Rlc);
    }

    /// `RRA`.
    pub fn rotate_right_a(&mut self)
        requires
            old(self).inv(),
        ensures
            final(self).inv(),
            old(self).a_shift_post(final(self), Shift::Rr),
    {
        self.a_shift(Shift::Rr);
    }

    /// `RRCA`.
    pub fn rotate_right_copy_a(&mut self)
        requires
            old(self).inv(),
        ensures
            final(self).inv(),
            old(self).a_shift_post(final(self), Shift::Rrc),
    {
        self.a_shift(Shift::Rrc);
    }

    fn cb_shift(&mut self, k: Shift, r: RegisterData)
        requires
            old(self).inv(),
            dst8_ok(r),
        ensures
            final(self).inv(),
            old(self).cb_post(final(self), k, r),
    {
        let v = self.read_operand8(r);
        let (res, f) = alu_cb_shift(k, v, self.registers.f);
        self.registers.f = f;
        self.write_operand8(r, res);
    }

    /// `RL r`.
    pub fn rotate_left(&mut self, r: RegisterData)
        requires
            old(self).inv(),
            dst8_ok(r),
        ensures
            final(self).inv(),
            old(self).cb_post(final(self), Shift::Rl, r),
    {
        self.cb_shift(Shift::Rl, r);
    }

    /// `RLC r`.
    pub fn rotate_left_copy(&mut self, r: RegisterData)
        requires
            old(self).inv(),
            dst8_ok(r),
        ensures
            final(self).inv(),
            old(self).cb_post(final(self), Shift::Rlc, r),
    {
        self.cb_shift(Shift::Rlc, r);
    }

    /// `RR r`.
    pub fn rotate_right(&mut self, r: RegisterData)
        requires
            old(self).inv(),
            dst8_ok(r),
        ensures
            final(self).inv(),
            old(self).cb_post(final(self), Shift::Rr, r),
    {
        self.cb_shift(Shift::Rr, r);
    }

    /// `RRC r`.
    pub fn rotate_right_copy(&mut self, r: RegisterData)
        requires
            old(self).inv(),
            dst8_ok(r),
        ensures
            final(self).inv(),
            old(self).cb_post(final(self), Shift::Rrc, r),
    {
        self.cb_shift(Shift::Rrc, r);
    }

    /// `SLA r`.
    pub fn shift_left_arithmetic(&mut self, r: RegisterData)
        requires
            old(self).inv(),
            dst8_ok(r),
        ensures
            final(self).inv(),
            old(self).cb_post(final(self), Shift::Sla, r),
    {
        self.cb_shift(Shift::Sla, r);
    }

    /// `SRA r`.
    pub fn shift_right_arithmetic(&mut self, r: RegisterData)
        requires
            old(self).inv(),
            dst8_ok(r),
        ensures
            final(self).inv(),
            old(self).cb_post(final(self), Shift::Sra, r),
    {
        self.cb_shift(Shift::Sra, r);
    }

    /// `SRL r`.
    pub fn shift_right_logical(&mut self, r: RegisterData)
        requires
            old(self).inv(),
            dst8_ok(r),
        ensures
            final(self).inv(),
            old(self).cb_post(final(self), Shift::Srl, r),
    {
        self.cb_shift(Shift::Srl, r);
    }

    /// `SWAP r`.
    pub fn swap(&mut self, r: RegisterData)
        requires
            old(self).inv(),
            dst8_ok(r),
        ensures
            final(self).inv(),
            old(self).cb_post(final(self), Shift::Swap, r),
    {
        self.cb_shift(Shift::Swap, r);
    }

    /// `SCF`.
    pub fn set_carry_flag(&mut self)
        requires
            old(self).inv(),
        ensures
            final(self).inv(),
            *final(self) == old(self).with_regs(Registers { f: scf8(old(self).registers.f), ..old(self).registers }),
    {
        self.registers.f = alu_scf(self.registers.f);
    }

    /// `CCF`.
    pub fn complement_carry_flag(&mut self)
        requires
            old(self).inv(),
        ensures
            final(self).inv(),
            *final(self) == old(self).with_regs(Registers { f: ccf8(old(self).registers.f), ..old(self).registers }),
    {
        self.registers.f = alu_ccf(self.registers.f);
    }

    /// `CPL`.
    pub fn complement_accumulator(&mut self)
        requires
            old(self).inv(),
        ensures
            final(self).inv(),
            old(self).alu_post(final(self), cpl8(old(self).registers.a, old(self).registers.f), false),
    {
        let (res, f) = alu_cpl(self.registers.a, self.registers.f);
        self.registers.a = res;
        self.registers.f = f;
    }

    /// `DAA`.
    pub fn decimal_adjust_accumulator(&mut self)
        requires
            old(self).inv(),
        ensures
            final(self).inv(),
            old(self).alu_post(final(self), daa8(old(self).registers.a, old(self).registers.f), false),
    {
        let (res, f) = alu_daa(self.registers.a, self.registers.f);
        self.registers.a = res;
        self.registers.f = f;
    }

    /// `BIT n, r`.
    pub fn test_bit(&mut self, bit: u8, r: RegisterData)
        requires
            old(self).inv(),
            dst8_ok(r),
            bit < 8,
        ensures
            final(self).inv(),
            *final(self) == old(self).with_regs(Registers { f: bit8(bit, old(self).read8(r), old(self).registers.f), ..old(self).registers }),
    {
        let v = self.read_operand8(r);
        self.registers.f = alu_bit(bit, v, self.registers.f);
    }

    /// `RES n, r`.
    pub fn reset_bit(&mut self, bit: u8, r: RegisterData)
        requires
            old(self).inv(),
            dst8_ok(r),
            bit < 8,
        ensures
            final(self).inv(),
            old(self).stored8(final(self), r, res8(bit, old(self).read8(r)), old(self).registers),
    {
        let v = self.read_operand8(r);
        self.write_operand8(r, alu_res(bit, v));
    }

    /// `SET n, r`.
    pub fn set_bit(&mut self, bit: u8, r: RegisterData)
        requires
            old(self).inv(),
            dst8_ok(r),
            bit < 8,
        ensures
            final(self).inv(),
            old(self).stored8(final(self), r, set8(bit, old(self).read8(r)), old(self).registers),
    {
        let v = self.read_operand8(r);
        self.write_operand8(r, alu_set(bit, v));
    }

    /// `EI`: master enable is set once the next instruction has run.
    pub fn enable_interupts(&mut self)
        ensures
            *final(self) == (Cpu { ei_delay: true, ..*old(self) }),
    {
        self.ei_delay = true;
    }

    /// `DI`: master enable is cleared at once, with any pending `EI`.
    pub fn disable_interupts(&mut self)
        ensures
            *final(self) == (Cpu { ei_delay: false, ..old(self).with_master(false) }),
    {
        self.ei_delay = false;
        self.mmu.disble_interupts();
    }

    /// `HALT`.
    pub fn halt_cpu(&mut self)
        ensures
            *final(self) == (Cpu { halted: true, ..*old(self) }),
    {
        self.halted = true;
    }

    /// `JP cc, a16` or `JP (HL)`.
    pub fn jump(&mut self, c: Condition, r: RegisterData)
        requires
            old(self).inv(),
            r.register is HL || r.register is Const16,
        ensures
            final(self).inv(),
            old(self).jump_post(final(self), c, reg16(old(self).registers, r.register)),
    {
        let to = self.read_reg16(r.register);
        if self.condition(c) {
            self.registers.pc = to;
        }
    }

    /// Whether a branch condition holds.
    fn condition(&self, c: Condition) -> (r: bool)
        ensures
            r == cond_holds(self.registers, c),
    {
        match c {
            Condition::Always => true,
            Condition::Z => self.registers.get_z(),
            Condition::NZ => !self.registers.get_z(),
            Condition::C => self.registers.get_c(),
            Condition::NC => !self.registers.get_c(),
        }
    }

    /// `JR cc, i8`: the offset is added to PC after the operand fetch.
    pub fn jump_relative(&mut self, c: Condition, by: RegisterData)
        requires
            old(self).inv(),
            by.register is Const8,
        ensures
            final(self).inv(),
            old(self).jump_post(final(self), c, relative(old(self).registers.pc, by.register->Const8_0)),
    {
        let e = match by.register {
            Register::Const8(x) => x,
            _ => 0,
        };
        let pc = self.registers.pc as u32;
        let off: u32 = if e < 128 { e as u32 } else { e as u32 + 65280 };
        let to = ((pc + off) % 65536) as u16;
        if self.condition(c) {
            self.registers.pc = to;
        }
    }

    /// `CALL cc, a16`.
    pub fn call(&mut self, c: Condition, r: RegisterData)
        requires
            old(self).inv(),
            r.register is Const16,
        ensures
            final(self).inv(),
            old(self).call_post(final(self), c, r.register->Const16_0),
    {
        let to = match r.register {
            Register::Const16(x) => x,
            _ => 0,
        };
        if self.condition(c) {
            let pc = self.registers.pc;
            self.push_value(pc);
            self.registers.pc = to;
        }
    }

    /// `RET cc`.
    pub fn ret(&mut self, c: Condition)
        requires
            old(self).inv(),
        ensures
            final(self).inv(),
            old(self).ret_post(final(self), c),
    {
        if self.condition(c) {
            let v = self.pop_value();
            self.registers.pc = v;
        }
    }

    /// `RETI`: returns and sets master enable.
    pub fn return_interrupt(&mut self)
        requires
            old(self).inv(),
        ensures
            final(self).inv(),
            old(self).with_master(true).ret_post(final(self), Condition::Always),
    {
        self.mmu.enable_interupts();
        self.ret(Condition::Always);
    }

    /// `RST n`: calls the fixed vector `to`.
    pub fn restart(&mut self, to: u16)
        requires
            old(self).inv(),
        ensures
            final(self).inv(),
            old(self).push_post(final(self), old(self).registers.pc, Registers { pc: to, ..old(self).registers }),
    {
        let pc = self.registers.pc;
        self.push_value(pc);
        self.registers.pc = to;
    }

    /// Services the highest-priority pending interrupt when master enable is
    /// set, and returns the T-states it took: 20, or 0 when nothing was
    /// serviced.
    pub fn service_interupts(&mut self) -> (r: u8)
        requires
            old(self).inv(),
        ensures
            final(self).inv(),
            old(self).mmu.interupt.master && old(self).mmu.interupt.pending_spec() != Interupt::Nothing ==> old(self).serviced(final(self)) && r == 20,
            !(old(self).mmu.interupt.master && old(self).mmu.interupt.pending_spec() != Interupt::Nothing) ==> *final(self) == *old(self) && r == 0,
    {
        let src = self.mmu.interupt.do_interupts();
        if matches!(src, Interupt::Nothing) {
            return 0;
        }
        let pc = self.registers.pc;
        self.push_value(pc);
        self.registers.pc = src.vector();
        20
    }
}

/// Whether an instruction's operands are a form the processor has.
pub open spec fn instr_ok(i: Instruction) -> bool {
    let hl_ptr = RegisterData { register: Register::HL, pointer: true };
    let a_reg = RegisterData { register: Register::A, pointer: false };
    match i {
        Instruction::JR(_, r) => r.register is Const8,
        Instruction::LD(r1, r2) => Cpu::load_ok(r1, r2),
        Instruction::LDH(r1, r2) => Cpu::load_ok(r1, r2),
        Instruction::LDASP(r) => r.register is Const8,
        Instruction::LDINC(r1, r2) => (r1 == hl_ptr && r2 == a_reg) || (r1 == a_reg && r2 == hl_ptr),
        Instruction::LDDEC(r1, r2) => (r1 == hl_ptr && r2 == a_reg) || (r1 == a_reg && r2 == hl_ptr),
        Instruction::INC(r) => dst8_ok(r) || (!r.pointer && (is_r16(r.register) || r.register is PC)),
        Instruction::DEC(r) => dst8_ok(r) || (!r.pointer && is_r16(r.register)),
        Instruction::ADD(r1, r2) => Cpu::add_ok(r1, r2),
        Instruction::SUB(r) => src8_ok(r),
        Instruction::ADC(r) => src8_ok(r),
        Instruction::SBC(r) => src8_ok(r),
        Instruction::AND(r) => src8_ok(r),
        Instruction::XOR(r) => src8_ok(r),
        Instruction::OR(r) => src8_ok(r),
        Instruction::CP(r) => src8_ok(r),
        Instruction::CALL(_, r) => r.register is Const16,
        Instruction::POP(r) => is_stack_pair(r.register),
        Instruction::PUSH(r) => is_stack_pair(r.register),
        Instruction::JP(_, r) => r.register is HL || r.register is Const16,
        Instruction::RLC(r) => dst8_ok(r),
        Instruction::RRC(r) => dst8_ok(r),
        Instruction::RL(r) => dst8_ok(r),
        Instruction::RR(r) => dst8_ok(r),
        Instruction::SLA(r) => dst8_ok(r),
        Instruction::SRA(r) => dst8_ok(r),
        Instruction::SWAP(r) => dst8_ok(r),
        Instruction::SRL(r) => dst8_ok(r),
        Instruction::BIT(b, r) => b < 8 && dst8_ok(r),
        Instruction::RES(b, r) => b < 8 && dst8_ok(r),
        Instruction::SET(b, r) => b < 8 && dst8_ok(r),
        _ => true,
    }
}

fn is_r8_check(r: Register) -> (b: bool)
    ensures
        b == is_r8(r),
{
    matches!(r, Register::A | Register::B | Register::C | Register::D | Register::E | Register::H | Register::L)
}

fn is_r16_check(r: Register) -> (b: bool)
    ensures
        b == is_r16(r),
{
    matches!(r, Register::BC | Register::DE | Register::HL | Register::SP)
}

fn pointer_check(rd: RegisterData) -> (b: bool)
    ensures
        b == is_pointer_operand(rd),
{
    rd.pointer && matches!(rd.register, Register::BC | Register::DE | Register::HL | Register::Const16(_) | Register::C | Register::Const8(_))
}

fn src8_check(rd: RegisterData) -> (b: bool)
    ensures
        b == src8_ok(rd),
{
    pointer_check(rd) || (!rd.pointer && (is_r8_check(rd.register) || matches!(rd.register, Register::Const8(_))))
}

fn dst8_check(rd: RegisterData) -> (b: bool)
    ensures
        b == dst8_ok(rd),
{
    pointer_check(rd) || (!rd.pointer && is_r8_check(rd.register))
}

fn load_check(r1: RegisterData, r2: RegisterData) -> (b: bool)
    ensures
        b == Cpu::load_ok(r1, r2),
{
    (!r1.pointer && is_r16_check(r1.register) && !r2.pointer && matches!(r2.register, Register::Const16(_) | Register::HL))
        || (r1.pointer && matches!(r1.register, Register::Const16(_)) && !r2.pointer && matches!(r2.register, Register::SP))
        || (dst8_check(r1) && src8_check(r2) && !(r1.pointer && r2.pointer))
}

fn add_check(r1: RegisterData, r2: RegisterData) -> (b: bool)
    ensures
        b == Cpu::add_ok(r1, r2),
{
    (!r1.pointer && matches!(r1.register, Register::SP) && !r2.pointer && matches!(r2.register, Register::Const8(_)))
        || (!r1.pointer && matches!(r1.register, Register::HL) && !r2.pointer && is_r16_check(r2.register))
        || (!r1.pointer && matches!(r1.register, Register::A) && src8_check(r2))
}

fn step_check(r1: RegisterData, r2: RegisterData) -> (b: bool)
    ensures
        b == ((r1 == RegisterData { register: Register::HL, pointer: true } && r2 == RegisterData { register: Register::A, pointer: false })
            || (r1 == RegisterData { register: Register::A, pointer: false } && r2 == RegisterData { register: Register::HL, pointer: true })),
{
    (r1.pointer && matches!(r1.register, Register::HL) && !r2.pointer && matches!(r2.register, Register::A))
        || (!r1.pointer && matches!(r1.register, Register::A) && r2.pointer && matches!(r2.register, Register::HL))
}

/// Whether an instruction's operands are a form the processor has.
pub fn instruction_ok(i: &Instruction) -> (b: bool)
    ensures
        b == instr_ok(*i),
{
    match *i {
        Instruction::JR(_, r) => matches!(r.register, Register::Const8(_)),
        Instruction::LD(r1, r2) => load_check(r1, r2),
        Instruction::LDH(r1, r2) => load_check(r1, r2),
        Instruction::LDASP(r) => matches!(r.register, Register::Const8(_)),
        Instruction::LDINC(r1, r2) => step_check(r1, r2),
        Instruction::LDDEC(r1, r2) => step_check(r1, r2),
        Instruction::INC(r) => dst8_check(r) || (!r.pointer && (is_r16_check(r.register) || matches!(r.register, Register::PC))),
        Instruction::DEC(r) => dst8_check(r) || (!r.pointer && is_r16_check(r.register)),
        Instruction::ADD(r1, r2) => add_check(r1, r2),
        Instruction::SUB(r) => src8_check(r),
        Instruction::ADC(r) => src8_check(r),
        Instruction::SBC(r) => src8_check(r),
        Instruction::AND(r) => src8_check(r),
        Instruction::XOR(r) => src8_check(r),
        Instruction::OR(r) => src8_check(r),
        Instruction::CP(r) => src8_check(r),
        Instruction::CALL(_, r) => matches!(r.register, Register::Const16(_)),
        Instruction::POP(r) => matches!(r.register, Register::BC | Register::DE | Register::HL | Register::AF),
        Instruction::PUSH(r) => matches!(r.register, Register::BC | Register::DE | Register::HL | Register::AF),
        Instruction::JP(_, r) => matches!(r.register, Register::HL | Register::Const16(_)),
        Instruction::RLC(r) => dst8_check(r),
        Instruction::RRC(r) => dst8_check(r),
        Instruction::RL(r) => dst8_check(r),
        Instruction::RR(r) => dst8_check(r),
        Instruction::SLA(r) => dst8_check(r),
        Instruction::SRA(r) => dst8_check(r),
        Instruction::SWAP(r) => dst8_check(r),
        Instruction::SRL(r) => dst8_check(r),
        Instruction::BIT(b, r) => b < 8 && dst8_check(r),
        Instruction::RES(b, r) => b < 8 && dst8_check(r),
        Instruction::SET(b, r) => b < 8 && dst8_check(r),
        _ => true,
    }
}

impl Cpu {
    /// Whether the instruction is a branch whose condition holds.
    pub open spec fn taken_spec(&self, i: Instruction) -> bool {
        instr_ok(i) && match i {
            Instruction::JR(c, _) => cond_holds(self.registers, c),
            Instruction::JP(c, _) => cond_holds(self.registers, c),
            Instruction::CALL(c, _) => cond_holds(self.registers, c),
            Instruction::RET(c) => cond_holds(self.registers, c),
            _ => false,
        }
    }

    /// Whether `after` is this processor once `i` ran. STOP stops the
    /// system; an undefined opcode, or operands the processor does not have,
    /// stop it with a fault.
    pub open spec fn executed(&self, after: &Cpu, i: Instruction) -> bool {
        let regs = self.registers;
        if !instr_ok(i) {
            *after == Cpu { stopped: true, fault: true, ..*self }
        } else {
            match i {
                Instruction::NOP => *after == *self,
                Instruction::PREFIX => *after == *self,
                Instruction::STOP => *after == Cpu { stopped: true, ..*self },
                Instruction::INVALID => *after == Cpu { stopped: true, fault: true, ..*self },
                Instruction::HALT => *after == Cpu { halted: true, ..*self },
                Instruction::EI => *after == Cpu { ei_delay: true, ..*self },
                Instruction::DI => *after == Cpu { ei_delay: false, ..self.with_master(false) },
                Instruction::JR(c, r) => self.jump_post(after, c, relative(regs.pc, r.register->Const8_0)),
                Instruction::LD(r1, r2) => self.load_post(after, r1, r2),
                Instruction::LDH(r1, r2) => self.load_post(after, r1, r2),
                Instruction::LDASP(r) => {
                    let x = add_sp(regs.sp, r.register->Const8_0);
                    *after == self.with_regs(Registers { f: x.1, ..regs }.with_hl(x.0))
                },
                Instruction::LDINC(r1, _) => self.load_step_post(after, r1, 1),
                Instruction::LDDEC(r1, _) => self.load_step_post(after, r1, 65535),
                Instruction::INC(r) => self.inc_post(after, r),
                Instruction::DEC(r) => self.dec_post(after, r),
                Instruction::RLCA => self.a_shift_post(after, Shift::Rlc),
                Instruction::RLA => self.a_shift_post(after, Shift::Rl),
                Instruction::RRCA => self.a_shift_post(after, Shift::Rrc),
                Instruction::RRA => self.a_shift_post(after, Shift::Rr),
                Instruction::DAA => self.alu_post(after, daa8(regs.a, regs.f), false),
                Instruction::SCF => *after == self.with_regs(Registers { f: scf8(regs.f), ..regs }),
                Instruction::CPL => self.alu_post(after, cpl8(regs.a, regs.f), false),
                Instruction::CCF => *after == self.with_regs(Registers { f: ccf8(regs.f), ..regs }),
                Instruction::ADD(r1, r2) => self.add_post(after, r1, r2),
                Instruction::SUB(r) => self.alu_post(after, sub8(regs.a, self.read8(r), false), false),
                Instruction::ADC(r) => self.alu_post(after, add8(regs.a, self.read8(r), flag_c(regs.f)), false),
                Instruction::SBC(r) => self.alu_post(after, sub8(regs.a, self.read8(r), flag_c(regs.f)), false),
                Instruction::AND(r) => self.alu_post(after, and8(regs.a, self.read8(r)), false),
                Instruction::XOR(r) => self.alu_post(after, xor8(regs.a, self.read8(r)), false),
                Instruction::OR(r) => self.alu_post(after, or8(regs.a, self.read8(r)), false),
                Instruction::CP(r) => self.alu_post(after, sub8(regs.a, self.read8(r), false), true),
                Instruction::RET(c) => self.ret_post(after, c),
                Instruction::CALL(c, r) => self.call_post(after, c, r.register->Const16_0),
                Instruction::POP(r) => self.pop_post(after, r.register),
                Instruction::PUSH(r) => self.push_post(after, reg16(regs, r.register), regs),
                Instruction::JP(c, r) => self.jump_post(after, c, reg16(regs, r.register)),
                Instruction::RETI => self.with_master(true).ret_post(after, Condition::Always),
                Instruction::RST(v) => self.push_post(after, regs.pc, Registers { pc: v, ..regs }),
                Instruction::RLC(r) => self.cb_post(after, Shift::Rlc, r),
                Instruction::RRC(r) => self.cb_post(after, Shift::Rrc, r),
                Instruction::RL(r) => self.cb_post(after, Shift::Rl, r),
                Instruction::RR(r) => self.cb_post(after, Shift::Rr, r),
                Instruction::SLA(r) => self.cb_post(after, Shift::Sla, r),
                Instruction::SRA(r) => self.cb_post(after, Shift::Sra, r),
                Instruction::SWAP(r) => self.cb_post(after, Shift::Swap, r),
                Instruction::SRL(r) => self.cb_post(after, Shift::Srl, r),
                Instruction::BIT(b, r) => *after == self.with_regs(Registers { f: bit8(b, self.read8(r), regs.f), ..regs }),
                Instruction::RES(b, r) => self.stored8(after, r, res8(b, self.read8(r)), regs),
                Instruction::SET(b, r) => self.stored8(after, r, set8(b, self.read8(r)), regs),
            }
        }
    }

    /// Runs one decoded instruction and returns whether it was a branch
    /// taken.
    pub fn execute(&mut self, instruction: Instruction) -> (taken: bool)
        requires
            old(self).inv(),
        ensures
            final(self).inv(),
            old(self).executed(final(self), instruction),
            taken == old(self).taken_spec(instruction),
    {
        if !instruction_ok(&instruction) {
            self.stopped = true;
            self.fault = true;
            return false;
        }
        match instruction {
            Instruction::NOP => {},
            Instruction::PREFIX => {},
            Instruction::STOP => self.stopped = true,
            Instruction::INVALID => {
                self.stopped = true;
                self.fault = true;
            },
            Instruction::HALT => self.halt_cpu(),
            Instruction::EI => self.enable_interupts(),
            Instruction::DI => self.disable_interupts(),
            Instruction::JR(c, by) => {
                let t = self.condition(c);
                self.jump_relative(c, by);
                return t;
            },
            Instruction::LD(r1, r2) => self.load(r1, r2),
            Instruction::LDH(r1, r2) => self.load(r1, r2),
            Instruction::LDASP(r) => self.load_hl_sp(r),
            Instruction::LDINC(r1, r2) => self.load_incrememnt(r1, r2),
            Instruction::LDDEC(r1, r2) => self.load_decrement(r1, r2),
            Instruction::INC(r) => self.increment(r),
            Instruction::DEC(r) => self.decrement(r),
            Instruction::RLCA => self.rotate_left_copy_a(),
            Instruction::RLA => self.rotate_left_a(),
            Instruction::RRCA => self.rotate_right_copy_a(),
            Instruction::RRA => self.rotate_right_a(),
            Instruction::DAA => self.decimal_adjust_accumulator(),
            Instruction::SCF => self.set_carry_flag(),
            Instruction::CPL => self.complement_accumulator(),
            Instruction::CCF => self.complement_carry_flag(),
            Instruction::ADD(r1, r2) => self.add(r1, r2),
            Instruction::SUB(r) => self.subtract(r),
            Instruction::ADC(r) => self.add_carry(r),
            Instruction::SBC(r) => self.subtract_carry(r),
            Instruction::AND(r) => self.and(r),
            Instruction::XOR(r) => self.xor(r),
            Instruction::OR(r) => self.or(r),
            Instruction::CP(r) => self.compare(r),
            Instruction::RET(c) => {
                let t = self.condition(c);
                self.ret(c);
                return t;
            },
            Instruction::CALL(c, r) => {
                let t = self.condition(c);
                self.call(c, r);
                return t;
            },
            Instruction::POP(r) => self.pop(r),
            Instruction::PUSH(r) => self.push(r),
            Instruction::JP(c, r) => {
                let t = self.condition(c);
                self.jump(c, r);
                return t;
            },
            Instruction::RETI => self.return_interrupt(),
            Instruction::RST(v) => self.restart(v),
            Instruction::RLC(r) => self.rotate_left_copy(r),
            Instruction::RRC(r) => self.rotate_right_copy(r),
            Instruction::RL(r) => self.rotate_left(r),
            Instruction::RR(r) => self.rotate_right(r),
            Instruction::SLA(r) => self.shift_left_arithmetic(r),
            Instruction::SRA(r) => self.shift_right_arithmetic(r),
            Instruction::SWAP(r) => self.swap(r),
            Instruction::SRL(r) => self.shift_right_logical(r),
            Instruction::BIT(b, r) => self.test_bit(b, r),
            Instruction::RES(b, r) => self.reset_bit(b, r),
            Instruction::SET(b, r) => self.set_bit(b, r),
        }
        false
    }
}

/// T-states in one frame.
pub const FRAME_T_STATES: u32 = 70224;

/// Every descriptor takes at least one machine cycle.
pub proof fn lemma_cycles_at_least_four(op: u8)
    ensures
        unprefixed_spec(op).cycles >= 4,
        unprefixed_spec(op).branch_cycles >= 4,
        prefixed_spec(op).cycles >= 4,
        prefixed_spec(op).branch_cycles >= 4,
{
}

impl Cpu {
    /// The descriptor of the opcode at PC, through the 0xCB prefix.
    pub open spec fn opcode_at(&self) -> OpCode {
        let pc = self.registers.pc;
        let b = self.mmu.read_spec(pc);
        if b == 0xCB {
            prefixed_spec(self.mmu.read_spec(next_addr(pc)))
        } else {
            unprefixed_spec(b)
        }
    }

    /// The address of the opcode's first immediate byte.
    pub open spec fn operand_pc(&self) -> u16 {
        let pc = self.registers.pc;
        if self.mmu.read_spec(pc) == 0xCB {
            next_addr(next_addr(pc))
        } else {
            next_addr(pc)
        }
    }

    /// The instruction of `code` with its immediate slot filled by `imm`: the
    /// first operand for 0xE0, 0xF8, 0x08 and 0xEA, the second otherwise.
    pub open spec fn fill(code: OpCode, imm: RegisterData) -> Instruction {
        let i = code.instruction;
        if (code.code == 0xE0 || code.code == 0xF8 || code.code == 0x08 || code.code == 0xEA)
            && i.has_r1() {
            i.insert_r1_spec(imm)
        } else if i.has_r2() {
            i.insert_r2_spec(imm)
        } else {
            Instruction::INVALID
        }
    }

    /// The instruction at PC with its immediate operand read.
    pub open spec fn fetched(&self) -> Instruction {
        let code = self.opcode_at();
        let p = self.operand_pc();
        match code.extra_data {
            Take::Nothing => code.instruction,
            Take::Eight => Cpu::fill(code, crate::dissasembler::reg_spec(Register::Const8(self.mmu.read_spec(p)))),
            Take::Sixteen => Cpu::fill(code, crate::dissasembler::reg_spec(Register::Const16(self.mmu.read16_spec(p)))),
        }
    }

    /// PC past the opcode and its immediate bytes.
    pub open spec fn fetched_pc(&self) -> u16 {
        let p = self.operand_pc();
        match self.opcode_at().extra_data {
            Take::Nothing => p,
            Take::Eight => next_addr(p),
            Take::Sixteen => next_addr(next_addr(p)),
        }
    }

    /// The processor about to execute the fetched instruction: PC moved past
    /// it, and a pending `EI` committed.
    pub open spec fn ready(&self) -> Cpu {
        let c = Cpu {
            registers: Registers { pc: self.fetched_pc(), ..self.registers },
            ei_delay: false,
            ..*self
        };
        if self.ei_delay {
            c.with_master(true)
        } else {
            c
        }
    }

    /// The T-states the fetched instruction takes.
    pub open spec fn cycles_of(&self) -> u8 {
        let code = self.opcode_at();
        if self.ready().taken_spec(self.fetched()) {
            code.branch_cycles
        } else {
            code.cycles
        }
    }

    /// Whether `after` is this processor after one step that took `r`
    /// T-states. Halted with nothing pending, it waits 4 T-states. With
    /// master enable set and an interrupt pending, it services it (and leaves
    /// the halt) in 20. Halted with an interrupt pending but master enable
    /// clear, it wakes in 4 without servicing. Otherwise it fetches, decodes
    /// and executes one instruction.
    pub open spec fn tick_post(&self, after: &Cpu, r: u8) -> bool {
        let pending = self.mmu.interupt.pending_spec() != Interupt::Nothing;
        if self.halted && !pending {
            *after == *self && r == 4
        } else if self.mmu.interupt.master && pending {
            Cpu { halted: false, ..*self }.serviced(after) && r == 20
        } else if self.halted {
            *after == Cpu { halted: false, ..*self } && r == 4
        } else {
            self.ready().executed(after, self.fetched()) && r == self.cycles_of()
        }
    }

    fn fill_exec(code: OpCode, imm: RegisterData) -> (r: Instruction)
        ensures
            r == Cpu::fill(code, imm),
    {
        let mut i = code.instruction;
        if (code.code == 0xE0 || code.code == 0xF8 || code.code == 0x08 || code.code == 0xEA)
            && i.takes_r1() {
            i.insert_r1(imm)
        } else if i.takes_r2() {
            i.insert_r2(imm)
        } else {
            Instruction::INVALID
        }
    }

    /// Runs one step: waits while halted, services an interrupt, or fetches,
    /// decodes and executes one instruction. Returns the T-states taken.
    pub fn tick(&mut self, d: &Dissasembler) -> (r: u8)
        requires
            old(self).inv(),
            d.wf(),
        ensures
            final(self).inv(),
            old(self).tick_post(final(self), r),
            r >= 4,
            final(self).registers.f & 0x0F == 0,
    {
        let pending = self.mmu.interupt.has_interupts();
        if self.halted && !pending {
            proof { lemma_low_nibble(self.registers.f); }
            return 4;
        }
        if self.mmu.interupt.master && pending {
            self.halted = false;
            let t = self.service_interupts();
            proof { lemma_low_nibble(self.registers.f); }
            return t;
        }
        if self.halted {
            self.halted = false;
            proof { lemma_low_nibble(self.registers.f); }
            return 4;
        }
        let pc = self.registers.pc;
        let op = self.mmu.read_8(pc);
        let code: OpCode;
        let p: u16;
        if op == 0xCB {
            let op2 = self.mmu.read_8(next_address(pc));
            code = d.prefixed[op2 as usize];
            p = next_address(next_address(pc));
            proof { lemma_cycles_at_least_four(op2); }
        } else {
            code = d.unprefixed[op as usize];
            p = next_address(pc);
            proof { lemma_cycles_at_least_four(op); }
        }
        let instruction: Instruction;
        let next_pc: u16;
        match code.extra_data {
            Take::Nothing => {
                instruction = code.instruction;
                next_pc = p;
            },
            Take::Eight => {
                let v = self.mmu.read_8(p);
                instruction = Cpu::fill_exec(code, RegisterData::from_reg(Register::Const8(v)));
                next_pc = next_address(p);
            },
            Take::Sixteen => {
                let v = self.mmu.read_16(p);
                instruction = Cpu::fill_exec(code, RegisterData::from_reg(Register::Const16(v)));
                next_pc = next_address(next_address(p));
            },
        }
        self.registers.pc = next_pc;
        if self.ei_delay {
            self.ei_delay = false;
            self.mmu.enable_interupts();
        }
        let taken = self.execute(instruction);
        proof { lemma_low_nibble(self.registers.f); }
        if taken {
            code.branch_cycles
        } else {
            code.cycles
        }
    }

    /// Whether `after` is this machine after one step that took `r`
    /// T-states: the processor's step, then the timer and picture unit
    /// advanced by `r`.
    #[verifier::opaque]
    pub open spec fn step_post(&self, after: &Cpu, r: u8) -> bool {
        exists|mid: Cpu|
            #![trigger self.tick_post(&mid, r)]
            self.tick_post(&mid, r) && mid.mmu.ticked(&after.mmu, r) && *after == (Cpu {
                mmu: after.mmu,
                ..mid
            })
    }

    /// One step of the whole machine: the processor runs one step, then the
    /// timer and picture unit advance by the T-states it took and raise their
    /// interrupts. Returns the T-states taken.
    pub fn step(&mut self, d: &Dissasembler) -> (r: u8)
        requires
            old(self).inv(),
            d.wf(),
        ensures
            final(self).inv(),
            r >= 4,
            old(self).step_post(final(self), r),
    {
        let t = self.tick(d);
        let ghost mid = *self;
        self.mmu.tick(t);
        proof {
            reveal(Cpu::step_post);
            assert(old(self).tick_post(&mid, t));
        }
        t
    }

    /// Whether `after` is reached from this machine by steps of the frame
    /// loop that took `total` T-states in all: each step began while fewer
    /// than 70224 T-states had run and the system had not stopped.
    #[verifier::opaque]
    pub open spec fn ran(&self, after: &Cpu, total: int) -> bool
        decreases total,
    {
        if total <= 0 {
            total == 0 && *after == *self
        } else {
            exists|mid: Cpu, r: u8|
                #![trigger mid.step_post(after, r)]
                4 <= r <= total && self.ran(&mid, total - r) && total - r < FRAME_T_STATES
                    && !mid.stopped && mid.step_post(after, r)
        }
    }

    /// A run followed by one more step of the frame loop is a run.
    pub proof fn lemma_ran_step(c0: Cpu, c: Cpu, c2: Cpu, total: int, r: u8)
        requires
            c0.ran(&c, total),
            0 <= total < FRAME_T_STATES,
            !c.stopped,
            r >= 4,
            c.step_post(&c2, r),
        ensures
            c0.ran(&c2, total + r),
    {
        reveal(Cpu::ran);
        let t = total + r;
        assert(t - r == total);
        assert(4 <= r <= t && c0.ran(&c, t - r) && t - r < FRAME_T_STATES && !c.stopped
            && c.step_post(&c2, r));
    }

    /// The run of no steps.
    pub proof fn lemma_ran_none(c: Cpu)
        ensures
            c.ran(&c, 0),
    {
        reveal(Cpu::ran);
    }

    /// Runs steps until a frame's worth of T-states (70224) has passed or
    /// the system stopped, and returns the T-states run.
    pub fn run_frame(&mut self, d: &Dissasembler) -> (total: u32)
        requires
            old(self).inv(),
            d.wf(),
        ensures
            final(self).inv(),
            old(self).ran(final(self), total as int),
            total >= FRAME_T_STATES || final(self).stopped,
            total < FRAME_T_STATES + 256,
    {
        let mut total: u32 = 0;
        proof {
            Cpu::lemma_ran_none(*self);
        }
        while total < FRAME_T_STATES && !self.stopped
            invariant
                self.inv(),
                d.wf(),
                total < FRAME_T_STATES + 256,
                old(self).ran(self, total as int),
            decreases FRAME_T_STATES + 256 - total,
        {
            let ghost before = *self;
            let t = self.step(d);
            proof {
                Cpu::lemma_ran_step(*old(self), before, *self, total as int, t);
            }
            total = total + t as u32;
        }
        total
    }

    /// A processor running the ROM image from the cartridge entry point, with
    /// the registers as the start-up sequence leaves them.
    pub fn from_rom(rom: Vec<u8>) -> (r: Result<Cpu, RomLoadError>)
        ensures
            rom@.len() == 0 ==> r == Err::<Cpu, RomLoadError>(RomLoadError::Empty),
            rom@.len() > 0 && mbc_kind(header_mbc(rom@)) is None ==> r == Err::<Cpu, RomLoadError>(
                RomLoadError::UnsupportedMbc(header_mbc(rom@)),
            ),
            rom@.len() > 0 && mbc_kind(header_mbc(rom@)) is Some ==> r is Ok,
            r is Ok ==> {
                let c = r->Ok_0;
                &&& c.inv()
                &&& c.registers == (Registers { a: 0x01, f: 0xB0, b: 0x00, c: 0x13, d: 0x00, e: 0xD8, h: 0x01, l: 0x4D, sp: 0xFFFE, pc: 0x0100 })
                &&& !c.halted && !c.ei_delay && !c.stopped && !c.fault
                &&& !c.mmu.cartridge.booting
                &&& c.mmu.cartridge.holds(rom@)
                &&& c.mmu.timer.time_elapsed == 0 && c.mmu.timer.tima == 0
                &&& c.mmu.interupt.ie == 0 && c.mmu.interupt.if_r == 0
            },
    {
        match MMU::new(rom) {
            Ok(mmu) => {
                let mut registers = Registers::default();
                registers.set_af(0x01B0);
                registers.set_bc(0x0013);
                registers.set_de(0x00D8);
                registers.set_hl(0x014D);
                registers.sp = 0xFFFE;
                registers.pc = 0x0100;
                Ok(Cpu { registers, mmu, halted: false, ei_delay: false, stopped: false, fault: false })
            },
            Err(e) => Err(e),
        }
    }

    /// A processor that starts in the 256-byte boot ROM at 0x0000 with every
    /// register zero; the boot ROM covers 0x0000..0x00FF until 0xFF50 is
    /// written.
    pub fn with_boot_rom(rom: Vec<u8>, boot: Vec<u8>) -> (r: Result<Cpu, RomLoadError>)
        requires
            boot@.len() == 0x100,
        ensures
            rom@.len() == 0 ==> r == Err::<Cpu, RomLoadError>(RomLoadError::Empty),
            rom@.len() > 0 && mbc_kind(header_mbc(rom@)) is None ==> r == Err::<Cpu, RomLoadError>(
                RomLoadError::UnsupportedMbc(header_mbc(rom@)),
            ),
            rom@.len() > 0 && mbc_kind(header_mbc(rom@)) is Some ==> r is Ok,
            r is Ok ==> {
                let c = r->Ok_0;
                &&& c.inv()
                &&& c.registers == (Registers { a: 0, f: 0, b: 0, c: 0, d: 0, e: 0, h: 0, l: 0, sp: 0, pc: 0 })
                &&& !c.halted && !c.ei_delay && !c.stopped && !c.fault
                &&& c.mmu.cartridge.booting
                &&& c.mmu.cartridge.boot_rom@ == boot@
                &&& c.mmu.cartridge.holds(rom@)
                &&& c.mmu.timer.time_elapsed == 0 && c.mmu.timer.tima == 0
                &&& c.mmu.interupt.ie == 0 && c.mmu.interupt.if_r == 0
            },
    {
        match MMU::new(rom) {
            Ok(mut mmu) => {
                mmu.load_boot_rom(boot);
                Ok(Cpu { registers: Registers::default(), mmu, halted: false, ei_delay: false, stopped: false, fault: false })
            },
            Err(e) => Err(e),
        }
    }
}

/// Low four bits clear, in the bit sense.
proof fn lemma_low_nibble(f: u8)
    ensures
        f % 16 == 0 <==> f & 0x0F == 0,
{
    assert(f % 16 == 0 <==> f & 0x0F == 0) by (bit_vector);
}

/// Whether both stack bytes below `sp` lie in work RAM, or both in high RAM.
pub open spec fn stack_in_ram(sp: u16) -> bool {
    let a = prev_addr(sp);
    let b = prev_addr(a);
    ||| (0xC000 <= b && a <= 0xDFFF && b < a)
    ||| (0xFF80 <= b && a <= 0xFFFE && b < a)
}

/// `PUSH rr`, then later `POP rr`, leaves `rr` as it was and SP restored,
/// provided that in between SP and the two stack bytes were left alone
/// (`c2` is the state after the push, `c2b` the one the pop starts from) and
/// the two stack bytes are RAM. (Pushed into ROM or I/O registers, the
/// bytes are not stored as written, and the pair can come back different.)
pub proof fn lemma_push_pop(c1: Cpu, c2: Cpu, c2b: Cpu, c3: Cpu, rr: Register)
    requires
        c1.inv(),
        is_stack_pair(rr),
        stack_in_ram(c1.registers.sp),
        c1.executed(&c2, Instruction::PUSH(RegisterData { register: rr, pointer: false })),
        c2b.registers.sp == c2.registers.sp,
        c2b.mmu.read_spec(prev_addr(c1.registers.sp)) == c2.mmu.read_spec(prev_addr(c1.registers.sp)),
        c2b.mmu.read_spec(prev_addr(prev_addr(c1.registers.sp))) == c2.mmu.read_spec(
            prev_addr(prev_addr(c1.registers.sp)),
        ),
        c2b.executed(&c3, Instruction::POP(RegisterData { register: rr, pointer: false })),
    ensures
        reg16(c3.registers, rr) == reg16(c1.registers, rr),
        c3.registers.sp == c1.registers.sp,
{
    let sp = c1.registers.sp;
    let v = reg16(c1.registers, rr);
    let a = prev_addr(sp);
    let b = prev_addr(a);
    let mid = choose|mid: MMU|
        #[trigger] c1.mmu.write_post(&mid, a, (v / 256) as u8) && mid.write_post(&c2.mmu, b, (v % 256) as u8);
    assert(c2.registers.sp == b);
    assert(next_addr(b) == a);
    assert(c2.mmu.read_spec(b) == (v % 256) as u8);
    assert(c2.mmu.read_spec(a) == (v / 256) as u8);
    assert(c2b.top() == v);
    assert(next_addr(next_addr(b)) == sp);
    if rr is AF {
        assert(c1.registers.wf());
        assert(c1.registers.with_af(v).f == c1.registers.f);
    }
}

/// `XOR A` leaves A zero with Z set and N, H and C clear.
pub proof fn lemma_xor_a(before: Cpu, after: Cpu)
    requires
        before.inv(),
        before.executed(&after, Instruction::XOR(RegisterData { register: Register::A, pointer: false })),
    ensures
        after.registers.a == 0,
        flag_z(after.registers.f),
        !crate::register::flag_n(after.registers.f),
        !crate::register::flag_h(after.registers.f),
        !flag_c(after.registers.f),
{
    let a = before.registers.a;
    assert(a ^ a == 0) by (bit_vector);
    crate::register::lemma_flag_byte(true, false, false, false);
}

/// With master enable set and `IE & IF & 0x1F` non-zero, a step services
/// the highest-priority pending source: it takes 20 T-states, jumps to that
/// source's vector, clears exactly that one request bit and master enable,
/// and pushes PC. (The stack must be RAM, so that pushing PC does not write
/// over IF or IE.)
pub proof fn lemma_tick_services(before: Cpu, after: Cpu, r: u8)
    requires
        before.inv(),
        before.mmu.interupt.master,
        before.mmu.interupt.ie & before.mmu.interupt.if_r & 0x1F != 0,
        stack_in_ram(before.registers.sp),
        before.tick_post(&after, r),
    ensures
        r == 20,
        after.registers.pc == before.mmu.interupt.pending_spec().vector_spec(),
        after.mmu.interupt.if_r == before.mmu.interupt.if_r - before.mmu.interupt.pending_spec().bit_spec(),
        !after.mmu.interupt.master,
        after.registers.sp == prev_addr(prev_addr(before.registers.sp)),
        !after.halted,
        after.mmu.read_spec(prev_addr(before.registers.sp)) == (before.registers.pc / 256) as u8,
        after.mmu.read_spec(prev_addr(prev_addr(before.registers.sp))) == (before.registers.pc % 256) as u8,
        after.top() == before.registers.pc,
{
    crate::interupts::lemma_service_clears_one(before.mmu.interupt);
    let src = before.mmu.interupt.pending_spec();
    let c0 = Cpu { halted: false, ..before };
    let m1 = MMU {
        interupt: InteruptState {
            if_r: before.mmu.interupt.if_r & !src.bit_spec(),
            master: false,
            ..before.mmu.interupt
        },
        ..before.mmu
    };
    let sp = before.registers.sp;
    let v = before.registers.pc;
    let mid = choose|mid: MMU|
        #[trigger] m1.write_post(&mid, prev_addr(sp), (v / 256) as u8) && mid.write_post(&after.mmu, prev_addr(prev_addr(sp)), (v % 256) as u8);
    assert(mid.interupt == m1.interupt);
    assert(after.mmu.interupt == m1.interupt);
    assert(after.mmu.read_spec(prev_addr(prev_addr(sp))) == (v % 256) as u8);
    assert(after.mmu.read_spec(prev_addr(sp)) == (v / 256) as u8);
    assert(next_addr(prev_addr(prev_addr(sp))) == prev_addr(sp));
}

} // verus!
