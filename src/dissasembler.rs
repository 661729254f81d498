use vstd::prelude::*;

verus! {

/// A register operand, or an immediate value that stands in its place.
#[derive(Clone, Copy, PartialEq, Eq, Structural, Debug)]
pub enum Register {
    A,
    F,
    B,
    C,
    D,
    E,
    H,
    L,
    AF,
    BC,
    DE,
    HL,
    SP,
    PC,
    Const8(u8),
    Const16(u16),
    Nothing,
}

/// An operand: a register or immediate, and whether it is used as a
/// pointer to memory rather than as a value.
#[derive(Clone, Copy, PartialEq, Eq, Structural, Debug)]
pub struct RegisterData {
    pub register: Register,
    pub pointer: bool,
}

/// The condition of a branch.
#[derive(Clone, Copy, PartialEq, Eq, Structural, Debug)]
pub enum Condition {
    NZ,
    NC,
    Z,
    C,
    Always,
}

/// How an instruction affects each flag: `None` leaves it alone; otherwise
/// `.0` says whether it depends on the result and `.1` is the value it is
/// set to when it does not.
#[derive(Clone, Copy, Debug)]
pub struct Flags {
    pub z: Option<(bool, bool)>,
    pub n: Option<(bool, bool)>,
    pub hc: Option<(bool, bool)>,
    pub c: Option<(bool, bool)>,
}

/// Every instruction the processor runs, with its operands.
#[derive(Clone, Copy, PartialEq, Eq, Structural, Debug)]
pub enum Instruction {
    NOP,
    STOP,
    HALT,
    EI,
    DI,
    JR(Condition, RegisterData),
    LD(RegisterData, RegisterData),
    LDH(RegisterData, RegisterData),
    /// LD HL, SP+i8.
    LDASP(RegisterData),
    LDINC(RegisterData, RegisterData),
    LDDEC(RegisterData, RegisterData),
    INC(RegisterData),
    DEC(RegisterData),
    RLCA,
    RLA,
    RRCA,
    RRA,
    DAA,
    SCF,
    CPL,
    CCF,
    ADD(RegisterData, RegisterData),
    SUB(RegisterData),
    ADC(RegisterData),
    SBC(RegisterData),
    AND(RegisterData),
    XOR(RegisterData),
    OR(RegisterData),
    CP(RegisterData),
    RET(Condition),
    CALL(Condition, RegisterData),
    POP(RegisterData),
    PUSH(RegisterData),
    JP(Condition, RegisterData),
    RETI,
    RST(u16),
    RLC(RegisterData),
    RRC(RegisterData),
    RL(RegisterData),
    RR(RegisterData),
    SLA(RegisterData),
    SRA(RegisterData),
    SWAP(RegisterData),
    SRL(RegisterData),
    BIT(u8, RegisterData),
    RES(u8, RegisterData),
    SET(u8, RegisterData),
    PREFIX,
    /// An opcode the processor does not define.
    INVALID,
}

/// How many immediate bytes follow an opcode.
#[derive(Clone, Copy, PartialEq, Eq, Structural, Debug)]
pub enum Take {
    Nothing,
    Eight,
    Sixteen,
}

/// The descriptor of one opcode. `cycles` is the T-state count, or the
/// count of a branch not taken; `branch_cycles` that of a branch taken.
#[derive(Clone, Copy, Debug)]
pub struct OpCode {
    pub code: u8,
    pub instruction: Instruction,
    pub flags: Flags,
    pub cycles: u8,
    pub branch_cycles: u8,
    pub extra_data: Take,
}

impl Register {
    pub open spec fn is_16_spec(self) -> bool {
        self is AF || self is BC || self is DE || self is HL || self is PC || self is SP
            || self is Const16
    }

    pub fn is_16(&self) -> (r: bool)
        ensures
            r == self.is_16_spec(),
    {
        match self {
            Self::AF | Self::BC | Self::DE | Self::HL | Self::PC | Self::SP | Self::Const16(_) => true,
            _ => false,
        }
    }
}

impl RegisterData {
    /// No operand.
    pub fn empty() -> (r: Self)
        ensures
            r == (RegisterData { register: Register::Nothing, pointer: false }),
    {
        RegisterData { register: Register::Nothing, pointer: false }
    }

    /// The register (or immediate) used as a value.
    pub fn from_reg(register: Register) -> (r: Self)
        ensures
            r == (RegisterData { register, pointer: false }),
    {
        RegisterData { register, pointer: false }
    }
}

impl Flags {
    /// Leaves every flag alone.
    pub fn all_none() -> (r: Self)
        ensures
            r == (Flags { z: None, n: None, hc: None, c: None }),
    {
        Flags { z: None, n: None, hc: None, c: None }
    }
}

/// The slot an immediate value fills: `new`'s register with the slot's
/// pointer flag.
pub open spec fn filled(slot: RegisterData, new: RegisterData) -> RegisterData {
    RegisterData { register: new.register, pointer: slot.pointer }
}

impl Instruction {
    /// Whether the instruction has a second operand (or its only operand) to
    /// fill with an immediate.
    pub open spec fn has_r2(self) -> bool {
        self is LD || self is LDH || self is ADD || self is SUB || self is ADC || self is SBC
            || self is XOR || self is OR || self is AND || self is CP || self is JR || self is JP
            || self is CALL
    }

    pub open spec fn insert_r2_spec(self, new: RegisterData) -> Instruction {
        match self {
            Instruction::LD(r1, r2) => Instruction::LD(r1, filled(r2, new)),
            Instruction::LDH(r1, r2) => Instruction::LDH(r1, filled(r2, new)),
            Instruction::ADD(r1, r2) => Instruction::ADD(r1, filled(r2, new)),
            Instruction::SUB(r) => Instruction::SUB(filled(r, new)),
            Instruction::ADC(r) => Instruction::ADC(filled(r, new)),
            Instruction::SBC(r) => Instruction::SBC(filled(r, new)),
            Instruction::XOR(r) => Instruction::XOR(filled(r, new)),
            Instruction::OR(r) => Instruction::OR(filled(r, new)),
            Instruction::AND(r) => Instruction::AND(filled(r, new)),
            Instruction::CP(r) => Instruction::CP(filled(r, new)),
            Instruction::JR(c, r) => Instruction::JR(c, filled(r, new)),
            Instruction::JP(c, r) => Instruction::JP(c, filled(r, new)),
            Instruction::CALL(c, r) => Instruction::CALL(c, filled(r, new)),
            _ => self,
        }
    }

    /// Whether the instruction has a first operand to fill with an immediate.
    pub open spec fn has_r1(self) -> bool {
        self is LD || self is LDASP || self is LDH
    }

    pub open spec fn insert_r1_spec(self, new: RegisterData) -> Instruction {
        match self {
            Instruction::LD(r1, r2) => Instruction::LD(filled(r1, new), r2),
            Instruction::LDASP(r1) => Instruction::LDASP(filled(r1, new)),
            Instruction::LDH(r1, r2) => Instruction::LDH(filled(r1, new), r2),
            _ => self,
        }
    }

    pub fn takes_r2(&self) -> (r: bool)
        ensures
            r == self.has_r2(),
    {
        matches!(self, Self::LD(..) | Self::LDH(..) | Self::ADD(..) | Self::SUB(_) | Self::ADC(_)
            | Self::SBC(_) | Self::XOR(_) | Self::OR(_) | Self::AND(_) | Self::CP(_) | Self::JR(..)
            | Self::JP(..) | Self::CALL(..))
    }

    pub fn takes_r1(&self) -> (r: bool)
        ensures
            r == self.has_r1(),
    {
        matches!(self, Self::LD(..) | Self::LDASP(_) | Self::LDH(..))
    }

    /// The instruction with its second (or only) operand filled by the
    /// immediate `new`.
    pub fn insert_r2(&mut self, new: RegisterData) -> (r: Instruction)
        requires
            old(self).has_r2(),
        ensures
            r == old(self).insert_r2_spec(new),
            *final(self) == *old(self),
    {
        match self {
            Self::LD(r1, r2) => Self::LD(*r1, RegisterData { register: new.register, pointer: r2.pointer }),
            Self::LDH(r1, r2) => Self::LDH(*r1, RegisterData { register: new.register, pointer: r2.pointer }),
            Self::ADD(r1, r2) => Self::ADD(*r1, RegisterData { register: new.register, pointer: r2.pointer }),
            Self::SUB(r) => Self::SUB(RegisterData { register: new.register, pointer: r.pointer }),
            Self::ADC(r) => Self::ADC(RegisterData { register: new.register, pointer: r.pointer }),
            Self::SBC(r) => Self::SBC(RegisterData { register: new.register, pointer: r.pointer }),
            Self::XOR(r) => Self::XOR(RegisterData { register: new.register, pointer: r.pointer }),
            Self::OR(r) => Self::OR(RegisterData { register: new.register, pointer: r.pointer }),
            Self::AND(r) => Self::AND(RegisterData { register: new.register, pointer: r.pointer }),
            Self::CP(r) => Self::CP(RegisterData { register: new.register, pointer: r.pointer }),
            Self::JR(c, r) => Self::JR(*c, RegisterData { register: new.register, pointer: r.pointer }),
            Self::JP(c, r) => Self::JP(*c, RegisterData { register: new.register, pointer: r.pointer }),
            Self::CALL(c, r) => Self::CALL(*c, RegisterData { register: new.register, pointer: r.pointer }),
            _ => *self,
        }
    }

    /// The instruction with its first operand filled by the immediate `new`.
    pub fn insert_r1(&mut self, new: RegisterData) -> (r: Instruction)
        requires
            old(self).has_r1(),
        ensures
            r == old(self).insert_r1_spec(new),
            *final(self) == *old(self),
    {
        match self {
            Self::LD(r1, r2) => Self::LD(RegisterData { register: new.register, pointer: r1.pointer }, *r2),
            Self::LDASP(r1) => Self::LDASP(RegisterData { register: new.register, pointer: r1.pointer }),
            Self::LDH(r1, r2) => Self::LDH(RegisterData { register: new.register, pointer: r1.pointer }, *r2),
            _ => *self,
        }
    }
}

/// A register operand used as a value.
pub open spec fn reg_spec(r: Register) -> RegisterData {
    RegisterData { register: r, pointer: false }
}

/// A register operand used as a pointer.
pub open spec fn ptr_spec(r: Register) -> RegisterData {
    RegisterData { register: r, pointer: true }
}

fn reg(r: Register) -> (d: RegisterData)
    ensures
        d == reg_spec(r),
{
    RegisterData { register: r, pointer: false }
}

fn ptr(r: Register) -> (d: RegisterData)
    ensures
        d == ptr_spec(r),
{
    RegisterData { register: r, pointer: true }
}

/// The 8-bit operand numbered `i` in opcodes: B, C, D, E, H, L, (HL), A.
pub open spec fn r8_spec(i: u8) -> RegisterData {
    if i == 0 {
        reg_spec(Register::B)
    } else if i == 1 {
        reg_spec(Register::C)
    } else if i == 2 {
        reg_spec(Register::D)
    } else if i == 3 {
        reg_spec(Register::E)
    } else if i == 4 {
        reg_spec(Register::H)
    } else if i == 5 {
        reg_spec(Register::L)
    } else if i == 6 {
        ptr_spec(Register::HL)
    } else {
        reg_spec(Register::A)
    }
}

fn r8(i: u8) -> (d: RegisterData)
    ensures
        d == r8_spec(i),
{
    if i == 0 {
        reg(Register::B)
    } else if i == 1 {
        reg(Register::C)
    } else if i == 2 {
        reg(Register::D)
    } else if i == 3 {
        reg(Register::E)
    } else if i == 4 {
        reg(Register::H)
    } else if i == 5 {
        reg(Register::L)
    } else if i == 6 {
        ptr(Register::HL)
    } else {
        reg(Register::A)
    }
}

/// The register pair numbered `i`: BC, DE, HL, SP.
pub open spec fn rp_spec(i: u8) -> RegisterData {
    if i == 0 {
        reg_spec(Register::BC)
    } else if i == 1 {
        reg_spec(Register::DE)
    } else if i == 2 {
        reg_spec(Register::HL)
    } else {
        reg_spec(Register::SP)
    }
}

fn rp(i: u8) -> (d: RegisterData)
    ensures
        d == rp_spec(i),
{
    if i == 0 {
        reg(Register::BC)
    } else if i == 1 {
        reg(Register::DE)
    } else if i == 2 {
        reg(Register::HL)
    } else {
        reg(Register::SP)
    }
}

/// The stack register pair numbered `i`: BC, DE, HL, AF.
pub open spec fn rp2_spec(i: u8) -> RegisterData {
    if i == 0 {
        reg_spec(Register::BC)
    } else if i == 1 {
        reg_spec(Register::DE)
    } else if i == 2 {
        reg_spec(Register::HL)
    } else {
        reg_spec(Register::AF)
    }
}

fn rp2(i: u8) -> (d: RegisterData)
    ensures
        d == rp2_spec(i),
{
    if i == 0 {
        reg(Register::BC)
    } else if i == 1 {
        reg(Register::DE)
    } else if i == 2 {
        reg(Register::HL)
    } else {
        reg(Register::AF)
    }
}

/// The branch condition numbered `i`: NZ, Z, NC, C.
pub open spec fn cc_spec(i: u8) -> Condition {
    if i == 0 {
        Condition::NZ
    } else if i == 1 {
        Condition::Z
    } else if i == 2 {
        Condition::NC
    } else {
        Condition::C
    }
}

fn cc(i: u8) -> (c: Condition)
    ensures
        c == cc_spec(i),
{
    if i == 0 {
        Condition::NZ
    } else if i == 1 {
        Condition::Z
    } else if i == 2 {
        Condition::NC
    } else {
        Condition::C
    }
}

/// A flag effect by its code: 0 reset, 1 set, 2 from the result, 3 untouched.
pub open spec fn effect_spec(k: u8) -> Option<(bool, bool)> {
    if k == 0 {
        Some((false, false))
    } else if k == 1 {
        Some((false, true))
    } else if k == 2 {
        Some((true, false))
    } else {
        None
    }
}

fn effect(k: u8) -> (r: Option<(bool, bool)>)
    ensures
        r == effect_spec(k),
{
    if k == 0 {
        Some((false, false))
    } else if k == 1 {
        Some((false, true))
    } else if k == 2 {
        Some((true, false))
    } else {
        None
    }
}

pub open spec fn flags_spec(z: u8, n: u8, h: u8, c: u8) -> Flags {
    Flags { z: effect_spec(z), n: effect_spec(n), hc: effect_spec(h), c: effect_spec(c) }
}

fn flags(z: u8, n: u8, h: u8, c: u8) -> (r: Flags)
    ensures
        r == flags_spec(z, n, h, c),
{
    Flags { z: effect(z), n: effect(n), hc: effect(h), c: effect(c) }
}

pub open spec fn opcode_spec(
    code: u8,
    instruction: Instruction,
    flags: Flags,
    cycles: u8,
    branch_cycles: u8,
    extra_data: Take,
) -> OpCode {
    OpCode { code, instruction, flags, cycles, branch_cycles, extra_data }
}

fn opcode(
    code: u8,
    instruction: Instruction,
    flags: Flags,
    cycles: u8,
    branch_cycles: u8,
    extra_data: Take,
) -> (r: OpCode)
    ensures
        r == opcode_spec(code, instruction, flags, cycles, branch_cycles, extra_data),
{
    OpCode { code, instruction, flags, cycles, branch_cycles, extra_data }
}

/// Descriptors of opcodes 0x00 to 0x3F.
pub open spec fn load_block_spec(op: u8) -> OpCode {
    let y = (op / 8) % 8;
    let z = op % 8;
    let p = y / 2;
    let q = y % 2;
    if z == 0 {
        if y == 0 {
            opcode_spec(op, Instruction::NOP, flags_spec(3, 3, 3, 3), 4, 4, Take::Nothing)
        } else if y == 1 {
            opcode_spec(op, Instruction::LD(ptr_spec(Register::Const16(0)), reg_spec(Register::SP)), flags_spec(3, 3, 3, 3), 20, 20, Take::Sixteen)
        } else if y == 2 {
            opcode_spec(op, Instruction::STOP, flags_spec(3, 3, 3, 3), 4, 4, Take::Nothing)
        } else if y == 3 {
            opcode_spec(op, Instruction::JR(Condition::Always, reg_spec(Register::Const8(0))), flags_spec(3, 3, 3, 3), 12, 12, Take::Eight)
        } else {
            opcode_spec(op, Instruction::JR(cc_spec((y - 4) as u8), reg_spec(Register::Const8(0))), flags_spec(3, 3, 3, 3), 8, 12, Take::Eight)
        }
    } else if z == 1 {
        if q == 0 {
            opcode_spec(op, Instruction::LD(rp_spec(p), reg_spec(Register::Const16(0))), flags_spec(3, 3, 3, 3), 12, 12, Take::Sixteen)
        } else {
            opcode_spec(op, Instruction::ADD(reg_spec(Register::HL), rp_spec(p)), flags_spec(3, 0, 2, 2), 8, 8, Take::Nothing)
        }
    } else if z == 2 {
        if q == 0 {
            if p == 0 {
                opcode_spec(op, Instruction::LD(ptr_spec(Register::BC), reg_spec(Register::A)), flags_spec(3, 3, 3, 3), 8, 8, Take::Nothing)
            } else if p == 1 {
                opcode_spec(op, Instruction::LD(ptr_spec(Register::DE), reg_spec(Register::A)), flags_spec(3, 3, 3, 3), 8, 8, Take::Nothing)
            } else if p == 2 {
                opcode_spec(op, Instruction::LDINC(ptr_spec(Register::HL), reg_spec(Register::A)), flags_spec(3, 3, 3, 3), 8, 8, Take::Nothing)
            } else {
                opcode_spec(op, Instruction::LDDEC(ptr_spec(Register::HL), reg_spec(Register::A)), flags_spec(3, 3, 3, 3), 8, 8, Take::Nothing)
            }
        } else {
            if p == 0 {
                opcode_spec(op, Instruction::LD(reg_spec(Register::A), ptr_spec(Register::BC)), flags_spec(3, 3, 3, 3), 8, 8, Take::Nothing)
            } else if p == 1 {
                opcode_spec(op, Instruction::LD(reg_spec(Register::A), ptr_spec(Register::DE)), flags_spec(3, 3, 3, 3), 8, 8, Take::Nothing)
            } else if p == 2 {
                opcode_spec(op, Instruction::LDINC(reg_spec(Register::A), ptr_spec(Register::HL)), flags_spec(3, 3, 3, 3), 8, 8, Take::Nothing)
            } else {
                opcode_spec(op, Instruction::LDDEC(reg_spec(Register::A), ptr_spec(Register::HL)), flags_spec(3, 3, 3, 3), 8, 8, Take::Nothing)
            }
        }
    } else if z == 3 {
        if q == 0 {
            opcode_spec(op, Instruction::INC(rp_spec(p)), flags_spec(3, 3, 3, 3), 8, 8, Take::Nothing)
        } else {
            opcode_spec(op, Instruction::DEC(rp_spec(p)), flags_spec(3, 3, 3, 3), 8, 8, Take::Nothing)
        }
    } else if z == 4 {
        if y == 6 {
            opcode_spec(op, Instruction::INC(r8_spec(y)), flags_spec(2, 0, 2, 3), 12, 12, Take::Nothing)
        } else {
            opcode_spec(op, Instruction::INC(r8_spec(y)), flags_spec(2, 0, 2, 3), 4, 4, Take::Nothing)
        }
    } else if z == 5 {
        if y == 6 {
            opcode_spec(op, Instruction::DEC(r8_spec(y)), flags_spec(2, 1, 2, 3), 12, 12, Take::Nothing)
        } else {
            opcode_spec(op, Instruction::DEC(r8_spec(y)), flags_spec(2, 1, 2, 3), 4, 4, Take::Nothing)
        }
    } else if z == 6 {
        if y == 6 {
            opcode_spec(op, Instruction::LD(r8_spec(y), reg_spec(Register::Const8(0))), flags_spec(3, 3, 3, 3), 12, 12, Take::Eight)
        } else {
            opcode_spec(op, Instruction::LD(r8_spec(y), reg_spec(Register::Const8(0))), flags_spec(3, 3, 3, 3), 8, 8, Take::Eight)
        }
    } else {
        if y == 0 {
            opcode_spec(op, Instruction::RLCA, flags_spec(0, 0, 0, 2), 4, 4, Take::Nothing)
        } else if y == 1 {
            opcode_spec(op, Instruction::RRCA, flags_spec(0, 0, 0, 2), 4, 4, Take::Nothing)
        } else if y == 2 {
            opcode_spec(op, Instruction::RLA, flags_spec(0, 0, 0, 2), 4, 4, Take::Nothing)
        } else if y == 3 {
            opcode_spec(op, Instruction::RRA, flags_spec(0, 0, 0, 2), 4, 4, Take::Nothing)
        } else if y == 4 {
            opcode_spec(op, Instruction::DAA, flags_spec(2, 3, 0, 2), 4, 4, Take::Nothing)
        } else if y == 5 {
            opcode_spec(op, Instruction::CPL, flags_spec(3, 1, 1, 3), 4, 4, Take::Nothing)
        } else if y == 6 {
            opcode_spec(op, Instruction::SCF, flags_spec(3, 0, 0, 1), 4, 4, Take::Nothing)
        } else {
            opcode_spec(op, Instruction::CCF, flags_spec(3, 0, 0, 2), 4, 4, Take::Nothing)
        }
    }
}

/// Descriptors of opcodes 0x40 to 0x7F: register loads and HALT.
pub open spec fn ld_block_spec(op: u8) -> OpCode {
    let y = (op / 8) % 8;
    let z = op % 8;
    let p = y / 2;
    let q = y % 2;
    if y == 6 && z == 6 {
        opcode_spec(op, Instruction::HALT, flags_spec(3, 3, 3, 3), 4, 4, Take::Nothing)
    } else if y == 6 || z == 6 {
        opcode_spec(op, Instruction::LD(r8_spec(y), r8_spec(z)), flags_spec(3, 3, 3, 3), 8, 8, Take::Nothing)
    } else {
        opcode_spec(op, Instruction::LD(r8_spec(y), r8_spec(z)), flags_spec(3, 3, 3, 3), 4, 4, Take::Nothing)
    }
}

/// Descriptors of opcodes 0x80 to 0xBF: arithmetic on A.
pub open spec fn alu_block_spec(op: u8) -> OpCode {
    let y = (op / 8) % 8;
    let z = op % 8;
    let p = y / 2;
    let q = y % 2;
    if z == 6 {
        if y == 0 {
            opcode_spec(op, Instruction::ADD(reg_spec(Register::A), r8_spec(z)), flags_spec(2, 0, 2, 2), 8, 8, Take::Nothing)
        } else if y == 1 {
            opcode_spec(op, Instruction::ADC(r8_spec(z)), flags_spec(2, 0, 2, 2), 8, 8, Take::Nothing)
        } else if y == 2 {
            opcode_spec(op, Instruction::SUB(r8_spec(z)), flags_spec(2, 1, 2, 2), 8, 8, Take::Nothing)
        } else if y == 3 {
            opcode_spec(op, Instruction::SBC(r8_spec(z)), flags_spec(2, 1, 2, 2), 8, 8, Take::Nothing)
        } else if y == 4 {
            opcode_spec(op, Instruction::AND(r8_spec(z)), flags_spec(2, 0, 1, 0), 8, 8, Take::Nothing)
        } else if y == 5 {
            opcode_spec(op, Instruction::XOR(r8_spec(z)), flags_spec(2, 0, 0, 0), 8, 8, Take::Nothing)
        } else if y == 6 {
            opcode_spec(op, Instruction::OR(r8_spec(z)), flags_spec(2, 0, 0, 0), 8, 8, Take::Nothing)
        } else {
            opcode_spec(op, Instruction::CP(r8_spec(z)), flags_spec(2, 1, 2, 2), 8, 8, Take::Nothing)
        }
    } else {
        if y == 0 {
            opcode_spec(op, Instruction::ADD(reg_spec(Register::A), r8_spec(z)), flags_spec(2, 0, 2, 2), 4, 4, Take::Nothing)
        } else if y == 1 {
            opcode_spec(op, Instruction::ADC(r8_spec(z)), flags_spec(2, 0, 2, 2), 4, 4, Take::Nothing)
        } else if y == 2 {
            opcode_spec(op, Instruction::SUB(r8_spec(z)), flags_spec(2, 1, 2, 2), 4, 4, Take::Nothing)
        } else if y == 3 {
            opcode_spec(op, Instruction::SBC(r8_spec(z)), flags_spec(2, 1, 2, 2), 4, 4, Take::Nothing)
        } else if y == 4 {
            opcode_spec(op, Instruction::AND(r8_spec(z)), flags_spec(2, 0, 1, 0), 4, 4, Take::Nothing)
        } else if y == 5 {
            opcode_spec(op, Instruction::XOR(r8_spec(z)), flags_spec(2, 0, 0, 0), 4, 4, Take::Nothing)
        } else if y == 6 {
            opcode_spec(op, Instruction::OR(r8_spec(z)), flags_spec(2, 0, 0, 0), 4, 4, Take::Nothing)
        } else {
            opcode_spec(op, Instruction::CP(r8_spec(z)), flags_spec(2, 1, 2, 2), 4, 4, Take::Nothing)
        }
    }
}

/// Descriptors of opcodes 0xC0 to 0xFF: control flow, stack and immediates.
pub open spec fn control_block_spec(op: u8) -> OpCode {
    let y = (op / 8) % 8;
    let z = op % 8;
    let p = y / 2;
    let q = y % 2;
    if z == 0 {
        if y < 4 {
            opcode_spec(op, Instruction::RET(cc_spec(y)), flags_spec(3, 3, 3, 3), 8, 20, Take::Nothing)
        } else if y == 4 {
            opcode_spec(op, Instruction::LDH(ptr_spec(Register::Const8(0)), reg_spec(Register::A)), flags_spec(3, 3, 3, 3), 12, 12, Take::Eight)
        } else if y == 5 {
            opcode_spec(op, Instruction::ADD(reg_spec(Register::SP), reg_spec(Register::Const8(0))), flags_spec(0, 0, 2, 2), 16, 16, Take::Eight)
        } else if y == 6 {
            opcode_spec(op, Instruction::LDH(reg_spec(Register::A), ptr_spec(Register::Const8(0))), flags_spec(3, 3, 3, 3), 12, 12, Take::Eight)
        } else {
            opcode_spec(op, Instruction::LDASP(reg_spec(Register::Const8(0))), flags_spec(0, 0, 2, 2), 12, 12, Take::Eight)
        }
    } else if z == 1 {
        if q == 0 {
            if p == 3 {
                opcode_spec(op, Instruction::POP(rp2_spec(p)), flags_spec(2, 2, 2, 2), 12, 12, Take::Nothing)
            } else {
                opcode_spec(op, Instruction::POP(rp2_spec(p)), flags_spec(3, 3, 3, 3), 12, 12, Take::Nothing)
            }
        } else if p == 0 {
            opcode_spec(op, Instruction::RET(Condition::Always), flags_spec(3, 3, 3, 3), 16, 16, Take::Nothing)
        } else if p == 1 {
            opcode_spec(op, Instruction::RETI, flags_spec(3, 3, 3, 3), 16, 16, Take::Nothing)
        } else if p == 2 {
            opcode_spec(op, Instruction::JP(Condition::Always, reg_spec(Register::HL)), flags_spec(3, 3, 3, 3), 4, 4, Take::Nothing)
        } else {
            opcode_spec(op, Instruction::LD(reg_spec(Register::SP), reg_spec(Register::HL)), flags_spec(3, 3, 3, 3), 8, 8, Take::Nothing)
        }
    } else if z == 2 {
        if y < 4 {
            opcode_spec(op, Instruction::JP(cc_spec(y), reg_spec(Register::Const16(0))), flags_spec(3, 3, 3, 3), 12, 16, Take::Sixteen)
        } else if y == 4 {
            opcode_spec(op, Instruction::LDH(ptr_spec(Register::C), reg_spec(Register::A)), flags_spec(3, 3, 3, 3), 8, 8, Take::Nothing)
        } else if y == 5 {
            opcode_spec(op, Instruction::LD(ptr_spec(Register::Const16(0)), reg_spec(Register::A)), flags_spec(3, 3, 3, 3), 16, 16, Take::Sixteen)
        } else if y == 6 {
            opcode_spec(op, Instruction::LDH(reg_spec(Register::A), ptr_spec(Register::C)), flags_spec(3, 3, 3, 3), 8, 8, Take::Nothing)
        } else {
            opcode_spec(op, Instruction::LD(reg_spec(Register::A), ptr_spec(Register::Const16(0))), flags_spec(3, 3, 3, 3), 16, 16, Take::Sixteen)
        }
    } else if z == 3 {
        if y == 0 {
            opcode_spec(op, Instruction::JP(Condition::Always, reg_spec(Register::Const16(0))), flags_spec(3, 3, 3, 3), 16, 16, Take::Sixteen)
        } else if y == 1 {
            opcode_spec(op, Instruction::PREFIX, flags_spec(3, 3, 3, 3), 4, 4, Take::Nothing)
        } else if y == 6 {
            opcode_spec(op, Instruction::DI, flags_spec(3, 3, 3, 3), 4, 4, Take::Nothing)
        } else if y == 7 {
            opcode_spec(op, Instruction::EI, flags_spec(3, 3, 3, 3), 4, 4, Take::Nothing)
        } else {
            opcode_spec(op, Instruction::INVALID, flags_spec(3, 3, 3, 3), 4, 4, Take::Nothing)
        }
    } else if z == 4 {
        if y < 4 {
            opcode_spec(op, Instruction::CALL(cc_spec(y), reg_spec(Register::Const16(0))), flags_spec(3, 3, 3, 3), 12, 24, Take::Sixteen)
        } else {
            opcode_spec(op, Instruction::INVALID, flags_spec(3, 3, 3, 3), 4, 4, Take::Nothing)
        }
    } else if z == 5 {
        if q == 0 {
            opcode_spec(op, Instruction::PUSH(rp2_spec(p)), flags_spec(3, 3, 3, 3), 16, 16, Take::Nothing)
        } else if p == 0 {
            opcode_spec(op, Instruction::CALL(Condition::Always, reg_spec(Register::Const16(0))), flags_spec(3, 3, 3, 3), 24, 24, Take::Sixteen)
        } else {
            opcode_spec(op, Instruction::INVALID, flags_spec(3, 3, 3, 3), 4, 4, Take::Nothing)
        }
    } else if z == 6 {
        if y == 0 {
            opcode_spec(op, Instruction::ADD(reg_spec(Register::A), reg_spec(Register::Const8(0))), flags_spec(2, 0, 2, 2), 8, 8, Take::Eight)
        } else if y == 1 {
            opcode_spec(op, Instruction::ADC(reg_spec(Register::Const8(0))), flags_spec(2, 0, 2, 2), 8, 8, Take::Eight)
        } else if y == 2 {
            opcode_spec(op, Instruction::SUB(reg_spec(Register::Const8(0))), flags_spec(2, 1, 2, 2), 8, 8, Take::Eight)
        } else if y == 3 {
            opcode_spec(op, Instruction::SBC(reg_spec(Register::Const8(0))), flags_spec(2, 1, 2, 2), 8, 8, Take::Eight)
        } else if y == 4 {
            opcode_spec(op, Instruction::AND(reg_spec(Register::Const8(0))), flags_spec(2, 0, 1, 0), 8, 8, Take::Eight)
        } else if y == 5 {
            opcode_spec(op, Instruction::XOR(reg_spec(Register::Const8(0))), flags_spec(2, 0, 0, 0), 8, 8, Take::Eight)
        } else if y == 6 {
            opcode_spec(op, Instruction::OR(reg_spec(Register::Const8(0))), flags_spec(2, 0, 0, 0), 8, 8, Take::Eight)
        } else {
            opcode_spec(op, Instruction::CP(reg_spec(Register::Const8(0))), flags_spec(2, 1, 2, 2), 8, 8, Take::Eight)
        }
    } else {
        opcode_spec(op, Instruction::RST(((y as u16) * 8) as u16), flags_spec(3, 3, 3, 3), 16, 16, Take::Nothing)
    }
}

fn load_block(op: u8) -> (r: OpCode)
    ensures
        r == load_block_spec(op),
{
    let y = (op / 8) % 8;
    let z = op % 8;
    let p = y / 2;
    let q = y % 2;
    if z == 0 {
        if y == 0 {
            opcode(op, Instruction::NOP, flags(3, 3, 3, 3), 4, 4, Take::Nothing)
        } else if y == 1 {
            opcode(op, Instruction::LD(ptr(Register::Const16(0)), reg(Register::SP)), flags(3, 3, 3, 3), 20, 20, Take::Sixteen)
        } else if y == 2 {
            opcode(op, Instruction::STOP, flags(3, 3, 3, 3), 4, 4, Take::Nothing)
        } else if y == 3 {
            opcode(op, Instruction::JR(Condition::Always, reg(Register::Const8(0))), flags(3, 3, 3, 3), 12, 12, Take::Eight)
        } else {
            opcode(op, Instruction::JR(cc((y - 4) as u8), reg(Register::Const8(0))), flags(3, 3, 3, 3), 8, 12, Take::Eight)
        }
    } else if z == 1 {
        if q == 0 {
            opcode(op, Instruction::LD(rp(p), reg(Register::Const16(0))), flags(3, 3, 3, 3), 12, 12, Take::Sixteen)
        } else {
            opcode(op, Instruction::ADD(reg(Register::HL), rp(p)), flags(3, 0, 2, 2), 8, 8, Take::Nothing)
        }
    } else if z == 2 {
        if q == 0 {
            if p == 0 {
                opcode(op, Instruction::LD(ptr(Register::BC), reg(Register::A)), flags(3, 3, 3, 3), 8, 8, Take::Nothing)
            } else if p == 1 {
                opcode(op, Instruction::LD(ptr(Register::DE), reg(Register::A)), flags(3, 3, 3, 3), 8, 8, Take::Nothing)
            } else if p == 2 {
                opcode(op, Instruction::LDINC(ptr(Register::HL), reg(Register::A)), flags(3, 3, 3, 3), 8, 8, Take::Nothing)
            } else {
                opcode(op, Instruction::LDDEC(ptr(Register::HL), reg(Register::A)), flags(3, 3, 3, 3), 8, 8, Take::Nothing)
            }
        } else {
            if p == 0 {
                opcode(op, Instruction::LD(reg(Register::A), ptr(Register::BC)), flags(3, 3, 3, 3), 8, 8, Take::Nothing)
            } else if p == 1 {
                opcode(op, Instruction::LD(reg(Register::A), ptr(Register::DE)), flags(3, 3, 3, 3), 8, 8, Take::Nothing)
            } else if p == 2 {
                opcode(op, Instruction::LDINC(reg(Register::A), ptr(Register::HL)), flags(3, 3, 3, 3), 8, 8, Take::Nothing)
            } else {
                opcode(op, Instruction::LDDEC(reg(Register::A), ptr(Register::HL)), flags(3, 3, 3, 3), 8, 8, Take::Nothing)
            }
        }
    } else if z == 3 {
        if q == 0 {
            opcode(op, Instruction::INC(rp(p)), flags(3, 3, 3, 3), 8, 8, Take::Nothing)
        } else {
            opcode(op, Instruction::DEC(rp(p)), flags(3, 3, 3, 3), 8, 8, Take::Nothing)
        }
    } else if z == 4 {
        if y == 6 {
            opcode(op, Instruction::INC(r8(y)), flags(2, 0, 2, 3), 12, 12, Take::Nothing)
        } else {
            opcode(op, Instruction::INC(r8(y)), flags(2, 0, 2, 3), 4, 4, Take::Nothing)
        }
    } else if z == 5 {
        if y == 6 {
            opcode(op, Instruction::DEC(r8(y)), flags(2, 1, 2, 3), 12, 12, Take::Nothing)
        } else {
            opcode(op, Instruction::DEC(r8(y)), flags(2, 1, 2, 3), 4, 4, Take::Nothing)
        }
    } else if z == 6 {
        if y == 6 {
            opcode(op, Instruction::LD(r8(y), reg(Register::Const8(0))), flags(3, 3, 3, 3), 12, 12, Take::Eight)
        } else {
            opcode(op, Instruction::LD(r8(y), reg(Register::Const8(0))), flags(3, 3, 3, 3), 8, 8, Take::Eight)
        }
    } else {
        if y == 0 {
            opcode(op, Instruction::RLCA, flags(0, 0, 0, 2), 4, 4, Take::Nothing)
        } else if y == 1 {
            opcode(op, Instruction::RRCA, flags(0, 0, 0, 2), 4, 4, Take::Nothing)
        } else if y == 2 {
            opcode(op, Instruction::RLA, flags(0, 0, 0, 2), 4, 4, Take::Nothing)
        } else if y == 3 {
            opcode(op, Instruction::RRA, flags(0, 0, 0, 2), 4, 4, Take::Nothing)
        } else if y == 4 {
            opcode(op, Instruction::DAA, flags(2, 3, 0, 2), 4, 4, Take::Nothing)
        } else if y == 5 {
            opcode(op, Instruction::CPL, flags(3, 1, 1, 3), 4, 4, Take::Nothing)
        } else if y == 6 {
            opcode(op, Instruction::SCF, flags(3, 0, 0, 1), 4, 4, Take::Nothing)
        } else {
            opcode(op, Instruction::CCF, flags(3, 0, 0, 2), 4, 4, Take::Nothing)
        }
    }
}

fn ld_block(op: u8) -> (r: OpCode)
    ensures
        r == ld_block_spec(op),
{
    let y = (op / 8) % 8;
    let z = op % 8;
    let p = y / 2;
    let q = y % 2;
    if y == 6 && z == 6 {
        opcode(op, Instruction::HALT, flags(3, 3, 3, 3), 4, 4, Take::Nothing)
    } else if y == 6 || z == 6 {
        opcode(op, Instruction::LD(r8(y), r8(z)), flags(3, 3, 3, 3), 8, 8, Take::Nothing)
    } else {
        opcode(op, Instruction::LD(r8(y), r8(z)), flags(3, 3, 3, 3), 4, 4, Take::Nothing)
    }
}

fn alu_block(op: u8) -> (r: OpCode)
    ensures
        r == alu_block_spec(op),
{
    let y = (op / 8) % 8;
    let z = op % 8;
    let p = y / 2;
    let q = y % 2;
    if z == 6 {
        if y == 0 {
            opcode(op, Instruction::ADD(reg(Register::A), r8(z)), flags(2, 0, 2, 2), 8, 8, Take::Nothing)
        } else if y == 1 {
            opcode(op, Instruction::ADC(r8(z)), flags(2, 0, 2, 2), 8, 8, Take::Nothing)
        } else if y == 2 {
            opcode(op, Instruction::SUB(r8(z)), flags(2, 1, 2, 2), 8, 8, Take::Nothing)
        } else if y == 3 {
            opcode(op, Instruction::SBC(r8(z)), flags(2, 1, 2, 2), 8, 8, Take::Nothing)
        } else if y == 4 {
            opcode(op, Instruction::AND(r8(z)), flags(2, 0, 1, 0), 8, 8, Take::Nothing)
        } else if y == 5 {
            opcode(op, Instruction::XOR(r8(z)), flags(2, 0, 0, 0), 8, 8, Take::Nothing)
        } else if y == 6 {
            opcode(op, Instruction::OR(r8(z)), flags(2, 0, 0, 0), 8, 8, Take::Nothing)
        } else {
            opcode(op, Instruction::CP(r8(z)), flags(2, 1, 2, 2), 8, 8, Take::Nothing)
        }
    } else {
        if y == 0 {
            opcode(op, Instruction::ADD(reg(Register::A), r8(z)), flags(2, 0, 2, 2), 4, 4, Take::Nothing)
        } else if y == 1 {
            opcode(op, Instruction::ADC(r8(z)), flags(2, 0, 2, 2), 4, 4, Take::Nothing)
        } else if y == 2 {
            opcode(op, Instruction::SUB(r8(z)), flags(2, 1, 2, 2), 4, 4, Take::Nothing)
        } else if y == 3 {
            opcode(op, Instruction::SBC(r8(z)), flags(2, 1, 2, 2), 4, 4, Take::Nothing)
        } else if y == 4 {
            opcode(op, Instruction::AND(r8(z)), flags(2, 0, 1, 0), 4, 4, Take::Nothing)
        } else if y == 5 {
            opcode(op, Instruction::XOR(r8(z)), flags(2, 0, 0, 0), 4, 4, Take::Nothing)
        } else if y == 6 {
            opcode(op, Instruction::OR(r8(z)), flags(2, 0, 0, 0), 4, 4, Take::Nothing)
        } else {
            opcode(op, Instruction::CP(r8(z)), flags(2, 1, 2, 2), 4, 4, Take::Nothing)
        }
    }
}

fn control_block(op: u8) -> (r: OpCode)
    ensures
        r == control_block_spec(op),
{
    let y = (op / 8) % 8;
    let z = op % 8;
    let p = y / 2;
    let q = y % 2;
    if z == 0 {
        if y < 4 {
            opcode(op, Instruction::RET(cc(y)), flags(3, 3, 3, 3), 8, 20, Take::Nothing)
        } else if y == 4 {
            opcode(op, Instruction::LDH(ptr(Register::Const8(0)), reg(Register::A)), flags(3, 3, 3, 3), 12, 12, Take::Eight)
        } else if y == 5 {
            opcode(op, Instruction::ADD(reg(Register::SP), reg(Register::Const8(0))), flags(0, 0, 2, 2), 16, 16, Take::Eight)
        } else if y == 6 {
            opcode(op, Instruction::LDH(reg(Register::A), ptr(Register::Const8(0))), flags(3, 3, 3, 3), 12, 12, Take::Eight)
        } else {
            opcode(op, Instruction::LDASP(reg(Register::Const8(0))), flags(0, 0, 2, 2), 12, 12, Take::Eight)
        }
    } else if z == 1 {
        if q == 0 {
            if p == 3 {
                opcode(op, Instruction::POP(rp2(p)), flags(2, 2, 2, 2), 12, 12, Take::Nothing)
            } else {
                opcode(op, Instruction::POP(rp2(p)), flags(3, 3, 3, 3), 12, 12, Take::Nothing)
            }
        } else if p == 0 {
            opcode(op, Instruction::RET(Condition::Always), flags(3, 3, 3, 3), 16, 16, Take::Nothing)
        } else if p == 1 {
            opcode(op, Instruction::RETI, flags(3, 3, 3, 3), 16, 16, Take::Nothing)
        } else if p == 2 {
            opcode(op, Instruction::JP(Condition::Always, reg(Register::HL)), flags(3, 3, 3, 3), 4, 4, Take::Nothing)
        } else {
            opcode(op, Instruction::LD(reg(Register::SP), reg(Register::HL)), flags(3, 3, 3, 3), 8, 8, Take::Nothing)
        }
    } else if z == 2 {
        if y < 4 {
            opcode(op, Instruction::JP(cc(y), reg(Register::Const16(0))), flags(3, 3, 3, 3), 12, 16, Take::Sixteen)
        } else if y == 4 {
            opcode(op, Instruction::LDH(ptr(Register::C), reg(Register::A)), flags(3, 3, 3, 3), 8, 8, Take::Nothing)
        } else if y == 5 {
            opcode(op, Instruction::LD(ptr(Register::Const16(0)), reg(Register::A)), flags(3, 3, 3, 3), 16, 16, Take::Sixteen)
        } else if y == 6 {
            opcode(op, Instruction::LDH(reg(Register::A), ptr(Register::C)), flags(3, 3, 3, 3), 8, 8, Take::Nothing)
        } else {
            opcode(op, Instruction::LD(reg(Register::A), ptr(Register::Const16(0))), flags(3, 3, 3, 3), 16, 16, Take::Sixteen)
        }
    } else if z == 3 {
        if y == 0 {
            opcode(op, Instruction::JP(Condition::Always, reg(Register::Const16(0))), flags(3, 3, 3, 3), 16, 16, Take::Sixteen)
        } else if y == 1 {
            opcode(op, Instruction::PREFIX, flags(3, 3, 3, 3), 4, 4, Take::Nothing)
        } else if y == 6 {
            opcode(op, Instruction::DI, flags(3, 3, 3, 3), 4, 4, Take::Nothing)
        } else if y == 7 {
            opcode(op, Instruction::EI, flags(3, 3, 3, 3), 4, 4, Take::Nothing)
        } else {
            opcode(op, Instruction::INVALID, flags(3, 3, 3, 3), 4, 4, Take::Nothing)
        }
    } else if z == 4 {
        if y < 4 {
            opcode(op, Instruction::CALL(cc(y), reg(Register::Const16(0))), flags(3, 3, 3, 3), 12, 24, Take::Sixteen)
        } else {
            opcode(op, Instruction::INVALID, flags(3, 3, 3, 3), 4, 4, Take::Nothing)
        }
    } else if z == 5 {
        if q == 0 {
            opcode(op, Instruction::PUSH(rp2(p)), flags(3, 3, 3, 3), 16, 16, Take::Nothing)
        } else if p == 0 {
            opcode(op, Instruction::CALL(Condition::Always, reg(Register::Const16(0))), flags(3, 3, 3, 3), 24, 24, Take::Sixteen)
        } else {
            opcode(op, Instruction::INVALID, flags(3, 3, 3, 3), 4, 4, Take::Nothing)
        }
    } else if z == 6 {
        if y == 0 {
            opcode(op, Instruction::ADD(reg(Register::A), reg(Register::Const8(0))), flags(2, 0, 2, 2), 8, 8, Take::Eight)
        } else if y == 1 {
            opcode(op, Instruction::ADC(reg(Register::Const8(0))), flags(2, 0, 2, 2), 8, 8, Take::Eight)
        } else if y == 2 {
            opcode(op, Instruction::SUB(reg(Register::Const8(0))), flags(2, 1, 2, 2), 8, 8, Take::Eight)
        } else if y == 3 {
            opcode(op, Instruction::SBC(reg(Register::Const8(0))), flags(2, 1, 2, 2), 8, 8, Take::Eight)
        } else if y == 4 {
            opcode(op, Instruction::AND(reg(Register::Const8(0))), flags(2, 0, 1, 0), 8, 8, Take::Eight)
        } else if y == 5 {
            opcode(op, Instruction::XOR(reg(Register::Const8(0))), flags(2, 0, 0, 0), 8, 8, Take::Eight)
        } else if y == 6 {
            opcode(op, Instruction::OR(reg(Register::Const8(0))), flags(2, 0, 0, 0), 8, 8, Take::Eight)
        } else {
            opcode(op, Instruction::CP(reg(Register::Const8(0))), flags(2, 1, 2, 2), 8, 8, Take::Eight)
        }
    } else {
        opcode(op, Instruction::RST(((y as u16) * 8) as u16), flags(3, 3, 3, 3), 16, 16, Take::Nothing)
    }
}

/// The descriptor of unprefixed opcode `op`, by its fields
/// `x = op[7:6]`, `y = op[5:3]`, `z = op[2:0]`, `p = y[2:1]`, `q = y[0]`.
pub open spec fn unprefixed_spec(op: u8) -> OpCode {
    let x = op / 64;
    if x == 0 {
        load_block_spec(op)
    } else if x == 1 {
        ld_block_spec(op)
    } else if x == 2 {
        alu_block_spec(op)
    } else {
        control_block_spec(op)
    }
}

/// Decodes an unprefixed opcode.
pub fn decode_unprefixed(op: u8) -> (r: OpCode)
    ensures
        r == unprefixed_spec(op),
{
    let x = op / 64;
    if x == 0 {
        load_block(op)
    } else if x == 1 {
        ld_block(op)
    } else if x == 2 {
        alu_block(op)
    } else {
        control_block(op)
    }
}

/// The descriptor of opcode `op` after the 0xCB prefix.
pub open spec fn prefixed_spec(op: u8) -> OpCode {
    let x = op / 64;
    let y = (op / 8) % 8;
    let z = op % 8;
    let p = y / 2;
    let q = y % 2;
    if x == 0 {
        if y == 0 {
            if z == 6 {
                opcode_spec(op, Instruction::RLC(r8_spec(z)), flags_spec(2, 0, 0, 2), 16, 16, Take::Nothing)
            } else {
                opcode_spec(op, Instruction::RLC(r8_spec(z)), flags_spec(2, 0, 0, 2), 8, 8, Take::Nothing)
            }
        } else if y == 1 {
            if z == 6 {
                opcode_spec(op, Instruction::RRC(r8_spec(z)), flags_spec(2, 0, 0, 2), 16, 16, Take::Nothing)
            } else {
                opcode_spec(op, Instruction::RRC(r8_spec(z)), flags_spec(2, 0, 0, 2), 8, 8, Take::Nothing)
            }
        } else if y == 2 {
            if z == 6 {
                opcode_spec(op, Instruction::RL(r8_spec(z)), flags_spec(2, 0, 0, 2), 16, 16, Take::Nothing)
            } else {
                opcode_spec(op, Instruction::RL(r8_spec(z)), flags_spec(2, 0, 0, 2), 8, 8, Take::Nothing)
            }
        } else if y == 3 {
            if z == 6 {
                opcode_spec(op, Instruction::RR(r8_spec(z)), flags_spec(2, 0, 0, 2), 16, 16, Take::Nothing)
            } else {
                opcode_spec(op, Instruction::RR(r8_spec(z)), flags_spec(2, 0, 0, 2), 8, 8, Take::Nothing)
            }
        } else if y == 4 {
            if z == 6 {
                opcode_spec(op, Instruction::SLA(r8_spec(z)), flags_spec(2, 0, 0, 2), 16, 16, Take::Nothing)
            } else {
                opcode_spec(op, Instruction::SLA(r8_spec(z)), flags_spec(2, 0, 0, 2), 8, 8, Take::Nothing)
            }
        } else if y == 5 {
            if z == 6 {
                opcode_spec(op, Instruction::SRA(r8_spec(z)), flags_spec(2, 0, 0, 2), 16, 16, Take::Nothing)
            } else {
                opcode_spec(op, Instruction::SRA(r8_spec(z)), flags_spec(2, 0, 0, 2), 8, 8, Take::Nothing)
            }
        } else if y == 6 {
            if z == 6 {
                opcode_spec(op, Instruction::SWAP(r8_spec(z)), flags_spec(2, 0, 0, 0), 16, 16, Take::Nothing)
            } else {
                opcode_spec(op, Instruction::SWAP(r8_spec(z)), flags_spec(2, 0, 0, 0), 8, 8, Take::Nothing)
            }
        } else {
            if z == 6 {
                opcode_spec(op, Instruction::SRL(r8_spec(z)), flags_spec(2, 0, 0, 2), 16, 16, Take::Nothing)
            } else {
                opcode_spec(op, Instruction::SRL(r8_spec(z)), flags_spec(2, 0, 0, 2), 8, 8, Take::Nothing)
            }
        }
    } else if x == 1 {
        if z == 6 {
            opcode_spec(op, Instruction::BIT(y, r8_spec(z)), flags_spec(2, 0, 1, 3), 12, 12, Take::Nothing)
        } else {
            opcode_spec(op, Instruction::BIT(y, r8_spec(z)), flags_spec(2, 0, 1, 3), 8, 8, Take::Nothing)
        }
    } else if x == 2 {
        if z == 6 {
            opcode_spec(op, Instruction::RES(y, r8_spec(z)), flags_spec(3, 3, 3, 3), 16, 16, Take::Nothing)
        } else {
            opcode_spec(op, Instruction::RES(y, r8_spec(z)), flags_spec(3, 3, 3, 3), 8, 8, Take::Nothing)
        }
    } else {
        if z == 6 {
            opcode_spec(op, Instruction::SET(y, r8_spec(z)), flags_spec(3, 3, 3, 3), 16, 16, Take::Nothing)
        } else {
            opcode_spec(op, Instruction::SET(y, r8_spec(z)), flags_spec(3, 3, 3, 3), 8, 8, Take::Nothing)
        }
    }
}

/// Decodes an opcode that follows the 0xCB prefix.
pub fn decode_prefixed(op: u8) -> (r: OpCode)
    ensures
        r == prefixed_spec(op),
{
    let x = op / 64;
    let y = (op / 8) % 8;
    let z = op % 8;
    let p = y / 2;
    let q = y % 2;
    if x == 0 {
        if y == 0 {
            if z == 6 {
                opcode(op, Instruction::RLC(r8(z)), flags(2, 0, 0, 2), 16, 16, Take::Nothing)
            } else {
                opcode(op, Instruction::RLC(r8(z)), flags(2, 0, 0, 2), 8, 8, Take::Nothing)
            }
        } else if y == 1 {
            if z == 6 {
                opcode(op, Instruction::RRC(r8(z)), flags(2, 0, 0, 2), 16, 16, Take::Nothing)
            } else {
                opcode(op, Instruction::RRC(r8(z)), flags(2, 0, 0, 2), 8, 8, Take::Nothing)
            }
        } else if y == 2 {
            if z == 6 {
                opcode(op, Instruction::RL(r8(z)), flags(2, 0, 0, 2), 16, 16, Take::Nothing)
            } else {
                opcode(op, Instruction::RL(r8(z)), flags(2, 0, 0, 2), 8, 8, Take::Nothing)
            }
        } else if y == 3 {
            if z == 6 {
                opcode(op, Instruction::RR(r8(z)), flags(2, 0, 0, 2), 16, 16, Take::Nothing)
            } else {
                opcode(op, Instruction::RR(r8(z)), flags(2, 0, 0, 2), 8, 8, Take::Nothing)
            }
        } else if y == 4 {
            if z == 6 {
                opcode(op, Instruction::SLA(r8(z)), flags(2, 0, 0, 2), 16, 16, Take::Nothing)
            } else {
                opcode(op, Instruction::SLA(r8(z)), flags(2, 0, 0, 2), 8, 8, Take::Nothing)
            }
        } else if y == 5 {
            if z == 6 {
                opcode(op, Instruction::SRA(r8(z)), flags(2, 0, 0, 2), 16, 16, Take::Nothing)
            } else {
                opcode(op, Instruction::SRA(r8(z)), flags(2, 0, 0, 2), 8, 8, Take::Nothing)
            }
        } else if y == 6 {
            if z == 6 {
                opcode(op, Instruction::SWAP(r8(z)), flags(2, 0, 0, 0), 16, 16, Take::Nothing)
            } else {
                opcode(op, Instruction::SWAP(r8(z)), flags(2, 0, 0, 0), 8, 8, Take::Nothing)
            }
        } else {
            if z == 6 {
                opcode(op, Instruction::SRL(r8(z)), flags(2, 0, 0, 2), 16, 16, Take::Nothing)
            } else {
                opcode(op, Instruction::SRL(r8(z)), flags(2, 0, 0, 2), 8, 8, Take::Nothing)
            }
        }
    } else if x == 1 {
        if z == 6 {
            opcode(op, Instruction::BIT(y, r8(z)), flags(2, 0, 1, 3), 12, 12, Take::Nothing)
        } else {
            opcode(op, Instruction::BIT(y, r8(z)), flags(2, 0, 1, 3), 8, 8, Take::Nothing)
        }
    } else if x == 2 {
        if z == 6 {
            opcode(op, Instruction::RES(y, r8(z)), flags(3, 3, 3, 3), 16, 16, Take::Nothing)
        } else {
            opcode(op, Instruction::RES(y, r8(z)), flags(3, 3, 3, 3), 8, 8, Take::Nothing)
        }
    } else {
        if z == 6 {
            opcode(op, Instruction::SET(y, r8(z)), flags(3, 3, 3, 3), 16, 16, Take::Nothing)
        } else {
            opcode(op, Instruction::SET(y, r8(z)), flags(3, 3, 3, 3), 8, 8, Take::Nothing)
        }
    }
}

/// The two decode tables, each indexed by opcode byte.
pub struct Dissasembler {
    pub unprefixed: Vec<OpCode>,
    pub prefixed: Vec<OpCode>,
}

impl Dissasembler {
    /// Entry `i` of each table is the descriptor of opcode `i`.
    pub open spec fn wf(&self) -> bool {
        &&& self.unprefixed@.len() == 256
        &&& self.prefixed@.len() == 256
        &&& forall|i: int| 0 <= i < 256 ==> #[trigger] self.unprefixed@[i] == unprefixed_spec(i as u8)
        &&& forall|i: int| 0 <= i < 256 ==> #[trigger] self.prefixed@[i] == prefixed_spec(i as u8)
    }

    /// Builds both decode tables.
    pub fn new() -> (r: Self)
        ensures
            r.wf(),
    {
        let mut unprefixed: Vec<OpCode> = Vec::with_capacity(256);
        let mut prefixed: Vec<OpCode> = Vec::with_capacity(256);
        let mut i: u16 = 0;
        while i < 256
            invariant
                i <= 256,
                unprefixed@.len() == i,
                prefixed@.len() == i,
                forall|j: int| 0 <= j < i ==> #[trigger] unprefixed@[j] == unprefixed_spec(j as u8),
                forall|j: int| 0 <= j < i ==> #[trigger] prefixed@[j] == prefixed_spec(j as u8),
            decreases 256 - i,
        {
            unprefixed.push(decode_unprefixed(i as u8));
            prefixed.push(decode_prefixed(i as u8));
            i = i + 1;
        }
        Dissasembler { unprefixed, prefixed }
    }
}

} // verus!
