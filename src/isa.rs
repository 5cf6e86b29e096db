//! Instruction words, their fields and immediates, and privilege modes.
use vstd::arithmetic::power2::{lemma2_to64, pow2};
use vstd::prelude::*;

verus! {

/// Width in bytes of every instruction of the base ISA.
pub const INSTRUCTION_SIZE: u8 = 4;

pub const OP_LOAD: u8 = 0b000_0011;
pub const OP_IMM: u8 = 0b001_0011;
pub const OP_AUIPC: u8 = 0b001_0111;
pub const OP_STORE: u8 = 0b010_0011;
pub const OP_REG: u8 = 0b011_0011;
pub const OP_LUI: u8 = 0b011_0111;
pub const OP_BRANCH: u8 = 0b110_0011;
pub const OP_JALR: u8 = 0b110_0111;
pub const OP_JAL: u8 = 0b110_1111;
pub const OP_SYSTEM: u8 = 0b111_0011;

/// The value of the low `width` bits of `field` read as a two's-complement number.
pub open spec fn sign_extend(field: u32, width: nat) -> int {
    if (field as int) < pow2((width - 1) as nat) {
        field as int
    } else {
        field as int - pow2(width)
    }
}

pub open spec fn opcode_of(w: u32) -> u8 {
    (w & 0x7f) as u8
}

pub open spec fn funct3_of(w: u32) -> u8 {
    ((w >> 12) & 0x7) as u8
}

pub open spec fn funct7_of(w: u32) -> u8 {
    ((w >> 25) & 0x7f) as u8
}

pub open spec fn rd_of(w: u32) -> u8 {
    ((w >> 7) & 0x1f) as u8
}

pub open spec fn rs1_of(w: u32) -> u8 {
    ((w >> 15) & 0x1f) as u8
}

pub open spec fn rs2_of(w: u32) -> u8 {
    ((w >> 20) & 0x1f) as u8
}

/// The 12 immediate bits of an I-type word, `bits[31:20]`.
pub open spec fn i_field(w: u32) -> u32 {
    w >> 20
}

/// The 12 immediate bits of an S-type word, `{bits[31:25], bits[11:7]}`.
pub open spec fn s_field(w: u32) -> u32 {
    ((w >> 25) << 5) | ((w >> 7) & 0x1f)
}

/// The 13 immediate bits of a B-type word, `{bit31, bit7, bits[30:25], bits[11:8], 0}`.
pub open spec fn b_field(w: u32) -> u32 {
    ((w >> 31) << 12) | (((w >> 7) & 0x1) << 11) | (((w >> 25) & 0x3f) << 5) | (((w >> 8) & 0xf)
        << 1)
}

/// The 21 immediate bits of a J-type word, `{bit31, bits[19:12], bit20, bits[30:21], 0}`.
pub open spec fn j_field(w: u32) -> u32 {
    ((w >> 31) << 20) | (((w >> 12) & 0xff) << 12) | (((w >> 20) & 0x1) << 11) | (((w >> 21)
        & 0x3ff) << 1)
}

pub open spec fn i_imm(w: u32) -> i32 {
    sign_extend(i_field(w), 12) as i32
}

pub open spec fn s_imm(w: u32) -> i32 {
    sign_extend(s_field(w), 12) as i32
}

pub open spec fn b_imm(w: u32) -> i32 {
    sign_extend(b_field(w), 13) as i32
}

pub open spec fn j_imm(w: u32) -> i32 {
    sign_extend(j_field(w), 21) as i32
}

/// The U-type immediate, `bits[31:12] << 12`.
pub open spec fn u_imm(w: u32) -> u32 {
    w & 0xffff_f000
}

proof fn lemma_i_imm(w: u32)
    ensures
        ((w as i32) >> 20) as int == sign_extend(i_field(w), 12),
        sign_extend(i_field(w), 12) == i_imm(w) as int,
{
    lemma2_to64();
    assert((w >> 20) < 0x1000u32 && ((w >> 20) < 0x800u32 ==> ((w as i32) >> 20) == (w
        >> 20) as i32) && ((w >> 20) >= 0x800u32 ==> ((w as i32) >> 20) == ((w >> 20) as i32)
        - 0x1000i32)) by (bit_vector);
}


proof fn lemma_s_imm(w: u32)
    ensures
        ((((w & 0xfe00_0000) as i32) >> 20) | (((w >> 7) & 0x1f) as i32)) as int == sign_extend(
            s_field(w),
            12,
        ),
        sign_extend(s_field(w), 12) == s_imm(w) as int,
{
    lemma2_to64();
    let v = (((w & 0xfe00_0000) as i32) >> 20) | (((w >> 7) & 0x1f) as i32);
    let f = s_field(w);
    assert(f < 0x1000u32 && (f < 0x800u32 ==> v == f as i32) && (f >= 0x800u32 ==> v == (f as i32)
        - 0x1000i32)) by (bit_vector)
        requires
            v == (((w & 0xfe00_0000) as i32) >> 20) | (((w >> 7) & 0x1f) as i32),
            f == ((w >> 25) << 5) | ((w >> 7) & 0x1f),
    ;
}

proof fn lemma_b_imm(w: u32)
    ensures
        ((((w & 0x8000_0000) as i32) >> 19) | (((w & 0x80) << 4) as i32) | (((w >> 20) & 0x7e0)
            as i32) | (((w >> 7) & 0x1e) as i32)) as int == sign_extend(b_field(w), 13),
        sign_extend(b_field(w), 13) == b_imm(w) as int,
{
    lemma2_to64();
    let v = (((w & 0x8000_0000) as i32) >> 19) | (((w & 0x80) << 4) as i32) | (((w >> 20)
        & 0x7e0) as i32) | (((w >> 7) & 0x1e) as i32);
    let f = b_field(w);
    assert(f < 0x2000u32 && (f < 0x1000u32 ==> v == f as i32) && (f >= 0x1000u32 ==> v == (
    f as i32) - 0x2000i32)) by (bit_vector)
        requires
            v == (((w & 0x8000_0000) as i32) >> 19) | (((w & 0x80) << 4) as i32) | (((w >> 20)
                & 0x7e0) as i32) | (((w >> 7) & 0x1e) as i32),
            f == ((w >> 31) << 12) | (((w >> 7) & 0x1) << 11) | (((w >> 25) & 0x3f) << 5) | (((w
                >> 8) & 0xf) << 1),
    ;
}

proof fn lemma_j_imm(w: u32)
    ensures
        ((((w & 0x8000_0000) as i32) >> 11) | ((w & 0xf_f000) as i32) | (((w >> 9) & 0x800)
            as i32) | (((w >> 20) & 0x7fe) as i32)) as int == sign_extend(j_field(w), 21),
        sign_extend(j_field(w), 21) == j_imm(w) as int,
{
    lemma2_to64();
    let v = (((w & 0x8000_0000) as i32) >> 11) | ((w & 0xf_f000) as i32) | (((w >> 9) & 0x800)
        as i32) | (((w >> 20) & 0x7fe) as i32);
    let f = j_field(w);
    assert(f < 0x20_0000u32 && (f < 0x10_0000u32 ==> v == f as i32) && (f >= 0x10_0000u32 ==> v
        == (f as i32) - 0x20_0000i32)) by (bit_vector)
        requires
            v == (((w & 0x8000_0000) as i32) >> 11) | ((w & 0xf_f000) as i32) | (((w >> 9)
                & 0x800) as i32) | (((w >> 20) & 0x7fe) as i32),
            f == ((w >> 31) << 20) | (((w >> 12) & 0xff) << 12) | (((w >> 20) & 0x1) << 11) | (((w
                >> 21) & 0x3ff) << 1),
    ;
}


pub(crate) proof fn lemma_small_fields(w: u32)
    ensures
        (w & 0x7f) < 128,
        ((w >> 12) & 0x7) < 8,
        ((w >> 25) & 0x7f) < 128,
        ((w >> 7) & 0x1f) < 32,
        ((w >> 15) & 0x1f) < 32,
        ((w >> 20) & 0x1f) < 32,
        w >> 20 < 4096,
{
    assert((w & 0x7f) < 128 && ((w >> 12) & 0x7) < 8 && ((w >> 25) & 0x7f) < 128 && ((w >> 7)
        & 0x1f) < 32 && ((w >> 15) & 0x1f) < 32 && ((w >> 20) & 0x1f) < 32 && w >> 20 < 4096)
        by (bit_vector);
}

/// A privilege level of the hart.
#[derive(Debug, Clone, Copy, PartialEq, Eq, Structural)]
pub enum PrivilegeMode {
    User,
    Supervisor,
    Machine,
}

impl PrivilegeMode {
    /// The two-bit encoding: 0b00, 0b01 and 0b11.
    pub open spec fn spec_bits(self) -> u32 {
        match self {
            PrivilegeMode::User => 0,
            PrivilegeMode::Supervisor => 1,
            PrivilegeMode::Machine => 3,
        }
    }

    /// The mode that the low two bits of `b` encode; the reserved pattern 0b10 reads as User.
    pub open spec fn spec_from_bits(b: u32) -> PrivilegeMode {
        let v = b & 3;
        if v == 3 {
            PrivilegeMode::Machine
        } else if v == 1 {
            PrivilegeMode::Supervisor
        } else {
            PrivilegeMode::User
        }
    }

    pub fn bits(&self) -> (r: u32)
        ensures
            r == self.spec_bits(),
    {
        match self {
            PrivilegeMode::User => 0,
            PrivilegeMode::Supervisor => 1,
            PrivilegeMode::Machine => 3,
        }
    }

    pub fn from_bits(b: u32) -> (r: PrivilegeMode)
        ensures
            r == PrivilegeMode::spec_from_bits(b),
    {
        let v = b & 3;
        if v == 3 {
            PrivilegeMode::Machine
        } else if v == 1 {
            PrivilegeMode::Supervisor
        } else {
            PrivilegeMode::User
        }
    }
}

/// Decoding the encoding of a mode gives the mode back.
pub proof fn lemma_privilege_bits_round_trip(m: PrivilegeMode)
    ensures
        PrivilegeMode::spec_from_bits(m.spec_bits()) == m,
{
    assert(0u32 & 3 == 0 && 1u32 & 3 == 1 && 3u32 & 3 == 3) by (bit_vector);
}

/// A raw 32-bit instruction word.
#[derive(Debug, Clone, Copy, PartialEq, Eq, Structural)]
pub struct Instr(pub u32);

impl Instr {
    pub fn new(word: u32) -> (r: Instr)
        ensures
            r.0 == word,
    {
        Instr(word)
    }

    pub fn word(&self) -> (r: u32)
        ensures
            r == self.0,
    {
        self.0
    }

    pub fn opcode(&self) -> (r: u8)
        ensures
            r == opcode_of(self.0),
            r < 128,
    {
        proof {
            lemma_small_fields(self.0);
        }
        (self.0 & 0x7f) as u8
    }

    pub fn funct3(&self) -> (r: u8)
        ensures
            r == funct3_of(self.0),
            r < 8,
    {
        proof {
            lemma_small_fields(self.0);
        }
        ((self.0 >> 12) & 0x7) as u8
    }

    pub fn funct7(&self) -> (r: u8)
        ensures
            r == funct7_of(self.0),
            r < 128,
    {
        proof {
            lemma_small_fields(self.0);
        }
        ((self.0 >> 25) & 0x7f) as u8
    }

    pub fn rd(&self) -> (r: u8)
        ensures
            r == rd_of(self.0),
            r < 32,
    {
        proof {
            lemma_small_fields(self.0);
        }
        ((self.0 >> 7) & 0x1f) as u8
    }

    pub fn rs1(&self) -> (r: u8)
        ensures
            r == rs1_of(self.0),
            r < 32,
    {
        proof {
            lemma_small_fields(self.0);
        }
        ((self.0 >> 15) & 0x1f) as u8
    }

    pub fn rs2(&self) -> (r: u8)
        ensures
            r == rs2_of(self.0),
            r < 32,
    {
        proof {
            lemma_small_fields(self.0);
        }
        ((self.0 >> 20) & 0x1f) as u8
    }

    pub fn as_i_type(&self) -> (r: IType)
        ensures
            r.0 == *self,
    {
        IType(*self)
    }

    pub fn as_r_type(&self) -> (r: RType)
        ensures
            r.0 == *self,
    {
        RType(*self)
    }

    pub fn as_s_type(&self) -> (r: SType)
        ensures
            r.0 == *self,
    {
        SType(*self)
    }

    pub fn as_b_type(&self) -> (r: BType)
        ensures
            r.0 == *self,
    {
        BType(*self)
    }

    pub fn as_u_type(&self) -> (r: UType)
        ensures
            r.0 == *self,
    {
        UType(*self)
    }

    pub fn as_j_type(&self) -> (r: JType)
        ensures
            r.0 == *self,
    {
        JType(*self)
    }
}

/// Register-register view of an instruction: `rd`, `rs1`, `rs2`, `funct3`, `funct7`.
#[derive(Debug, Clone, Copy, PartialEq, Eq, Structural)]
pub struct RType(pub Instr);

/// Immediate view of an instruction: `rd`, `rs1` and a 12-bit signed immediate.
#[derive(Debug, Clone, Copy, PartialEq, Eq, Structural)]
pub struct IType(pub Instr);

/// Store view of an instruction: `rs1`, `rs2` and a split 12-bit signed immediate.
#[derive(Debug, Clone, Copy, PartialEq, Eq, Structural)]
pub struct SType(pub Instr);

/// Branch view of an instruction: `rs1`, `rs2` and a 13-bit even signed offset.
#[derive(Debug, Clone, Copy, PartialEq, Eq, Structural)]
pub struct BType(pub Instr);

/// Upper-immediate view of an instruction: `rd` and `bits[31:12] << 12`.
#[derive(Debug, Clone, Copy, PartialEq, Eq, Structural)]
pub struct UType(pub Instr);

/// Jump view of an instruction: `rd` and a 21-bit even signed offset.
#[derive(Debug, Clone, Copy, PartialEq, Eq, Structural)]
pub struct JType(pub Instr);

impl RType {
    pub fn rd(&self) -> (r: u8)
        ensures
            r == rd_of(self.0.0),
            r < 32,
    {
        self.0.rd()
    }

    pub fn rs1(&self) -> (r: u8)
        ensures
            r == rs1_of(self.0.0),
            r < 32,
    {
        self.0.rs1()
    }

    pub fn rs2(&self) -> (r: u8)
        ensures
            r == rs2_of(self.0.0),
            r < 32,
    {
        self.0.rs2()
    }
}

impl IType {
    pub fn rd(&self) -> (r: u8)
        ensures
            r == rd_of(self.0.0),
            r < 32,
    {
        self.0.rd()
    }

    pub fn rs1(&self) -> (r: u8)
        ensures
            r == rs1_of(self.0.0),
            r < 32,
    {
        self.0.rs1()
    }

    /// `bits[31:20]`, sign-extended.
    pub fn imm(&self) -> (r: i32)
        ensures
            r == i_imm(self.0.0),
            r as int == sign_extend(i_field(self.0.0), 12),
    {
        let w = self.0.0;
        proof {
            lemma_i_imm(w);
        }
        (w as i32) >> 20
    }

    /// `bits[31:20]` as an unsigned 12-bit number: a CSR address or a `funct12`.
    pub fn uimm(&self) -> (r: u16)
        ensures
            r as u32 == i_field(self.0.0),
            r == i_field(self.0.0) as u16,
            r < 4096,
    {
        proof {
            lemma_small_fields(self.0.0);
        }
        (self.0.0 >> 20) as u16
    }
}

impl SType {
    pub fn rs1(&self) -> (r: u8)
        ensures
            r == rs1_of(self.0.0),
            r < 32,
    {
        self.0.rs1()
    }

    pub fn rs2(&self) -> (r: u8)
        ensures
            r == rs2_of(self.0.0),
            r < 32,
    {
        self.0.rs2()
    }

    /// `{bits[31:25], bits[11:7]}`, sign-extended from bit 11.
    pub fn imm(&self) -> (r: i32)
        ensures
            r == s_imm(self.0.0),
            r as int == sign_extend(s_field(self.0.0), 12),
    {
        let w = self.0.0;
        proof {
            lemma_s_imm(w);
        }
        (((w & 0xfe00_0000) as i32) >> 20) | (((w >> 7) & 0x1f) as i32)
    }
}

impl BType {
    pub fn rs1(&self) -> (r: u8)
        ensures
            r == rs1_of(self.0.0),
            r < 32,
    {
        self.0.rs1()
    }

    pub fn rs2(&self) -> (r: u8)
        ensures
            r == rs2_of(self.0.0),
            r < 32,
    {
        self.0.rs2()
    }

    /// `{bit31, bit7, bits[30:25], bits[11:8], 0}`, sign-extended from bit 12.
    pub fn imm(&self) -> (r: i32)
        ensures
            r == b_imm(self.0.0),
            r as int == sign_extend(b_field(self.0.0), 13),
    {
        let w = self.0.0;
        proof {
            lemma_b_imm(w);
        }
        (((w & 0x8000_0000) as i32) >> 19) | (((w & 0x80) << 4) as i32) | (((w >> 20) & 0x7e0)
            as i32) | (((w >> 7) & 0x1e) as i32)
    }
}

impl UType {
    pub fn rd(&self) -> (r: u8)
        ensures
            r == rd_of(self.0.0),
            r < 32,
    {
        self.0.rd()
    }

    /// `bits[31:12] << 12`.
    pub fn imm(&self) -> (r: u32)
        ensures
            r == u_imm(self.0.0),
    {
        self.0.0 & 0xffff_f000
    }
}

impl JType {
    pub fn rd(&self) -> (r: u8)
        ensures
            r == rd_of(self.0.0),
            r < 32,
    {
        self.0.rd()
    }

    /// `{bit31, bits[19:12], bit20, bits[30:21], 0}`, sign-extended from bit 20.
    pub fn imm(&self) -> (r: i32)
        ensures
            r == j_imm(self.0.0),
            r as int == sign_extend(j_field(self.0.0), 21),
    {
        let w = self.0.0;
        proof {
            lemma_j_imm(w);
        }
        (((w & 0x8000_0000) as i32) >> 11) | ((w & 0xf_f000) as i32) | (((w >> 9) & 0x800) as i32)
            | (((w >> 20) & 0x7fe) as i32)
    }
}


pub open spec fn encode_r(opcode: u8, rd: u8, funct3: u8, rs1: u8, rs2: u8, funct7: u8) -> u32 {
    (opcode as u32) | ((rd as u32) << 7) | ((funct3 as u32) << 12) | ((rs1 as u32) << 15) | ((
    rs2 as u32) << 20) | ((funct7 as u32) << 25)
}

pub open spec fn encode_i(opcode: u8, rd: u8, funct3: u8, rs1: u8, imm: i32) -> u32 {
    (opcode as u32) | ((rd as u32) << 7) | ((funct3 as u32) << 12) | ((rs1 as u32) << 15) | ((
    imm as u32) << 20)
}

pub open spec fn encode_s(opcode: u8, funct3: u8, rs1: u8, rs2: u8, imm: i32) -> u32 {
    (opcode as u32) | (((imm as u32) & 0x1f) << 7) | ((funct3 as u32) << 12) | ((rs1 as u32)
        << 15) | ((rs2 as u32) << 20) | (((imm as u32) >> 5) << 25)
}

pub open spec fn encode_b(opcode: u8, funct3: u8, rs1: u8, rs2: u8, imm: i32) -> u32 {
    (opcode as u32) | ((((imm as u32) >> 11) & 0x1) << 7) | ((((imm as u32) >> 1) & 0xf) << 8) | ((
    funct3 as u32) << 12) | ((rs1 as u32) << 15) | ((rs2 as u32) << 20) | ((((imm as u32) >> 5)
        & 0x3f) << 25) | ((((imm as u32) >> 12) & 0x1) << 31)
}

pub open spec fn encode_u(opcode: u8, rd: u8, imm: u32) -> u32 {
    (opcode as u32) | ((rd as u32) << 7) | (imm & 0xffff_f000)
}

pub open spec fn encode_j(opcode: u8, rd: u8, imm: i32) -> u32 {
    (opcode as u32) | ((rd as u32) << 7) | ((((imm as u32) >> 12) & 0xff) << 12) | ((((imm as u32)
        >> 11) & 0x1) << 20) | ((((imm as u32) >> 1) & 0x3ff) << 21) | ((((imm as u32) >> 20)
        & 0x1) << 31)
}

/// Decoding an R-type word built from its fields gives those fields back.
pub proof fn lemma_r_type_round_trip(opcode: u8, rd: u8, funct3: u8, rs1: u8, rs2: u8, funct7: u8)
    by (bit_vector)
    requires
        opcode < 128,
        rd < 32,
        funct3 < 8,
        rs1 < 32,
        rs2 < 32,
        funct7 < 128,
    ensures
        opcode_of(encode_r(opcode, rd, funct3, rs1, rs2, funct7)) == opcode,
        rd_of(encode_r(opcode, rd, funct3, rs1, rs2, funct7)) == rd,
        funct3_of(encode_r(opcode, rd, funct3, rs1, rs2, funct7)) == funct3,
        rs1_of(encode_r(opcode, rd, funct3, rs1, rs2, funct7)) == rs1,
        rs2_of(encode_r(opcode, rd, funct3, rs1, rs2, funct7)) == rs2,
        funct7_of(encode_r(opcode, rd, funct3, rs1, rs2, funct7)) == funct7,
{
}

/// Decoding an I-type word built from its fields gives those fields back.
pub proof fn lemma_i_type_round_trip(opcode: u8, rd: u8, funct3: u8, rs1: u8, imm: i32)
    requires
        opcode < 128,
        rd < 32,
        funct3 < 8,
        rs1 < 32,
        -2048 <= imm < 2048,
    ensures
        opcode_of(encode_i(opcode, rd, funct3, rs1, imm)) == opcode,
        rd_of(encode_i(opcode, rd, funct3, rs1, imm)) == rd,
        funct3_of(encode_i(opcode, rd, funct3, rs1, imm)) == funct3,
        rs1_of(encode_i(opcode, rd, funct3, rs1, imm)) == rs1,
        i_imm(encode_i(opcode, rd, funct3, rs1, imm)) == imm,
{
    let w = encode_i(opcode, rd, funct3, rs1, imm);
    lemma_i_imm(w);
    assert(opcode_of(w) == opcode && rd_of(w) == rd && funct3_of(w) == funct3 && rs1_of(w) == rs1
        && ((w as i32) >> 20) == imm) by (bit_vector)
        requires
            w == encode_i(opcode, rd, funct3, rs1, imm),
            opcode < 128,
            rd < 32,
            funct3 < 8,
            rs1 < 32,
            -2048 <= imm < 2048,
    ;
}

/// Decoding an S-type word built from its fields gives those fields back.
pub proof fn lemma_s_type_round_trip(opcode: u8, funct3: u8, rs1: u8, rs2: u8, imm: i32)
    requires
        opcode < 128,
        funct3 < 8,
        rs1 < 32,
        rs2 < 32,
        -2048 <= imm < 2048,
    ensures
        opcode_of(encode_s(opcode, funct3, rs1, rs2, imm)) == opcode,
        funct3_of(encode_s(opcode, funct3, rs1, rs2, imm)) == funct3,
        rs1_of(encode_s(opcode, funct3, rs1, rs2, imm)) == rs1,
        rs2_of(encode_s(opcode, funct3, rs1, rs2, imm)) == rs2,
        s_imm(encode_s(opcode, funct3, rs1, rs2, imm)) == imm,
{
    let w = encode_s(opcode, funct3, rs1, rs2, imm);
    lemma_s_imm(w);
    assert(opcode_of(w) == opcode && funct3_of(w) == funct3 && rs1_of(w) == rs1 && rs2_of(w) == rs2
        && ((((w & 0xfe00_0000) as i32) >> 20) | (((w >> 7) & 0x1f) as i32)) == imm)
        by (bit_vector)
        requires
            w == encode_s(opcode, funct3, rs1, rs2, imm),
            opcode < 128,
            funct3 < 8,
            rs1 < 32,
            rs2 < 32,
            -2048 <= imm < 2048,
    ;
}

/// Decoding a B-type word built from its fields gives those fields back.
pub proof fn lemma_b_type_round_trip(opcode: u8, funct3: u8, rs1: u8, rs2: u8, imm: i32)
    requires
        opcode < 128,
        funct3 < 8,
        rs1 < 32,
        rs2 < 32,
        -4096 <= imm < 4096,
        imm % 2 == 0,
    ensures
        opcode_of(encode_b(opcode, funct3, rs1, rs2, imm)) == opcode,
        funct3_of(encode_b(opcode, funct3, rs1, rs2, imm)) == funct3,
        rs1_of(encode_b(opcode, funct3, rs1, rs2, imm)) == rs1,
        rs2_of(encode_b(opcode, funct3, rs1, rs2, imm)) == rs2,
        b_imm(encode_b(opcode, funct3, rs1, rs2, imm)) == imm,
{
    let w = encode_b(opcode, funct3, rs1, rs2, imm);
    lemma_b_imm(w);
    assert(opcode_of(w) == opcode && funct3_of(w) == funct3 && rs1_of(w) == rs1 && rs2_of(w) == rs2
        && ((((w & 0x8000_0000) as i32) >> 19) | (((w & 0x80) << 4) as i32) | (((w >> 20) & 0x7e0)
        as i32) | (((w >> 7) & 0x1e) as i32)) == imm) by (bit_vector)
        requires
            w == encode_b(opcode, funct3, rs1, rs2, imm),
            opcode < 128,
            funct3 < 8,
            rs1 < 32,
            rs2 < 32,
            -4096 <= imm < 4096,
            imm % 2 == 0,
    ;
}

/// Decoding a U-type word built from its fields gives those fields back.
pub proof fn lemma_u_type_round_trip(opcode: u8, rd: u8, imm: u32)
    by (bit_vector)
    requires
        opcode < 128,
        rd < 32,
        imm & 0xfff == 0,
    ensures
        opcode_of(encode_u(opcode, rd, imm)) == opcode,
        rd_of(encode_u(opcode, rd, imm)) == rd,
        u_imm(encode_u(opcode, rd, imm)) == imm,
{
}

/// Decoding a J-type word built from its fields gives those fields back.
pub proof fn lemma_j_type_round_trip(opcode: u8, rd: u8, imm: i32)
    requires
        opcode < 128,
        rd < 32,
        -0x10_0000 <= imm < 0x10_0000,
        imm % 2 == 0,
    ensures
        opcode_of(encode_j(opcode, rd, imm)) == opcode,
        rd_of(encode_j(opcode, rd, imm)) == rd,
        j_imm(encode_j(opcode, rd, imm)) == imm,
{
    let w = encode_j(opcode, rd, imm);
    lemma_j_imm(w);
    assert(opcode_of(w) == opcode && rd_of(w) == rd && ((((w & 0x8000_0000) as i32) >> 11) | ((w
        & 0xf_f000) as i32) | (((w >> 9) & 0x800) as i32) | (((w >> 20) & 0x7fe) as i32)) == imm)
        by (bit_vector)
        requires
            w == encode_j(opcode, rd, imm),
            opcode < 128,
            rd < 32,
            -0x10_0000 <= imm < 0x10_0000,
            imm % 2 == 0,
    ;
}

} // verus!
