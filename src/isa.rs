use vstd::prelude::*;

verus! {

/// Two-register ALU operations (`rd := rd op rs`).
#[derive(Debug, Clone, Copy, PartialEq, Eq, Structural)]
pub enum ROp {
    Mov,
    Add,
    Sub,
    And,
    Or,
    Xor,
    Sll,
    Srl,
    Sra,
}

/// Operations on two registers and a 5-bit immediate.
#[derive(Debug, Clone, Copy, PartialEq, Eq, Structural)]
pub enum I5Op {
    Addi,
    Subi,
    Beq,
    Bnq,
    Blt,
    Bge,
    Bltu,
    Bgeu,
    Jalr,
    Lh,
    Lhu,
    Lw,
    Sh,
    Sw,
}

/// Operations on one register and an 8-bit immediate.
#[derive(Debug, Clone, Copy, PartialEq, Eq, Structural)]
pub enum I8Op {
    Jal,
    Lil,
    Lih,
}

/// Stack and control-register operations on one register.
#[derive(Debug, Clone, Copy, PartialEq, Eq, Structural)]
pub enum C1Op {
    Push,
    Pop,
    Rpc,
    Rsp,
    Rpsr,
    Rtlr,
    Rthr,
    Rppc,
    Rppsr,
    Wsp,
    Wpsr,
    Wtlr,
    Wthr,
    Wppc,
    Wppsr,
}

/// Control operations without operands.
#[derive(Debug, Clone, Copy, PartialEq, Eq, Structural)]
pub enum C2Op {
    Rfi,
    Rtr,
    Wtr,
}

/// A decoded instruction word, one variant per operand shape.
#[derive(Debug, Clone, Copy, PartialEq, Eq, Structural)]
#[allow(inconsistent_fields)]
pub enum Instruction {
    R { op: ROp, rd: u8, rs: u8 },
    /// `imm` holds the raw five immediate bits.
    I5 { op: I5Op, rd: u8, rs: u8, imm: u16 },
    /// `imm` holds the raw eight immediate bits.
    I8 { op: I8Op, rd: u8, imm: u16 },
    C1 { op: C1Op, rd: u8 },
    C2 { op: C2Op },
    Trap,
}

/// Bits 0-4: the instruction class.
pub open spec fn opcode_of(word: u16) -> u16 {
    word % 32
}

/// Bits 5-7: the destination register.
pub open spec fn rd_of(word: u16) -> u8 {
    ((word / 32) % 8) as u8
}

/// Bits 8-10: the source register.
pub open spec fn rs_of(word: u16) -> u8 {
    ((word / 256) % 8) as u8
}

/// Bits 11-15: the function selector, or the 5-bit immediate.
pub open spec fn func_of(word: u16) -> u16 {
    word / 2048
}

/// Bits 8-15: the 8-bit immediate.
pub open spec fn imm8_of(word: u16) -> u16 {
    word / 256
}

/// A 5-bit immediate sign-extended.
pub open spec fn sign_extend5(imm: u16) -> i16 {
    if imm < 16 {
        imm as i16
    } else {
        (imm - 32) as i16
    }
}

/// An 8-bit immediate sign-extended.
pub open spec fn sign_extend8(imm: u16) -> i16 {
    if imm < 128 {
        imm as i16
    } else {
        (imm - 256) as i16
    }
}

/// The R operation that a function selector names.
pub open spec fn r_op_of(func: u16) -> Option<ROp> {
    match func {
        1 => Some(ROp::Mov),
        2 => Some(ROp::Add),
        3 => Some(ROp::Sub),
        4 => Some(ROp::And),
        5 => Some(ROp::Or),
        6 => Some(ROp::Xor),
        7 => Some(ROp::Sll),
        8 => Some(ROp::Srl),
        9 => Some(ROp::Sra),
        _ => None,
    }
}

/// The I5 operation that an opcode names.
pub open spec fn i5_op_of(opcode: u16) -> Option<I5Op> {
    match opcode {
        1 => Some(I5Op::Addi),
        2 => Some(I5Op::Subi),
        3 => Some(I5Op::Beq),
        4 => Some(I5Op::Bnq),
        5 => Some(I5Op::Blt),
        6 => Some(I5Op::Bge),
        7 => Some(I5Op::Bltu),
        8 => Some(I5Op::Bgeu),
        9 => Some(I5Op::Jalr),
        10 => Some(I5Op::Lh),
        11 => Some(I5Op::Lhu),
        12 => Some(I5Op::Lw),
        13 => Some(I5Op::Sh),
        14 => Some(I5Op::Sw),
        _ => None,
    }
}

/// The I8 operation that an opcode names.
pub open spec fn i8_op_of(opcode: u16) -> Option<I8Op> {
    match opcode {
        16 => Some(I8Op::Jal),
        17 => Some(I8Op::Lil),
        18 => Some(I8Op::Lih),
        _ => None,
    }
}

/// The C1 operation that a function selector names.
pub open spec fn c1_op_of(func: u16) -> Option<C1Op> {
    match func {
        1 => Some(C1Op::Push),
        2 => Some(C1Op::Pop),
        3 => Some(C1Op::Rpc),
        4 => Some(C1Op::Rsp),
        5 => Some(C1Op::Rpsr),
        6 => Some(C1Op::Rtlr),
        7 => Some(C1Op::Rthr),
        8 => Some(C1Op::Rppc),
        9 => Some(C1Op::Rppsr),
        10 => Some(C1Op::Wsp),
        11 => Some(C1Op::Wpsr),
        12 => Some(C1Op::Wtlr),
        13 => Some(C1Op::Wthr),
        14 => Some(C1Op::Wppc),
        15 => Some(C1Op::Wppsr),
        _ => None,
    }
}

/// The C2 operation that a function selector names.
pub open spec fn c2_op_of(func: u16) -> Option<C2Op> {
    match func {
        1 => Some(C2Op::Rfi),
        2 => Some(C2Op::Rtr),
        3 => Some(C2Op::Wtr),
        _ => None,
    }
}

/// The instruction that `word` encodes, if any.
pub open spec fn decode_spec(word: u16) -> Option<Instruction> {
    let opcode = opcode_of(word);
    let func = func_of(word);
    let rd = rd_of(word);
    let rs = rs_of(word);
    if opcode == 0 {
        match r_op_of(func) {
            Some(op) => Some(Instruction::R { op, rd, rs }),
            None => None,
        }
    } else if opcode == 30 {
        match c1_op_of(func) {
            Some(op) => Some(Instruction::C1 { op, rd }),
            None => None,
        }
    } else if opcode == 31 {
        match c2_op_of(func) {
            Some(op) => Some(Instruction::C2 { op }),
            None => if word == 0xFFFF {
                Some(Instruction::Trap)
            } else {
                None
            },
        }
    } else {
        match i5_op_of(opcode) {
            Some(op) => Some(Instruction::I5 { op, rd, rs, imm: func }),
            None => match i8_op_of(opcode) {
                Some(op) => Some(Instruction::I8 { op, rd, imm: imm8_of(word) }),
                None => None,
            },
        }
    }
}

impl Instruction {
    /// Register numbers name one of the eight registers and immediates fit their fields.
    pub open spec fn wf(self) -> bool {
        match self {
            Instruction::R { rd, rs, .. } => rd < 8 && rs < 8,
            Instruction::I5 { rd, rs, imm, .. } => rd < 8 && rs < 8 && imm < 32,
            Instruction::I8 { rd, imm, .. } => rd < 8 && imm < 256,
            Instruction::C1 { rd, .. } => rd < 8,
            _ => true,
        }
    }
}

fn r_op(func: u16) -> (r: Option<ROp>)
    ensures
        r == r_op_of(func),
{
    match func {
        1 => Some(ROp::Mov),
        2 => Some(ROp::Add),
        3 => Some(ROp::Sub),
        4 => Some(ROp::And),
        5 => Some(ROp::Or),
        6 => Some(ROp::Xor),
        7 => Some(ROp::Sll),
        8 => Some(ROp::Srl),
        9 => Some(ROp::Sra),
        _ => None,
    }
}

fn i5_op(opcode: u16) -> (r: Option<I5Op>)
    ensures
        r == i5_op_of(opcode),
{
    match opcode {
        1 => Some(I5Op::Addi),
        2 => Some(I5Op::Subi),
        3 => Some(I5Op::Beq),
        4 => Some(I5Op::Bnq),
        5 => Some(I5Op::Blt),
        6 => Some(I5Op::Bge),
        7 => Some(I5Op::Bltu),
        8 => Some(I5Op::Bgeu),
        9 => Some(I5Op::Jalr),
        10 => Some(I5Op::Lh),
        11 => Some(I5Op::Lhu),
        12 => Some(I5Op::Lw),
        13 => Some(I5Op::Sh),
        14 => Some(I5Op::Sw),
        _ => None,
    }
}

fn i8_op(opcode: u16) -> (r: Option<I8Op>)
    ensures
        r == i8_op_of(opcode),
{
    match opcode {
        16 => Some(I8Op::Jal),
        17 => Some(I8Op::Lil),
        18 => Some(I8Op::Lih),
        _ => None,
    }
}

fn c1_op(func: u16) -> (r: Option<C1Op>)
    ensures
        r == c1_op_of(func),
{
    match func {
        1 => Some(C1Op::Push),
        2 => Some(C1Op::Pop),
        3 => Some(C1Op::Rpc),
        4 => Some(C1Op::Rsp),
        5 => Some(C1Op::Rpsr),
        6 => Some(C1Op::Rtlr),
        7 => Some(C1Op::Rthr),
        8 => Some(C1Op::Rppc),
        9 => Some(C1Op::Rppsr),
        10 => Some(C1Op::Wsp),
        11 => Some(C1Op::Wpsr),
        12 => Some(C1Op::Wtlr),
        13 => Some(C1Op::Wthr),
        14 => Some(C1Op::Wppc),
        15 => Some(C1Op::Wppsr),
        _ => None,
    }
}

fn c2_op(func: u16) -> (r: Option<C2Op>)
    ensures
        r == c2_op_of(func),
{
    match func {
        1 => Some(C2Op::Rfi),
        2 => Some(C2Op::Rtr),
        3 => Some(C2Op::Wtr),
        _ => None,
    }
}

impl ROp {
    /// The assembler name of the operation.
    pub open spec fn mnemonic_spec(self) -> Seq<char> {
        match self {
            ROp::Mov => "mov"@,
            ROp::Add => "add"@,
            ROp::Sub => "sub"@,
            ROp::And => "and"@,
            ROp::Or => "or"@,
            ROp::Xor => "xor"@,
            ROp::Sll => "sll"@,
            ROp::Srl => "srl"@,
            ROp::Sra => "sra"@,
        }
    }

    pub fn mnemonic(&self) -> (r: &'static str)
        ensures
            r@ == self.mnemonic_spec(),
    {
        match self {
            ROp::Mov => "mov",
            ROp::Add => "add",
            ROp::Sub => "sub",
            ROp::And => "and",
            ROp::Or => "or",
            ROp::Xor => "xor",
            ROp::Sll => "sll",
            ROp::Srl => "srl",
            ROp::Sra => "sra",
        }
    }
}

impl I5Op {
    /// The assembler name of the operation.
    pub open spec fn mnemonic_spec(self) -> Seq<char> {
        match self {
            I5Op::Addi => "addi"@,
            I5Op::Subi => "subi"@,
            I5Op::Beq => "beq"@,
            I5Op::Bnq => "bnq"@,
            I5Op::Blt => "blt"@,
            I5Op::Bge => "bge"@,
            I5Op::Bltu => "bltu"@,
            I5Op::Bgeu => "bgeu"@,
            I5Op::Jalr => "jalr"@,
            I5Op::Lh => "lh"@,
            I5Op::Lhu => "lhu"@,
            I5Op::Lw => "lw"@,
            I5Op::Sh => "sh"@,
            I5Op::Sw => "sw"@,
        }
    }

    pub fn mnemonic(&self) -> (r: &'static str)
        ensures
            r@ == self.mnemonic_spec(),
    {
        match self {
            I5Op::Addi => "addi",
            I5Op::Subi => "subi",
            I5Op::Beq => "beq",
            I5Op::Bnq => "bnq",
            I5Op::Blt => "blt",
            I5Op::Bge => "bge",
            I5Op::Bltu => "bltu",
            I5Op::Bgeu => "bgeu",
            I5Op::Jalr => "jalr",
            I5Op::Lh => "lh",
            I5Op::Lhu => "lhu",
            I5Op::Lw => "lw",
            I5Op::Sh => "sh",
            I5Op::Sw => "sw",
        }
    }
}

impl I8Op {
    /// The assembler name of the operation.
    pub open spec fn mnemonic_spec(self) -> Seq<char> {
        match self {
            I8Op::Jal => "jal"@,
            I8Op::Lil => "lil"@,
            I8Op::Lih => "lih"@,
        }
    }

    pub fn mnemonic(&self) -> (r: &'static str)
        ensures
            r@ == self.mnemonic_spec(),
    {
        match self {
            I8Op::Jal => "jal",
            I8Op::Lil => "lil",
            I8Op::Lih => "lih",
        }
    }
}

impl C1Op {
    /// The assembler name of the operation.
    pub open spec fn mnemonic_spec(self) -> Seq<char> {
        match self {
            C1Op::Push => "push"@,
            C1Op::Pop => "pop"@,
            C1Op::Rpc => "rpc"@,
            C1Op::Rsp => "rsp"@,
            C1Op::Rpsr => "rpsr"@,
            C1Op::Rtlr => "rtlr"@,
            C1Op::Rthr => "rthr"@,
            C1Op::Rppc => "rppc"@,
            C1Op::Rppsr => "rppsr"@,
            C1Op::Wsp => "wsp"@,
            C1Op::Wpsr => "wpsr"@,
            C1Op::Wtlr => "wtlr"@,
            C1Op::Wthr => "wthr"@,
            C1Op::Wppc => "wppc"@,
            C1Op::Wppsr => "wppsr"@,
        }
    }

    pub fn mnemonic(&self) -> (r: &'static str)
        ensures
            r@ == self.mnemonic_spec(),
    {
        match self {
            C1Op::Push => "push",
            C1Op::Pop => "pop",
            C1Op::Rpc => "rpc",
            C1Op::Rsp => "rsp",
            C1Op::Rpsr => "rpsr",
            C1Op::Rtlr => "rtlr",
            C1Op::Rthr => "rthr",
            C1Op::Rppc => "rppc",
            C1Op::Rppsr => "rppsr",
            C1Op::Wsp => "wsp",
            C1Op::Wpsr => "wpsr",
            C1Op::Wtlr => "wtlr",
            C1Op::Wthr => "wthr",
            C1Op::Wppc => "wppc",
            C1Op::Wppsr => "wppsr",
        }
    }
}

impl C2Op {
    /// The assembler name of the operation.
    pub open spec fn mnemonic_spec(self) -> Seq<char> {
        match self {
            C2Op::Rfi => "rfi"@,
            C2Op::Rtr => "rtr"@,
            C2Op::Wtr => "wtr"@,
        }
    }

    pub fn mnemonic(&self) -> (r: &'static str)
        ensures
            r@ == self.mnemonic_spec(),
    {
        match self {
            C2Op::Rfi => "rfi",
            C2Op::Rtr => "rtr",
            C2Op::Wtr => "wtr",
        }
    }
}

/// An instruction as the debugger shows it: its mnemonic and operands.
pub enum InstInfo {
    R { mnemonic: String, rd: u8, rs: u8 },
    I5 { mnemonic: String, rd: u8, rs: u8, imm: Option<u16>, imm_sext: Option<i16> },
    I8 { mnemonic: String, rd: u8, rs: u8, imm: Option<u16>, imm_sext: Option<i16> },
    C1 { mnemonic: String, rd: u8 },
    C2 { mnemonic: String },
    Trap { mnemonic: String },
}

impl Instruction {
    /// True when `info` shows this instruction: its mnemonic, its registers, and its
    /// immediate zero-extended (`addi`, `subi`, `lil`, `lih`) or sign-extended (the others).
    pub open spec fn shown_as(self, info: InstInfo) -> bool {
        match (self, info) {
            (Instruction::R { op, rd, rs }, InstInfo::R { mnemonic, rd: d, rs: s }) => mnemonic@
                == op.mnemonic_spec() && d == rd && s == rs,
            (
                Instruction::I5 { op, rd, rs, imm },
                InstInfo::I5 { mnemonic, rd: d, rs: s, imm: i, imm_sext: x },
            ) => mnemonic@ == op.mnemonic_spec() && d == rd && s == rs && if op == I5Op::Addi
                || op == I5Op::Subi {
                i == Some(imm) && x is None
            } else {
                i is None && x == Some(sign_extend5(imm))
            },
            (
                Instruction::I8 { op, rd, imm },
                InstInfo::I8 { mnemonic, rd: d, rs: s, imm: i, imm_sext: x },
            ) => mnemonic@ == op.mnemonic_spec() && d == rd && s == imm % 8 && if op == I8Op::Jal {
                i is None && x == Some(sign_extend8(imm))
            } else {
                i == Some(imm) && x is None
            },
            (Instruction::C1 { op, rd }, InstInfo::C1 { mnemonic, rd: d }) => mnemonic@
                == op.mnemonic_spec() && d == rd,
            (Instruction::C2 { op }, InstInfo::C2 { mnemonic }) => mnemonic@ == op.mnemonic_spec(),
            (Instruction::Trap, InstInfo::Trap { mnemonic }) => mnemonic@ == "trap"@,
            _ => false,
        }
    }

    /// How the debugger shows this instruction.
    pub fn info(&self) -> (r: InstInfo)
        requires
            self.wf(),
        ensures
            self.shown_as(r),
    {
        match *self {
            Instruction::R { op, rd, rs } => InstInfo::R { mnemonic: op.mnemonic().to_string(), rd, rs },
            Instruction::I5 { op, rd, rs, imm } => {
                let mnemonic = op.mnemonic().to_string();
                if op == I5Op::Addi || op == I5Op::Subi {
                    InstInfo::I5 { mnemonic, rd, rs, imm: Some(imm), imm_sext: None }
                } else {
                    InstInfo::I5 { mnemonic, rd, rs, imm: None, imm_sext: Some(sign_extend_imm5(imm)) }
                }
            },
            Instruction::I8 { op, rd, imm } => {
                let mnemonic = op.mnemonic().to_string();
                let rs = (imm % 8) as u8;
                if op == I8Op::Jal {
                    InstInfo::I8 { mnemonic, rd, rs, imm: None, imm_sext: Some(sign_extend_imm8(imm)) }
                } else {
                    InstInfo::I8 { mnemonic, rd, rs, imm: Some(imm), imm_sext: None }
                }
            },
            Instruction::C1 { op, rd } => InstInfo::C1 { mnemonic: op.mnemonic().to_string(), rd },
            Instruction::C2 { op } => InstInfo::C2 { mnemonic: op.mnemonic().to_string() },
            Instruction::Trap => InstInfo::Trap { mnemonic: "trap".to_string() },
        }
    }
}

/// Decodes an instruction word; `None` for an encoding that names no instruction.
pub fn decode(word: u16) -> (r: Option<Instruction>)
    ensures
        r == decode_spec(word),
        r matches Some(inst) ==> inst.wf(),
{
    let opcode = word % 32;
    let func = word / 2048;
    let rd = ((word / 32) % 8) as u8;
    let rs = ((word / 256) % 8) as u8;
    if opcode == 0 {
        match r_op(func) {
            Some(op) => Some(Instruction::R { op, rd, rs }),
            None => None,
        }
    } else if opcode == 30 {
        match c1_op(func) {
            Some(op) => Some(Instruction::C1 { op, rd }),
            None => None,
        }
    } else if opcode == 31 {
        match c2_op(func) {
            Some(op) => Some(Instruction::C2 { op }),
            None => if word == 0xFFFF {
                Some(Instruction::Trap)
            } else {
                None
            },
        }
    } else {
        match i5_op(opcode) {
            Some(op) => Some(Instruction::I5 { op, rd, rs, imm: func }),
            None => match i8_op(opcode) {
                Some(op) => Some(Instruction::I8 { op, rd, imm: word / 256 }),
                None => None,
            },
        }
    }
}

/// Sign-extends a 5-bit immediate.
pub fn sign_extend_imm5(imm: u16) -> (r: i16)
    requires
        imm < 32,
    ensures
        r == sign_extend5(imm),
{
    if imm < 16 {
        imm as i16
    } else {
        imm as i16 - 32
    }
}

/// Sign-extends an 8-bit immediate.
pub fn sign_extend_imm8(imm: u16) -> (r: i16)
    requires
        imm < 256,
    ensures
        r == sign_extend8(imm),
{
    if imm < 128 {
        imm as i16
    } else {
        imm as i16 - 256
    }
}

} // verus!
