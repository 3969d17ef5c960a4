use vstd::prelude::*;

use crate::cpu::{reset_state, wrap16, Cpu, CpuState};
use crate::isa::{
    decode, decode_spec, sign_extend5, sign_extend8, sign_extend_imm5, sign_extend_imm8, C1Op,
    C2Op, I5Op, I8Op, Instruction, ROp,
};
use crate::memory::{read_result, written, zero_padded, Memory, MemoryError, RAM_SIZE, ROM_SIZE};

verus! {

/// Errors that stop a step of the emulator.
#[derive(Debug, Clone, Copy, PartialEq, Eq, Structural)]
pub enum Error {
    MemoryError(MemoryError),
    UnknownInstruction(u16),
    DebugInterrupt(),
    EmulatorExit(),
}

/// The mathematical state of the machine: registers and the 64 KiB address space.
pub ghost struct MachineState {
    pub cpu: CpuState,
    pub mem: Seq<u8>,
}

/// A successful outcome that leaves memory alone and sets the registers to `cpu`.
pub open spec fn ok(s: MachineState, cpu: CpuState) -> (MachineState, Result<(), Error>) {
    (MachineState { cpu, ..s }, Ok(()))
}

/// The value an R operation computes from `rd`'s value `a` and `rs`'s value `b`.
pub open spec fn alu(op: ROp, a: u16, b: u16) -> u16 {
    match op {
        ROp::Mov => b,
        ROp::Add => wrap16(a + b),
        ROp::Sub => wrap16(a - b),
        ROp::And => a & b,
        ROp::Or => a | b,
        ROp::Xor => a ^ b,
        ROp::Sll => a << (b % 16),
        ROp::Srl => a >> (b % 16),
        ROp::Sra => ((a as i16) >> (b % 16)) as u16,
    }
}

/// The effective address `rs + imm` of a load or a store.
pub open spec fn effective_address(cpu: CpuState, rs: u8, imm: u16) -> u16 {
    wrap16(cpu.reg(rs) + sign_extend5(imm))
}

/// The outcome of a load of `address` into `rd`; `low_only` keeps the low byte of the word.
pub open spec fn load(
    s: MachineState,
    rd: u8,
    address: u16,
    half: bool,
    low_only: bool,
) -> (MachineState, Result<(), Error>) {
    match read_result(s.mem, address, half) {
        Ok(v) => (
            MachineState {
                cpu: s.cpu.with_reg(
                    rd,
                    if low_only {
                        v % 256
                    } else {
                        v
                    },
                ),
                ..s
            },
            Ok(()),
        ),
        Err(e) => (s, Err(Error::MemoryError(e))),
    }
}

/// The outcome of a store of `data` at `address`.
pub open spec fn store(s: MachineState, address: u16, data: u16, half: bool) -> (
    MachineState,
    Result<(), Error>,
) {
    match read_result(s.mem, address, half) {
        Ok(_) => (MachineState { mem: written(s.mem, address, data, half), ..s }, Ok(())),
        Err(e) => (s, Err(Error::MemoryError(e))),
    }
}

/// The outcome of an I5 instruction.
pub open spec fn execute_i5(s: MachineState, op: I5Op, rd: u8, rs: u8, imm: u16) -> (
    MachineState,
    Result<(), Error>,
) {
    let c = s.cpu;
    let offset = sign_extend5(imm);
    let address = effective_address(c, rs, imm);
    match op {
        I5Op::Addi => ok(s, c.with_reg(rd, wrap16(c.reg(rs) + imm))),
        I5Op::Subi => ok(s, c.with_reg(rd, wrap16(c.reg(rs) - imm))),
        I5Op::Beq => ok(s, c.branch(c.reg(rd) == c.reg(rs), offset)),
        I5Op::Bnq => ok(s, c.branch(c.reg(rd) != c.reg(rs), offset)),
        I5Op::Blt => ok(s, c.branch((c.reg(rd) as i16) < (c.reg(rs) as i16), offset)),
        I5Op::Bge => ok(s, c.branch((c.reg(rd) as i16) >= (c.reg(rs) as i16), offset)),
        I5Op::Bltu => ok(s, c.branch(c.reg(rd) < c.reg(rs), offset)),
        I5Op::Bgeu => ok(s, c.branch(c.reg(rd) >= c.reg(rs), offset)),
        I5Op::Jalr => {
            let linked = c.with_reg(rd, c.pc);
            ok(s, CpuState { pc: wrap16(linked.reg(rs) + offset), ..linked })
        },
        I5Op::Lh => load(s, rd, address, true, false),
        I5Op::Lhu => load(s, rd, address, false, true),
        I5Op::Lw => load(s, rd, address, false, false),
        I5Op::Sh => store(s, address, c.reg(rd), true),
        I5Op::Sw => store(s, address, c.reg(rd), false),
    }
}

/// The value of the control register that a C1 read operation copies, if `op` is one.
pub open spec fn control_read(c: CpuState, op: C1Op) -> Option<u16> {
    match op {
        C1Op::Rpc => Some(c.pc),
        C1Op::Rsp => Some(c.sp),
        C1Op::Rpsr => Some(c.psr),
        C1Op::Rtlr => Some(c.tlr),
        C1Op::Rthr => Some(c.thr),
        C1Op::Rppc => Some(c.ppc),
        C1Op::Rppsr => Some(c.ppsr),
        _ => None,
    }
}

/// The outcome of a C1 instruction.
pub open spec fn execute_c1(s: MachineState, op: C1Op, rd: u8) -> (
    MachineState,
    Result<(), Error>,
) {
    let c = s.cpu;
    let v = c.reg(rd);
    match op {
        C1Op::Push => {
            let pushed = MachineState { cpu: CpuState { sp: wrap16(c.sp - 2), ..c }, ..s };
            store(pushed, pushed.cpu.sp, v, false)
        },
        C1Op::Pop => match read_result(s.mem, c.sp, false) {
            Ok(w) => ok(s, CpuState { sp: wrap16(c.sp + 2), ..c.with_reg(rd, w) }),
            Err(e) => (s, Err(Error::MemoryError(e))),
        },
        C1Op::Wsp => ok(s, CpuState { sp: v, ..c }),
        C1Op::Wpsr => ok(s, CpuState { psr: v, ..c }),
        C1Op::Wtlr => ok(s, CpuState { tlr: v, ..c }),
        C1Op::Wthr => ok(s, CpuState { thr: v, ..c }),
        C1Op::Wppc => ok(s, CpuState { ppc: v, ..c }),
        C1Op::Wppsr => ok(s, CpuState { ppsr: v, ..c }),
        _ => ok(s, c.with_reg(rd, control_read(c, op)->Some_0)),
    }
}

/// The outcome of executing a decoded instruction; `pc` already points past it.
pub open spec fn execute_spec(s: MachineState, inst: Instruction) -> (
    MachineState,
    Result<(), Error>,
) {
    let c = s.cpu;
    match inst {
        Instruction::R { op, rd, rs } => ok(s, c.with_reg(rd, alu(op, c.reg(rd), c.reg(rs)))),
        Instruction::I5 { op, rd, rs, imm } => execute_i5(s, op, rd, rs, imm),
        Instruction::I8 { op, rd, imm } => match op {
            I8Op::Jal => ok(s, c.with_reg(rd, c.pc).branch(true, sign_extend8(imm))),
            I8Op::Lil => ok(s, c.with_reg(rd, imm)),
            I8Op::Lih => ok(s, c.with_reg(rd, ((imm % 256) * 256) as u16)),
        },
        Instruction::C1 { op, rd } => execute_c1(s, op, rd),
        Instruction::C2 { op } => match op {
            C2Op::Rfi => ok(s, CpuState { pc: c.ppc, psr: c.ppsr, ..c }),
            C2Op::Rtr => ok(s, 
                CpuState { thr: (c.tr / 0x10000) as u16, tlr: (c.tr % 0x10000) as u16, ..c },
            ),
            C2Op::Wtr => ok(s, CpuState { tr: (c.thr * 0x10000 + c.tlr) as u32, ..c }),
        },
        Instruction::Trap => ok(s, CpuState { ppc: c.pc, ppsr: c.psr, psr: 0x2, pc: 0, ..c }),
    }
}

/// The outcome of one fetch-decode-execute step.
pub open spec fn step_spec(s: MachineState) -> (MachineState, Result<(), Error>) {
    match read_result(s.mem, s.cpu.pc, false) {
        Err(e) => (s, Err(Error::MemoryError(e))),
        Ok(word) => if word == 0 {
            (s, Err(Error::DebugInterrupt()))
        } else {
            let fetched = MachineState { cpu: CpuState { pc: wrap16(s.cpu.pc + 2), ..s.cpu }, ..s };
            match decode_spec(word) {
                Some(inst) => execute_spec(fetched, inst),
                None => (fetched, Err(Error::UnknownInstruction(word))),
            }
        },
    }
}

/// Why a run stopped.
#[derive(Debug, Clone, Copy, PartialEq, Eq, Structural)]
pub enum RunExit {
    /// A step failed; a debug interrupt is the usual end of a program.
    Stopped(Error),
    /// A step ended with `pc` at the break point.
    BreakPoint,
    /// The step budget ran out.
    StepLimit,
}

/// The outcome of stepping at most `fuel` times from `s`, stopping at the first
/// failed step or when `pc` reaches `break_point` after a step.
pub open spec fn run_spec(s: MachineState, break_point: Option<u16>, fuel: nat) -> (
    MachineState,
    RunExit,
)
    decreases fuel,
{
    if fuel == 0 {
        (s, RunExit::StepLimit)
    } else {
        let (next, r) = step_spec(s);
        match r {
            Err(e) => (next, RunExit::Stopped(e)),
            Ok(_) => if break_point == Some(next.cpu.pc) {
                (next, RunExit::BreakPoint)
            } else {
                run_spec(next, break_point, (fuel - 1) as nat)
            },
        }
    }
}

/// The emulated machine: registers, memory and an optional break point.
#[derive(Debug)]
pub struct Zktc {
    cpu: Cpu,
    memory: Memory,
    break_point: Option<u16>,
}

impl View for Zktc {
    type V = MachineState;

    closed spec fn view(&self) -> MachineState {
        MachineState { cpu: self.cpu@, mem: self.memory@ }
    }
}

impl Zktc {
    pub closed spec fn wf(&self) -> bool {
        self.memory.wf()
    }

    pub closed spec fn break_point_spec(&self) -> Option<u16> {
        self.break_point
    }

    /// A well-formed machine has the whole address space.
    pub proof fn lemma_mem_len(&self)
        requires
            self.wf(),
        ensures
            self@.mem.len() == 0x10000,
    {
        self.memory.lemma_view_len();
    }

    /// A machine at power-on with the given ROM and RAM images.
    pub fn new(rom_file: Vec<u8>, ram_file: Vec<u8>) -> (r: Result<Self, Error>)
        ensures
            rom_file@.len() > ROM_SIZE ==> r == Err::<Self, _>(
                Error::MemoryError(MemoryError::TooLargeRomFile()),
            ),
            rom_file@.len() <= ROM_SIZE && ram_file@.len() > RAM_SIZE ==> r == Err::<Self, _>(
                Error::MemoryError(MemoryError::TooLargeRamFile()),
            ),
            rom_file@.len() <= ROM_SIZE && ram_file@.len() <= RAM_SIZE ==> r is Ok,
            r matches Ok(z) ==> z.wf() && z.break_point_spec() is None && z@ == (MachineState {
                cpu: reset_state(),
                mem: zero_padded(ram_file@, RAM_SIZE as nat) + zero_padded(
                    rom_file@,
                    ROM_SIZE as nat,
                ),
            }),
    {
        match Memory::new(rom_file, ram_file) {
            Ok(memory) => Ok(Zktc { cpu: Cpu::new(), memory, break_point: None }),
            Err(e) => Err(Error::MemoryError(e)),
        }
    }

    /// The registers.
    pub fn cpu(&self) -> (r: &Cpu)
        ensures
            r@ == self@.cpu,
    {
        &self.cpu
    }

    /// The memory.
    pub fn memory(&self) -> (r: &Memory)
        requires
            self.wf(),
        ensures
            r.wf(),
            r@ == self@.mem,
    {
        &self.memory
    }

    pub fn break_point(&self) -> (r: Option<u16>)
        ensures
            r == self.break_point_spec(),
    {
        self.break_point
    }

    /// Makes `run` stop once `pc` reaches `address`.
    pub fn set_break(&mut self, address: u16)
        requires
            old(self).wf(),
        ensures
            final(self).wf(),
            final(self)@ == old(self)@,
            final(self).break_point_spec() == Some(address),
    {
        self.break_point = Some(address);
    }

    /// Fetches, decodes and executes one instruction.
    pub fn step(&mut self) -> (r: Result<(), Error>)
        requires
            old(self).wf(),
        ensures
            final(self).wf(),
            final(self).break_point_spec() == old(self).break_point_spec(),
            (final(self)@, r) == step_spec(old(self)@),
    {
        let current_pc = self.cpu.pc;
        let word = match self.memory.read_from_memory(&current_pc, false) {
            Ok(word) => word,
            Err(e) => return Err(Error::MemoryError(e)),
        };
        if word == 0 {
            return Err(Error::DebugInterrupt());
        }
        self.cpu.pc = self.cpu.pc.wrapping_add(2);
        match decode(word) {
            Some(inst) => self.execute(inst),
            None => Err(Error::UnknownInstruction(word)),
        }
    }

    /// Steps until a step fails, `pc` reaches the break point, or `max_steps`
    /// steps have been taken.
    pub fn run(&mut self, max_steps: u64) -> (r: RunExit)
        requires
            old(self).wf(),
        ensures
            final(self).wf(),
            final(self).break_point_spec() == old(self).break_point_spec(),
            (final(self)@, r) == run_spec(old(self)@, old(self).break_point_spec(), max_steps as nat),
    {
        let mut left = max_steps;
        while left > 0
            invariant
                self.wf(),
                self.break_point_spec() == old(self).break_point_spec(),
                run_spec(old(self)@, self.break_point_spec(), max_steps as nat) == run_spec(
                    self@,
                    self.break_point_spec(),
                    left as nat,
                ),
            decreases left,
        {
            if let Err(e) = self.step() {
                return RunExit::Stopped(e);
            }
            if let Some(b) = self.break_point {
                if self.cpu.pc == b {
                    return RunExit::BreakPoint;
                }
            }
            left = left - 1;
        }
        RunExit::StepLimit
    }

    fn exec_i5(&mut self, op: I5Op, rd: u8, rs: u8, imm: u16) -> (r: Result<(), Error>)
        requires
            old(self).wf(),
            rd < 8,
            rs < 8,
            imm < 32,
        ensures
            final(self).wf(),
            final(self).break_point_spec() == old(self).break_point_spec(),
            (final(self)@, r) == execute_i5(old(self)@, op, rd, rs, imm),
    {
        let offset = sign_extend_imm5(imm);
        let address = self.cpu.get_gr(rs).wrapping_add_signed(offset);
        match op {
            I5Op::Addi => self.cpu.addi(rd, rs, imm),
            I5Op::Subi => self.cpu.subi(rd, rs, imm),
            I5Op::Beq => self.cpu.beq(rd, rs, offset),
            I5Op::Bnq => self.cpu.bnq(rd, rs, offset),
            I5Op::Blt => self.cpu.blt(rd, rs, offset),
            I5Op::Bge => self.cpu.bge(rd, rs, offset),
            I5Op::Bltu => self.cpu.bltu(rd, rs, offset),
            I5Op::Bgeu => self.cpu.bgeu(rd, rs, offset),
            I5Op::Jalr => self.cpu.jalr(rd, rs, offset),
            I5Op::Lh | I5Op::Lw => {
                let half = op == I5Op::Lh;
                match self.memory.read_from_memory(&address, half) {
                    Ok(data) => self.cpu.set_gr(rd, data),
                    Err(e) => return Err(Error::MemoryError(e)),
                }
            },
            I5Op::Lhu => {
                match self.memory.read_from_memory(&address, false) {
                    Ok(data) => {
                        let low = data & 0x00ff;
                        assert(data & 0x00ff == data % 256) by (bit_vector);
                        self.cpu.set_gr(rd, low);
                    },
                    Err(e) => return Err(Error::MemoryError(e)),
                }
            },
            I5Op::Sh | I5Op::Sw => {
                let half = op == I5Op::Sh;
                let data = self.cpu.get_gr(rd);
                if let Err(e) = self.memory.write_to_memory(&address, data, half) {
                    return Err(Error::MemoryError(e));
                }
            },
        }
        Ok(())
    }

    fn exec_c1(&mut self, op: C1Op, rd: u8) -> (r: Result<(), Error>)
        requires
            old(self).wf(),
            rd < 8,
        ensures
            final(self).wf(),
            final(self).break_point_spec() == old(self).break_point_spec(),
            (final(self)@, r) == execute_c1(old(self)@, op, rd),
    {
        match op {
            C1Op::Push => {
                let data = self.cpu.get_gr(rd);
                self.cpu.sp = self.cpu.sp.wrapping_sub(2);
                if let Err(e) = self.memory.write_to_memory(&self.cpu.sp, data, false) {
                    return Err(Error::MemoryError(e));
                }
            },
            C1Op::Pop => {
                match self.memory.read_from_memory(&self.cpu.sp, false) {
                    Ok(data) => self.cpu.set_gr(rd, data),
                    Err(e) => return Err(Error::MemoryError(e)),
                }
                self.cpu.sp = self.cpu.sp.wrapping_add(2);
            },
            C1Op::Rpc => self.cpu.rpc(rd),
            C1Op::Rsp => self.cpu.rsp(rd),
            C1Op::Rpsr => self.cpu.rpsr(rd),
            C1Op::Rtlr => self.cpu.rtlr(rd),
            C1Op::Rthr => self.cpu.rthr(rd),
            C1Op::Rppc => self.cpu.rppc(rd),
            C1Op::Rppsr => self.cpu.rppsr(rd),
            C1Op::Wsp => self.cpu.wsp(rd),
            C1Op::Wpsr => self.cpu.wpsr(rd),
            C1Op::Wtlr => self.cpu.wtlr(rd),
            C1Op::Wthr => self.cpu.wthr(rd),
            C1Op::Wppc => self.cpu.wppc(rd),
            C1Op::Wppsr => self.cpu.wppsr(rd),
        }
        Ok(())
    }

    /// Executes a decoded instruction whose word has already been fetched.
    pub fn execute(&mut self, inst: Instruction) -> (r: Result<(), Error>)
        requires
            old(self).wf(),
            inst.wf(),
        ensures
            final(self).wf(),
            final(self).break_point_spec() == old(self).break_point_spec(),
            (final(self)@, r) == execute_spec(old(self)@, inst),
    {
        match inst {
            Instruction::R { op, rd, rs } => match op {
                ROp::Mov => self.cpu.mov(rd, rs),
                ROp::Add => self.cpu.add(rd, rs),
                ROp::Sub => self.cpu.sub(rd, rs),
                ROp::And => self.cpu.and(rd, rs),
                ROp::Or => self.cpu.or(rd, rs),
                ROp::Xor => self.cpu.xor(rd, rs),
                ROp::Sll => self.cpu.sll(rd, rs),
                ROp::Srl => self.cpu.srl(rd, rs),
                ROp::Sra => self.cpu.sra(rd, rs),
            },
            Instruction::I5 { op, rd, rs, imm } => return self.exec_i5(op, rd, rs, imm),
            Instruction::I8 { op, rd, imm } => match op {
                I8Op::Jal => self.cpu.jal(rd, sign_extend_imm8(imm)),
                I8Op::Lil => self.cpu.lil(rd, imm),
                I8Op::Lih => self.cpu.lih(rd, imm),
            },
            Instruction::C1 { op, rd } => return self.exec_c1(op, rd),
            Instruction::C2 { op } => match op {
                C2Op::Rfi => self.cpu.rfi(),
                C2Op::Rtr => self.cpu.rtr(),
                C2Op::Wtr => self.cpu.wtr(),
            },
            Instruction::Trap => self.cpu.trap(),
        }
        Ok(())
    }
}

} // verus!
