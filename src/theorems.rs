use vstd::prelude::*;

use crate::cpu::{wrap16, CpuState};
use crate::isa::{decode_spec, C2Op, I5Op, I8Op, Instruction, ROp};
use crate::machine::{effective_address, execute_spec, run_spec, step_spec, MachineState};
use crate::memory::{
    is_accessible, low_byte, read_result, sign_extend_byte, word_at, written, MemoryError,
};

verus! {

/// Eight general registers.
pub open spec fn valid_cpu(c: CpuState) -> bool {
    c.gr.len() == 8
}

/// Eight general registers and the whole 64 KiB address space.
pub open spec fn valid_machine(s: MachineState) -> bool {
    valid_cpu(s.cpu) && s.mem.len() == 0x10000
}

/// `add rd, rs` followed by `sub rd, rs` leaves the whole machine as it was,
/// when `rd` and `rs` are different registers.
pub proof fn lemma_add_then_sub_restores(s: MachineState, rd: u8, rs: u8)
    requires
        valid_cpu(s.cpu),
        rd < 8,
        rs < 8,
        rd != rs,
    ensures
        ({
            let added = execute_spec(s, Instruction::R { op: ROp::Add, rd, rs });
            let restored = execute_spec(added.0, Instruction::R { op: ROp::Sub, rd, rs });
            added.1 is Ok && restored.1 is Ok && restored.0 == s
        }),
{
    let added = execute_spec(s, Instruction::R { op: ROp::Add, rd, rs });
    let restored = execute_spec(added.0, Instruction::R { op: ROp::Sub, rd, rs });
    if rd != 0 {
        assert(restored.0.cpu.gr =~= s.cpu.gr);
    }
}

/// `add rd, rd` followed by `sub rd, rd` leaves zero in `rd`.
pub proof fn lemma_add_then_sub_same_register(s: MachineState, rd: u8)
    requires
        valid_cpu(s.cpu),
        rd < 8,
    ensures
        ({
            let added = execute_spec(s, Instruction::R { op: ROp::Add, rd, rs: rd });
            let restored = execute_spec(added.0, Instruction::R { op: ROp::Sub, rd, rs: rd });
            restored.0.cpu.reg(rd) == 0
        }),
{
}

/// One step never changes the storage behind `x0`, and `x0` reads as zero.
pub proof fn lemma_step_keeps_x0(s: MachineState)
    requires
        valid_cpu(s.cpu),
    ensures
        step_spec(s).0.cpu.gr[0] == s.cpu.gr[0],
        step_spec(s).0.cpu.gr.len() == 8,
        step_spec(s).0.cpu.reg(0) == 0,
{
}

/// However many instructions run, `x0` keeps reading as zero and the storage behind
/// it never changes.
pub proof fn lemma_run_keeps_x0(s: MachineState, break_point: Option<u16>, fuel: nat)
    requires
        valid_cpu(s.cpu),
    ensures
        run_spec(s, break_point, fuel).0.cpu.gr[0] == s.cpu.gr[0],
        run_spec(s, break_point, fuel).0.cpu.reg(0) == 0,
    decreases fuel,
{
    if fuel > 0 {
        lemma_step_keeps_x0(s);
        lemma_run_keeps_x0(step_spec(s).0, break_point, (fuel - 1) as nat);
    }
}

/// `lih rd, a` followed by `lil rd, b` leaves exactly `b` in `rd`: `lil` does not
/// keep the high byte that `lih` set.
pub proof fn lemma_lih_then_lil(s: MachineState, rd: u8, a: u16, b: u16)
    requires
        valid_cpu(s.cpu),
        0 < rd < 8,
        a < 256,
        b < 256,
    ensures
        ({
            let high = execute_spec(s, Instruction::I8 { op: I8Op::Lih, rd, imm: a });
            let low = execute_spec(high.0, Instruction::I8 { op: I8Op::Lil, rd, imm: b });
            high.0.cpu.reg(rd) == a * 256 && low.0.cpu.reg(rd) == b
        }),
{
}

/// `sw rd, [rs+imm]` followed by `lw rd2, [rs+imm]` loads the stored value into `rd2`,
/// when the effective address starts a two-byte window inside RAM or ROM.
pub proof fn lemma_store_word_then_load(s: MachineState, rd: u8, rs: u8, imm: u16, rd2: u8)
    requires
        valid_machine(s),
        rd < 8,
        rs < 8,
        0 < rd2 < 8,
        imm < 32,
        is_accessible(effective_address(s.cpu, rs, imm)),
    ensures
        ({
            let stored = execute_spec(s, Instruction::I5 { op: I5Op::Sw, rd, rs, imm });
            let loaded = execute_spec(stored.0, Instruction::I5 { op: I5Op::Lw, rd: rd2, rs, imm });
            stored.1 is Ok && loaded.1 is Ok && loaded.0.cpu.reg(rd2) == s.cpu.reg(rd)
        }),
{
    let a = effective_address(s.cpu, rs, imm);
    lemma_word_round_trip(s.mem, a, s.cpu.reg(rd));
}

/// Two steps of a running machine: a step that executes `sw rd, [rs+imm]` and a
/// following step that executes `lw rd2, [rs2+imm2]` with the same effective address
/// load the stored value into `rd2` and leave memory as the store left it.
pub proof fn lemma_step_store_word_then_load(
    s: MachineState,
    rd: u8,
    rs: u8,
    imm: u16,
    rd2: u8,
    rs2: u8,
    imm2: u16,
)
    requires
        valid_machine(s),
        0 < rd2,
        read_result(s.mem, s.cpu.pc, false) matches Ok(w) && decode_spec(w) == Some(
            Instruction::I5 { op: I5Op::Sw, rd, rs, imm },
        ),
        ({
            let s1 = step_spec(s).0;
            &&& read_result(s1.mem, s1.cpu.pc, false) matches Ok(w) && decode_spec(w) == Some(
                Instruction::I5 { op: I5Op::Lw, rd: rd2, rs: rs2, imm: imm2 },
            )
            &&& effective_address(s1.cpu, rs2, imm2) == effective_address(
                CpuState { pc: wrap16(s.cpu.pc + 2), ..s.cpu },
                rs,
                imm,
            )
        }),
        is_accessible(effective_address(s.cpu, rs, imm)),
    ensures
        ({
            let first = step_spec(s);
            let second = step_spec(first.0);
            &&& first.1 is Ok
            &&& second.1 is Ok
            &&& second.0.cpu.reg(rd2) == s.cpu.reg(rd)
            &&& second.0.mem == first.0.mem
        }),
{
    let a = effective_address(s.cpu, rs, imm);
    lemma_word_round_trip(s.mem, a, s.cpu.reg(rd));
}

/// A word written at an accessible address reads back unchanged.
pub proof fn lemma_word_round_trip(mem: Seq<u8>, address: u16, data: u16)
    requires
        mem.len() == 0x10000,
        is_accessible(address),
    ensures
        read_result(written(mem, address, data, false), address, false) == Ok::<u16, MemoryError>(data),
{
}

/// `sh rd, [rs+imm]` followed by `lh rd2, [rs+imm]` loads the low byte of `rd`
/// sign-extended, and the byte after the address keeps its value.
pub proof fn lemma_store_half_then_load(s: MachineState, rd: u8, rs: u8, imm: u16, rd2: u8)
    requires
        valid_machine(s),
        rd < 8,
        rs < 8,
        0 < rd2 < 8,
        imm < 32,
        is_accessible(effective_address(s.cpu, rs, imm)),
    ensures
        ({
            let a = effective_address(s.cpu, rs, imm);
            let stored = execute_spec(s, Instruction::I5 { op: I5Op::Sh, rd, rs, imm });
            let loaded = execute_spec(stored.0, Instruction::I5 { op: I5Op::Lh, rd: rd2, rs, imm });
            &&& stored.1 is Ok
            &&& loaded.1 is Ok
            &&& loaded.0.cpu.reg(rd2) == sign_extend_byte(low_byte(s.cpu.reg(rd)))
            &&& word_at(stored.0.mem, a as int) / 256 == word_at(s.mem, a as int) / 256
        }),
{
}

/// Executing the word `0xFFFF` enters the trap handler: `pc` goes to the trap vector,
/// `psr` marks the trap, and `ppc`/`ppsr` hold the `pc` past the trap word and the old
/// `psr`. A following `rfi` restores exactly those `pc` and `psr`.
pub proof fn lemma_trap_then_return(s: MachineState)
    requires
        valid_machine(s),
        read_result(s.mem, s.cpu.pc, false) == Ok::<u16, MemoryError>(0xFFFF),
    ensures
        ({
            let trapped = step_spec(s);
            let resumed = execute_spec(trapped.0, Instruction::C2 { op: C2Op::Rfi });
            let return_pc = wrap16(s.cpu.pc + 2);
            &&& trapped.1 is Ok
            &&& trapped.0.cpu.pc == 0
            &&& trapped.0.cpu.psr == 0x2
            &&& trapped.0.cpu.ppc == return_pc
            &&& trapped.0.cpu.ppsr == s.cpu.psr
            &&& resumed.0.cpu.pc == return_pc
            &&& resumed.0.cpu.psr == s.cpu.psr
        }),
{
    assert(decode_spec(0xFFFF) == Some(Instruction::Trap));
}

} // verus!
