use vstd::prelude::*;

use crate::memory::ROM_LOW_ADDRESS;

verus! {

/// `x` reduced modulo 2^16.
pub open spec fn wrap16(x: int) -> u16 {
    (x % 0x10000) as u16
}

/// The mathematical state of the register file and the control registers.
pub ghost struct CpuState {
    pub pc: u16,
    pub gr: Seq<u16>,
    pub sp: u16,
    pub psr: u16,
    pub tr: u32,
    pub tlr: u16,
    pub thr: u16,
    pub ppc: u16,
    pub ppsr: u16,
}

impl CpuState {
    /// What reading general register `n` yields: `x0` always reads as zero.
    pub open spec fn reg(self, n: u8) -> u16 {
        if n == 0 {
            0
        } else {
            self.gr[n as int]
        }
    }

    /// The state after writing `v` to general register `n`; a write to `x0` is discarded.
    pub open spec fn with_reg(self, n: u8, v: u16) -> CpuState {
        if n == 0 {
            self
        } else {
            CpuState { gr: self.gr.update(n as int, v), ..self }
        }
    }

    /// The state after a pc-relative branch by `offset` when `taken`; the offset
    /// counts from the branch instruction itself, two bytes before `pc`.
    pub open spec fn branch(self, taken: bool, offset: i16) -> CpuState {
        if taken {
            CpuState { pc: wrap16(self.pc - 2 + offset), ..self }
        } else {
            self
        }
    }
}

/// The registers at power-on: `pc` at the start of ROM, everything else zero.
pub open spec fn reset_state() -> CpuState {
    CpuState {
        pc: ROM_LOW_ADDRESS,
        gr: seq![0u16; 8],
        sp: 0,
        psr: 0,
        tr: 0,
        tlr: 0,
        thr: 0,
        ppc: 0,
        ppsr: 0,
    }
}

/// The register file: eight general registers, the program counter, the stack
/// pointer and the control/status registers.
#[derive(Debug)]
pub struct Cpu {
    pub pc: u16,
    pub gr: [u16; 8],
    pub sp: u16,
    pub psr: u16,
    pub tr: u32,
    pub tlr: u16,
    pub thr: u16,
    pub ppc: u16,
    pub ppsr: u16,
}

impl View for Cpu {
    type V = CpuState;

    open spec fn view(&self) -> CpuState {
        CpuState {
            pc: self.pc,
            gr: self.gr@,
            sp: self.sp,
            psr: self.psr,
            tr: self.tr,
            tlr: self.tlr,
            thr: self.thr,
            ppc: self.ppc,
            ppsr: self.ppsr,
        }
    }
}

impl Cpu {
    pub fn new() -> (r: Self)
        ensures
            r@ == reset_state(),
    {
        let r = Cpu {
            pc: ROM_LOW_ADDRESS,
            gr: [0; 8],
            sp: 0,
            psr: 0,
            tr: 0,
            tlr: 0,
            thr: 0,
            ppc: 0,
            ppsr: 0,
        };
        assert(r.gr@ =~= seq![0u16; 8]);
        r
    }

    pub fn get_gr(&self, num: u8) -> (r: u16)
        requires
            num < 8,
        ensures
            r == self@.reg(num),
    {
        if num == 0 {
            0
        } else {
            self.gr[num as usize]
        }
    }

    pub fn set_gr(&mut self, num: u8, data: u16)
        requires
            num < 8,
        ensures
            final(self)@ == old(self)@.with_reg(num, data),
    {
        if num != 0 {
            self.gr[num as usize] = data;
        }
    }

    /// `rd := rs`.
    pub fn mov(&mut self, rd: u8, rs: u8)
        requires
            rd < 8,
            rs < 8,
        ensures
            final(self)@ == old(self)@.with_reg(rd, old(self)@.reg(rs)),
    {
        let data = self.get_gr(rs);
        self.set_gr(rd, data);
    }

    /// `rd := rd + rs`, modulo 2^16.
    pub fn add(&mut self, rd: u8, rs: u8)
        requires
            rd < 8,
            rs < 8,
        ensures
            final(self)@ == old(self)@.with_reg(rd, wrap16(old(self)@.reg(rd) + old(self)@.reg(rs))),
    {
        let data = self.get_gr(rd).wrapping_add(self.get_gr(rs));
        self.set_gr(rd, data);
    }

    /// `rd := rd - rs`, modulo 2^16.
    pub fn sub(&mut self, rd: u8, rs: u8)
        requires
            rd < 8,
            rs < 8,
        ensures
            final(self)@ == old(self)@.with_reg(rd, wrap16(old(self)@.reg(rd) - old(self)@.reg(rs))),
    {
        let data = self.get_gr(rd).wrapping_sub(self.get_gr(rs));
        self.set_gr(rd, data);
    }

    /// Bitwise and.
    pub fn and(&mut self, rd: u8, rs: u8)
        requires
            rd < 8,
            rs < 8,
        ensures
            final(self)@ == old(self)@.with_reg(rd, old(self)@.reg(rd) & old(self)@.reg(rs)),
    {
        let data = self.get_gr(rd) & self.get_gr(rs);
        self.set_gr(rd, data);
    }

    /// Bitwise or.
    pub fn or(&mut self, rd: u8, rs: u8)
        requires
            rd < 8,
            rs < 8,
        ensures
            final(self)@ == old(self)@.with_reg(rd, old(self)@.reg(rd) | old(self)@.reg(rs)),
    {
        let data = self.get_gr(rd) | self.get_gr(rs);
        self.set_gr(rd, data);
    }

    /// Bitwise exclusive or.
    pub fn xor(&mut self, rd: u8, rs: u8)
        requires
            rd < 8,
            rs < 8,
        ensures
            final(self)@ == old(self)@.with_reg(rd, old(self)@.reg(rd) ^ old(self)@.reg(rs)),
    {
        let data = self.get_gr(rd) ^ self.get_gr(rs);
        self.set_gr(rd, data);
    }

    /// Logical left shift by the low four bits of `rs`.
    pub fn sll(&mut self, rd: u8, rs: u8)
        requires
            rd < 8,
            rs < 8,
        ensures
            final(self)@ == old(self)@.with_reg(rd, old(self)@.reg(rd) << (old(self)@.reg(rs) % 16)),
    {
        let data = self.get_gr(rd) << (self.get_gr(rs) % 16);
        self.set_gr(rd, data);
    }

    /// Logical right shift by the low four bits of `rs`.
    pub fn srl(&mut self, rd: u8, rs: u8)
        requires
            rd < 8,
            rs < 8,
        ensures
            final(self)@ == old(self)@.with_reg(rd, old(self)@.reg(rd) >> (old(self)@.reg(rs) % 16)),
    {
        let data = self.get_gr(rd) >> (self.get_gr(rs) % 16);
        self.set_gr(rd, data);
    }

    /// Arithmetic (sign-preserving) right shift by the low four bits of `rs`.
    pub fn sra(&mut self, rd: u8, rs: u8)
        requires
            rd < 8,
            rs < 8,
        ensures
            final(self)@ == old(self)@.with_reg(rd, ((old(self)@.reg(rd) as i16) >> (old(self)@.reg(rs) % 16)) as u16),
    {
        let data = ((self.get_gr(rd) as i16) >> (self.get_gr(rs) % 16)) as u16;
        self.set_gr(rd, data);
    }

    /// `rd := rs + imm`, modulo 2^16.
    pub fn addi(&mut self, rd: u8, rs: u8, imm: u16)
        requires
            rd < 8,
            rs < 8,
        ensures
            final(self)@ == old(self)@.with_reg(rd, wrap16(old(self)@.reg(rs) + imm)),
    {
        let data = self.get_gr(rs).wrapping_add(imm);
        self.set_gr(rd, data);
    }

    /// `rd := rs - imm`, modulo 2^16.
    pub fn subi(&mut self, rd: u8, rs: u8, imm: u16)
        requires
            rd < 8,
            rs < 8,
        ensures
            final(self)@ == old(self)@.with_reg(rd, wrap16(old(self)@.reg(rs) - imm)),
    {
        let data = self.get_gr(rs).wrapping_sub(imm);
        self.set_gr(rd, data);
    }

    /// Branches when `rd == rs`.
    pub fn beq(&mut self, rd: u8, rs: u8, imm: i16)
        requires
            rd < 8,
            rs < 8,
        ensures
            final(self)@ == old(self)@.branch(old(self)@.reg(rd) == old(self)@.reg(rs), imm),
    {
        if self.get_gr(rd) == self.get_gr(rs) {
            self.pc = self.pc.wrapping_sub(2).wrapping_add_signed(imm);
        }
    }

    /// Branches when `rd != rs`.
    pub fn bnq(&mut self, rd: u8, rs: u8, imm: i16)
        requires
            rd < 8,
            rs < 8,
        ensures
            final(self)@ == old(self)@.branch(old(self)@.reg(rd) != old(self)@.reg(rs), imm),
    {
        if self.get_gr(rd) != self.get_gr(rs) {
            self.pc = self.pc.wrapping_sub(2).wrapping_add_signed(imm);
        }
    }

    /// Branches when `rd < rs` as signed values.
    pub fn blt(&mut self, rd: u8, rs: u8, imm: i16)
        requires
            rd < 8,
            rs < 8,
        ensures
            final(self)@ == old(self)@.branch((old(self)@.reg(rd) as i16) < (old(self)@.reg(rs) as i16), imm),
    {
        if (self.get_gr(rd) as i16) < (self.get_gr(rs) as i16) {
            self.pc = self.pc.wrapping_sub(2).wrapping_add_signed(imm);
        }
    }

    /// Branches when `rd >= rs` as signed values.
    pub fn bge(&mut self, rd: u8, rs: u8, imm: i16)
        requires
            rd < 8,
            rs < 8,
        ensures
            final(self)@ == old(self)@.branch((old(self)@.reg(rd) as i16) >= (old(self)@.reg(rs) as i16), imm),
    {
        if (self.get_gr(rd) as i16) >= (self.get_gr(rs) as i16) {
            self.pc = self.pc.wrapping_sub(2).wrapping_add_signed(imm);
        }
    }

    /// Branches when `rd < rs` as unsigned values.
    pub fn bltu(&mut self, rd: u8, rs: u8, imm: i16)
        requires
            rd < 8,
            rs < 8,
        ensures
            final(self)@ == old(self)@.branch(old(self)@.reg(rd) < old(self)@.reg(rs), imm),
    {
        if self.get_gr(rd) < self.get_gr(rs) {
            self.pc = self.pc.wrapping_sub(2).wrapping_add_signed(imm);
        }
    }

    /// Branches when `rd >= rs` as unsigned values.
    pub fn bgeu(&mut self, rd: u8, rs: u8, imm: i16)
        requires
            rd < 8,
            rs < 8,
        ensures
            final(self)@ == old(self)@.branch(old(self)@.reg(rd) >= old(self)@.reg(rs), imm),
    {
        if self.get_gr(rd) >= self.get_gr(rs) {
            self.pc = self.pc.wrapping_sub(2).wrapping_add_signed(imm);
        }
    }

    /// Saves the return address in `rd`, then jumps to `rs + imm`; when `rd` and `rs`
    /// are the same register the jump goes from the saved return address.
    pub fn jalr(&mut self, rd: u8, rs: u8, imm: i16)
        requires
            rd < 8,
            rs < 8,
        ensures
            final(self)@ == (CpuState {
                pc: wrap16(old(self)@.with_reg(rd, old(self).pc).reg(rs) + imm),
                ..old(self)@.with_reg(rd, old(self).pc)
            }),
    {
        self.set_gr(rd, self.pc);
        self.pc = self.get_gr(rs).wrapping_add_signed(imm);
    }

    /// Jumps pc-relative by `imm`, saving the return address in `rd`.
    pub fn jal(&mut self, rd: u8, imm: i16)
        requires
            rd < 8,
        ensures
            final(self)@ == old(self)@.with_reg(rd, old(self).pc).branch(true, imm),
    {
        self.set_gr(rd, self.pc);
        self.pc = self.pc.wrapping_sub(2).wrapping_add_signed(imm);
    }

    /// `rd := imm`, overwriting the whole register.
    pub fn lil(&mut self, rd: u8, imm: u16)
        requires
            rd < 8,
        ensures
            final(self)@ == old(self)@.with_reg(rd, imm),
    {
        self.set_gr(rd, imm);
    }

    /// Places the low byte of `imm` in the high byte of `rd` and clears its low byte.
    pub fn lih(&mut self, rd: u8, imm: u16)
        requires
            rd < 8,
        ensures
            final(self)@ == old(self)@.with_reg(rd, ((imm % 256) * 256) as u16),
    {
        self.set_gr(rd, (imm % 256) * 256);
    }

    /// `rd := pc`.
    pub fn rpc(&mut self, rd: u8)
        requires
            rd < 8,
        ensures
            final(self)@ == old(self)@.with_reg(rd, old(self).pc),
    {
        self.set_gr(rd, self.pc);
    }

    /// `rd := sp`.
    pub fn rsp(&mut self, rd: u8)
        requires
            rd < 8,
        ensures
            final(self)@ == old(self)@.with_reg(rd, old(self).sp),
    {
        self.set_gr(rd, self.sp);
    }

    /// `rd := psr`.
    pub fn rpsr(&mut self, rd: u8)
        requires
            rd < 8,
        ensures
            final(self)@ == old(self)@.with_reg(rd, old(self).psr),
    {
        self.set_gr(rd, self.psr);
    }

    /// `rd := tlr`.
    pub fn rtlr(&mut self, rd: u8)
        requires
            rd < 8,
        ensures
            final(self)@ == old(self)@.with_reg(rd, old(self).tlr),
    {
        self.set_gr(rd, self.tlr);
    }

    /// `rd := thr`.
    pub fn rthr(&mut self, rd: u8)
        requires
            rd < 8,
        ensures
            final(self)@ == old(self)@.with_reg(rd, old(self).thr),
    {
        self.set_gr(rd, self.thr);
    }

    /// `rd := ppc`.
    pub fn rppc(&mut self, rd: u8)
        requires
            rd < 8,
        ensures
            final(self)@ == old(self)@.with_reg(rd, old(self).ppc),
    {
        self.set_gr(rd, self.ppc);
    }

    /// `rd := ppsr`.
    pub fn rppsr(&mut self, rd: u8)
        requires
            rd < 8,
        ensures
            final(self)@ == old(self)@.with_reg(rd, old(self).ppsr),
    {
        self.set_gr(rd, self.ppsr);
    }

    /// `sp := rd`.
    pub fn wsp(&mut self, rd: u8)
        requires
            rd < 8,
        ensures
            final(self)@ == (CpuState { sp: old(self)@.reg(rd), ..old(self)@ }),
    {
        self.sp = self.get_gr(rd);
    }

    /// `psr := rd`.
    pub fn wpsr(&mut self, rd: u8)
        requires
            rd < 8,
        ensures
            final(self)@ == (CpuState { psr: old(self)@.reg(rd), ..old(self)@ }),
    {
        self.psr = self.get_gr(rd);
    }

    /// `tlr := rd`.
    pub fn wtlr(&mut self, rd: u8)
        requires
            rd < 8,
        ensures
            final(self)@ == (CpuState { tlr: old(self)@.reg(rd), ..old(self)@ }),
    {
        self.tlr = self.get_gr(rd);
    }

    /// `thr := rd`.
    pub fn wthr(&mut self, rd: u8)
        requires
            rd < 8,
        ensures
            final(self)@ == (CpuState { thr: old(self)@.reg(rd), ..old(self)@ }),
    {
        self.thr = self.get_gr(rd);
    }

    /// `ppc := rd`.
    pub fn wppc(&mut self, rd: u8)
        requires
            rd < 8,
        ensures
            final(self)@ == (CpuState { ppc: old(self)@.reg(rd), ..old(self)@ }),
    {
        self.ppc = self.get_gr(rd);
    }

    /// `ppsr := rd`.
    pub fn wppsr(&mut self, rd: u8)
        requires
            rd < 8,
        ensures
            final(self)@ == (CpuState { ppsr: old(self)@.reg(rd), ..old(self)@ }),
    {
        self.ppsr = self.get_gr(rd);
    }

    /// Returns from a trap: restores `pc` and `psr` from `ppc` and `ppsr`.
    pub fn rfi(&mut self)
        ensures
            final(self)@ == (CpuState { pc: old(self).ppc, psr: old(self).ppsr, ..old(self)@ }),
    {
        self.pc = self.ppc;
        self.psr = self.ppsr;
    }

    /// Splits the timer register into its high half `thr` and its low half `tlr`.
    pub fn rtr(&mut self)
        ensures
            final(self)@ == (CpuState {
                thr: (old(self).tr / 0x10000) as u16,
                tlr: (old(self).tr % 0x10000) as u16,
                ..old(self)@
            }),
    {
        self.thr = (self.tr / 0x10000) as u16;
        self.tlr = (self.tr % 0x10000) as u16;
    }

    /// Joins `thr:tlr` into the timer register.
    pub fn wtr(&mut self)
        ensures
            final(self)@ == (CpuState {
                tr: (old(self).thr * 0x10000 + old(self).tlr) as u32,
                ..old(self)@
            }),
    {
        self.tr = (self.thr as u32) * 0x10000 + self.tlr as u32;
    }

    /// Enters the trap handler: saves `pc` and `psr`, marks the trap active and
    /// jumps to the trap vector.
    pub fn trap(&mut self)
        ensures
            final(self)@ == (CpuState {
                ppc: old(self).pc,
                ppsr: old(self).psr,
                psr: 0x2,
                pc: 0,
                ..old(self)@
            }),
    {
        self.ppc = self.pc;
        self.ppsr = self.psr;
        self.psr = 0x2;
        self.pc = 0;
    }
}

} // verus!
