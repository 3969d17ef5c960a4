use zktc_emu::{Error, RunExit, Zktc};

// Instruction encoders.

fn r(func: u16, rd: u16, rs: u16) -> u16 {
    (func << 11) | (rs << 8) | (rd << 5)
}

fn i5(opcode: u16, rd: u16, rs: u16, imm: i16) -> u16 {
    (((imm as u16) & 0x1F) << 11) | (rs << 8) | (rd << 5) | opcode
}

fn i8(opcode: u16, rd: u16, imm: i16) -> u16 {
    (((imm as u16) & 0xFF) << 8) | (rd << 5) | opcode
}

fn c1(func: u16, rd: u16) -> u16 {
    (func << 11) | (rd << 5) | 30
}

fn c2(func: u16) -> u16 {
    (func << 11) | 31
}

fn mov(rd: u16, rs: u16) -> u16 { r(1, rd, rs) }
fn add(rd: u16, rs: u16) -> u16 { r(2, rd, rs) }
fn sub(rd: u16, rs: u16) -> u16 { r(3, rd, rs) }
fn and(rd: u16, rs: u16) -> u16 { r(4, rd, rs) }
fn or(rd: u16, rs: u16) -> u16 { r(5, rd, rs) }
fn xor(rd: u16, rs: u16) -> u16 { r(6, rd, rs) }
fn sll(rd: u16, rs: u16) -> u16 { r(7, rd, rs) }
fn srl(rd: u16, rs: u16) -> u16 { r(8, rd, rs) }
fn sra(rd: u16, rs: u16) -> u16 { r(9, rd, rs) }
fn addi(rd: u16, rs: u16, imm: i16) -> u16 { i5(1, rd, rs, imm) }
fn subi(rd: u16, rs: u16, imm: i16) -> u16 { i5(2, rd, rs, imm) }
fn beq(rd: u16, rs: u16, imm: i16) -> u16 { i5(3, rd, rs, imm) }
fn bnq(rd: u16, rs: u16, imm: i16) -> u16 { i5(4, rd, rs, imm) }
fn blt(rd: u16, rs: u16, imm: i16) -> u16 { i5(5, rd, rs, imm) }
fn bge(rd: u16, rs: u16, imm: i16) -> u16 { i5(6, rd, rs, imm) }
fn bltu(rd: u16, rs: u16, imm: i16) -> u16 { i5(7, rd, rs, imm) }
fn bgeu(rd: u16, rs: u16, imm: i16) -> u16 { i5(8, rd, rs, imm) }
fn jalr(rd: u16, rs: u16, imm: i16) -> u16 { i5(9, rd, rs, imm) }
fn lh(rd: u16, rs: u16, imm: i16) -> u16 { i5(10, rd, rs, imm) }
fn lhu(rd: u16, rs: u16, imm: i16) -> u16 { i5(11, rd, rs, imm) }
fn lw(rd: u16, rs: u16, imm: i16) -> u16 { i5(12, rd, rs, imm) }
fn sh(rd: u16, rs: u16, imm: i16) -> u16 { i5(13, rd, rs, imm) }
fn sw(rd: u16, rs: u16, imm: i16) -> u16 { i5(14, rd, rs, imm) }
fn jal(rd: u16, imm: i16) -> u16 { i8(16, rd, imm) }
fn lil(rd: u16, imm: i16) -> u16 { i8(17, rd, imm) }
fn lih(rd: u16, imm: i16) -> u16 { i8(18, rd, imm) }
fn push(rd: u16) -> u16 { c1(1, rd) }
fn pop(rd: u16) -> u16 { c1(2, rd) }
fn rpc(rd: u16) -> u16 { c1(3, rd) }
fn rsp(rd: u16) -> u16 { c1(4, rd) }
fn rpsr(rd: u16) -> u16 { c1(5, rd) }
fn rtlr(rd: u16) -> u16 { c1(6, rd) }
fn rthr(rd: u16) -> u16 { c1(7, rd) }
fn rppc(rd: u16) -> u16 { c1(8, rd) }
fn rppsr(rd: u16) -> u16 { c1(9, rd) }
fn wsp(rd: u16) -> u16 { c1(10, rd) }
fn wpsr(rd: u16) -> u16 { c1(11, rd) }
fn wtlr(rd: u16) -> u16 { c1(12, rd) }
fn wthr(rd: u16) -> u16 { c1(13, rd) }
fn wppc(rd: u16) -> u16 { c1(14, rd) }
fn wppsr(rd: u16) -> u16 { c1(15, rd) }
fn rtr() -> u16 { c2(2) }
fn wtr() -> u16 { c2(3) }

/// Loads a 16-bit constant into `rd`, using x4 as scratch.
fn load(rd: u16, value: u16) -> Vec<u16> {
    if value < 0x100 {
        vec![lil(rd, value as i16)]
    } else {
        vec![lih(rd, (value >> 8) as i16), lil(4, (value & 0xFF) as i16), or(rd, 4)]
    }
}

/// Writes 1 to 0xFFFE when `rd` holds `value`; x5 and x6 are scratch.
fn pass_if(rd: u16, value: u16) -> Vec<u16> {
    let mut code = load(5, value);
    code.push(bnq(rd, 5, 6));
    code.push(lil(6, 1));
    code.push(sw(6, 0, -2));
    code
}

fn image(words: &[u16]) -> Vec<u8> {
    let mut bytes = Vec::new();
    for w in words {
        bytes.push((w & 0xFF) as u8);
        bytes.push((w >> 8) as u8);
    }
    bytes
}

/// Runs `body` followed by the check that `rd` holds `value`, then the end marker.
fn run_program(mut body: Vec<u16>, rd: u16, value: u16) -> Zktc {
    body.extend(pass_if(rd, value));
    body.push(0);
    let mut zktc = Zktc::new(image(&body), vec![]).unwrap();
    assert_eq!(zktc.run(10_000), RunExit::Stopped(Error::DebugInterrupt()));
    assert_eq!(zktc.memory().read_from_memory(&0xfffe, false).unwrap(), 1);
    zktc
}

fn concat(parts: Vec<Vec<u16>>) -> Vec<u16> {
    parts.into_iter().flatten().collect()
}

#[test]
fn mov_test() {
    let z = run_program(concat(vec![load(1, 0x1234), vec![mov(2, 1)]]), 2, 0x1234);
    assert_eq!(z.cpu().get_gr(2), 0x1234);
}

#[test]
fn add_test() {
    let z = run_program(concat(vec![load(1, 0xFFFF), load(2, 3), vec![add(1, 2)]]), 1, 2);
    assert_eq!(z.cpu().get_gr(1), 2);
}

#[test]
fn sub_test() {
    let z = run_program(concat(vec![load(1, 1), load(2, 3), vec![sub(1, 2)]]), 1, 0xFFFE);
    assert_eq!(z.cpu().get_gr(1), 0xFFFE);
}

#[test]
fn and_test() {
    let z = run_program(concat(vec![load(1, 0x0FF0), load(2, 0x3C3C), vec![and(1, 2)]]), 1, 0x0C30);
    assert_eq!(z.cpu().get_gr(1), 0x0C30);
}

#[test]
fn or_test() {
    let z = run_program(concat(vec![load(1, 0x0F00), load(2, 0x00F0), vec![or(1, 2)]]), 1, 0x0FF0);
    assert_eq!(z.cpu().get_gr(1), 0x0FF0);
}

#[test]
fn xor_test() {
    let z = run_program(concat(vec![load(1, 0x0FF0), load(2, 0x3C3C), vec![xor(1, 2)]]), 1, 0x33CC);
    assert_eq!(z.cpu().get_gr(1), 0x33CC);
}

#[test]
fn sll_test() {
    let z = run_program(concat(vec![load(1, 0x8001), load(2, 4), vec![sll(1, 2)]]), 1, 0x0010);
    assert_eq!(z.cpu().get_gr(1), 0x0010);
}

#[test]
fn srl_test() {
    let z = run_program(concat(vec![load(1, 0x8010), load(2, 4), vec![srl(1, 2)]]), 1, 0x0801);
    assert_eq!(z.cpu().get_gr(1), 0x0801);
}

#[test]
fn sra_test() {
    let z = run_program(concat(vec![load(1, 0x8010), load(2, 4), vec![sra(1, 2)]]), 1, 0xF801);
    assert_eq!(z.cpu().get_gr(1), 0xF801);
}

#[test]
fn addi_test() {
    let z = run_program(concat(vec![load(2, 0xFFF0), vec![addi(1, 2, 31)]]), 1, 0x000F);
    assert_eq!(z.cpu().get_gr(1), 0x000F);
}

#[test]
fn subi_test() {
    let z = run_program(concat(vec![load(2, 10), vec![subi(1, 2, 31)]]), 1, 0xFFEB);
    assert_eq!(z.cpu().get_gr(1), 0xFFEB);
}

#[test]
fn beq_test() {
    // Taken: skips the store of 1 into x3; then not taken: x7 becomes 2.
    let body = concat(vec![
        load(1, 5),
        load(2, 5),
        vec![beq(1, 2, 4), lil(3, 1), beq(1, 0, 4), lil(7, 2)],
    ]);
    let z = run_program(body, 3, 0);
    assert_eq!(z.cpu().get_gr(7), 2);
}

#[test]
fn bnq_test() {
    let body = concat(vec![
        load(1, 5),
        load(2, 6),
        vec![bnq(1, 2, 4), lil(3, 1), bnq(1, 1, 4), lil(7, 2)],
    ]);
    let z = run_program(body, 3, 0);
    assert_eq!(z.cpu().get_gr(7), 2);
}

#[test]
fn blt_test() {
    // -1 < 1 as signed values.
    let body = concat(vec![
        load(1, 0xFFFF),
        load(2, 1),
        vec![blt(1, 2, 4), lil(3, 1), blt(2, 1, 4), lil(7, 2)],
    ]);
    let z = run_program(body, 3, 0);
    assert_eq!(z.cpu().get_gr(7), 2);
}

#[test]
fn bge_test() {
    let body = concat(vec![
        load(1, 1),
        load(2, 0xFFFF),
        vec![bge(1, 2, 4), lil(3, 1), bge(2, 1, 4), lil(7, 2)],
    ]);
    let z = run_program(body, 3, 0);
    assert_eq!(z.cpu().get_gr(7), 2);
}

#[test]
fn bltu_test() {
    // 1 < 0xFFFF as unsigned values.
    let body = concat(vec![
        load(1, 1),
        load(2, 0xFFFF),
        vec![bltu(1, 2, 4), lil(3, 1), bltu(2, 1, 4), lil(7, 2)],
    ]);
    let z = run_program(body, 3, 0);
    assert_eq!(z.cpu().get_gr(7), 2);
}

#[test]
fn bgeu_test() {
    let body = concat(vec![
        load(1, 0xFFFF),
        load(2, 1),
        vec![bgeu(1, 2, 4), lil(3, 1), bgeu(2, 1, 4), lil(7, 2)],
    ]);
    let z = run_program(body, 3, 0);
    assert_eq!(z.cpu().get_gr(7), 2);
}

#[test]
fn jalr_test() {
    // x2 = 0x8008; jalr at 0x8006 jumps to 0x8008 + 2, skipping the word at 0x8008.
    let body = vec![lih(2, 0x80), lil(4, 0x08), or(2, 4), jalr(1, 2, 2), lil(3, 1)];
    let z = run_program(body, 1, 0x8008);
    assert_eq!(z.cpu().get_gr(3), 0);
}

#[test]
fn lh_test() {
    let body = concat(vec![load(1, 0x1280), vec![lil(2, 0x10), sw(1, 2, 0), lh(3, 2, 0)]]);
    let z = run_program(body, 3, 0xFF80);
    assert_eq!(z.cpu().get_gr(3), 0xFF80);
}

#[test]
fn lhu_test() {
    let body = concat(vec![load(1, 0x1280), vec![lil(2, 0x10), sw(1, 2, 0), lhu(3, 2, 0)]]);
    let z = run_program(body, 3, 0x0080);
    assert_eq!(z.cpu().get_gr(3), 0x0080);
}

#[test]
fn lw_test() {
    // A negative offset: address 0x12 - 2.
    let body = concat(vec![load(1, 0xBEEF), vec![lil(2, 0x12), sw(1, 2, -2), lw(3, 2, -2)]]);
    let z = run_program(body, 3, 0xBEEF);
    assert_eq!(z.memory().read_from_memory(&0x10, false).unwrap(), 0xBEEF);
}

#[test]
fn sh_test() {
    let body = concat(vec![
        load(1, 0x1200),
        vec![lil(2, 0x20), sw(1, 2, 0)],
        load(1, 0x34AB),
        vec![sh(1, 2, 0), lw(3, 2, 0)],
    ]);
    let z = run_program(body, 3, 0x12AB);
    assert_eq!(z.memory().read_from_memory(&0x20, false).unwrap(), 0x12AB);
}

#[test]
fn sw_test() {
    let body = concat(vec![load(1, 0xA55A), vec![lil(2, 0x40), sw(1, 2, 0), lw(3, 2, 0)]]);
    let z = run_program(body, 3, 0xA55A);
    assert_eq!(z.memory().read_from_memory(&0x40, true).unwrap(), 0x005A);
    assert_eq!(z.memory().read_from_memory(&0x41, true).unwrap(), 0xFFA5);
}

#[test]
fn jal_test() {
    // jal at 0x8000 jumps to 0x8004, skipping the word at 0x8002.
    let body = vec![jal(1, 4), lil(3, 1)];
    let z = run_program(body, 1, 0x8002);
    assert_eq!(z.cpu().get_gr(3), 0);
}

#[test]
fn lil_test() {
    let body = vec![lih(1, 0x12), lil(1, 0xCD)];
    run_program(body, 1, 0x00CD);
}

#[test]
fn lih_test() {
    let body = vec![lil(1, 0x34), lih(1, 0xAB)];
    run_program(body, 1, 0xAB00);
}

#[test]
fn push_test() {
    let body = concat(vec![
        load(2, 0x100),
        vec![wsp(2)],
        load(1, 0x7777),
        vec![push(1), rsp(2), lw(3, 2, 0)],
    ]);
    let z = run_program(body, 3, 0x7777);
    assert_eq!(z.cpu().sp, 0xFE);
    assert_eq!(z.memory().read_from_memory(&0xFE, false).unwrap(), 0x7777);
}

#[test]
fn pop_test() {
    let body = concat(vec![
        load(2, 0x100),
        vec![wsp(2)],
        load(1, 0x7777),
        vec![push(1), pop(3)],
    ]);
    let z = run_program(body, 3, 0x7777);
    assert_eq!(z.cpu().sp, 0x100);
}

#[test]
fn rpc_test() {
    // rpc at 0x8000 reads the pc of the next instruction.
    let z = run_program(vec![rpc(1)], 1, 0x8002);
    assert_eq!(z.cpu().get_gr(1), 0x8002);
}

#[test]
fn rsp_test() {
    let body = concat(vec![load(2, 0x1234), vec![wsp(2), rsp(1)]]);
    run_program(body, 1, 0x1234);
}

#[test]
fn rpsr_test() {
    let body = concat(vec![load(2, 0x0002), vec![wpsr(2), rpsr(1)]]);
    run_program(body, 1, 0x0002);
}

#[test]
fn rtlr_test() {
    let body = concat(vec![load(2, 0x4321), vec![wtlr(2), rtlr(1)]]);
    run_program(body, 1, 0x4321);
}

#[test]
fn rppc_test() {
    let body = concat(vec![load(2, 0x8888), vec![wppc(2), rppc(1)]]);
    run_program(body, 1, 0x8888);
}

#[test]
fn rppsr_test() {
    let body = concat(vec![load(2, 0x0101), vec![wppsr(2), rppsr(1)]]);
    run_program(body, 1, 0x0101);
}

#[test]
fn wsp_test() {
    let body = concat(vec![load(2, 0x2468), vec![wsp(2), rsp(1)]]);
    let z = run_program(body, 1, 0x2468);
    assert_eq!(z.cpu().sp, 0x2468);
}

#[test]
fn wpsr_test() {
    let body = concat(vec![load(2, 0x00F0), vec![wpsr(2), rpsr(1)]]);
    let z = run_program(body, 1, 0x00F0);
    assert_eq!(z.cpu().psr, 0x00F0);
}

#[test]
fn wtlr_test() {
    let body = concat(vec![load(2, 0xCAFE), vec![wtlr(2), rtlr(1)]]);
    let z = run_program(body, 1, 0xCAFE);
    assert_eq!(z.cpu().tlr, 0xCAFE);
}

#[test]
fn wthr_test() {
    let body = concat(vec![load(2, 0xBABE), vec![wthr(2), rthr(1)]]);
    let z = run_program(body, 1, 0xBABE);
    assert_eq!(z.cpu().thr, 0xBABE);
}

#[test]
fn wppc_test() {
    let body = concat(vec![load(2, 0x9000), vec![wppc(2), rppc(1)]]);
    let z = run_program(body, 1, 0x9000);
    assert_eq!(z.cpu().ppc, 0x9000);
}

#[test]
fn wppsr_test() {
    let body = concat(vec![load(2, 0x0003), vec![wppsr(2), rppsr(1)]]);
    let z = run_program(body, 1, 0x0003);
    assert_eq!(z.cpu().ppsr, 0x0003);
}

#[test]
fn timer_register_join_and_split() {
    // thr:tlr = 0x1234:0x5678 joined into tr, then split back after clearing the halves.
    let body = concat(vec![
        load(1, 0x1234),
        load(2, 0x5678),
        vec![wthr(1), wtlr(2), wtr(), wthr(0), wtlr(0), rtr(), rthr(3)],
    ]);
    let z = run_program(body, 3, 0x1234);
    assert_eq!(z.cpu().tr, 0x1234_5678);
    assert_eq!(z.cpu().tlr, 0x5678);
}

#[test]
fn rom_is_writable() {
    let body = concat(vec![load(1, 0xABCD), load(2, 0x9000), vec![sw(1, 2, 0), lw(3, 2, 0)]]);
    let z = run_program(body, 3, 0xABCD);
    assert_eq!(z.memory().read_from_memory(&0x9000, false).unwrap(), 0xABCD);
}
