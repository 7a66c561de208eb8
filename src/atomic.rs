//! Emulation of word-sized atomic instructions on harts that lack them.
//!
//! An AMO is carried out within the trap that it raised. A load-reserved
//! records the reserved address and plants a breakpoint on the matching
//! store-conditional; the trap that breakpoint raises completes the pair.
use vstd::prelude::*;
use crate::decode::{
    amo_w_form, atomic_of, decode_atomic, is_store_conditional, AmoOp, AtomicInst,
};
use crate::regs::{is_shim_register, register_written, Registers};

verus! {

/// `csrrw zero, time, zero`: the instruction planted as a breakpoint. Writing
/// the read-only `time` CSR always raises an illegal-instruction trap.
pub const BREAKPOINT_INST: u32 = 0xc010_1073;

/// How many instructions after a load-reserved are searched for its store-conditional.
pub const SCAN_LIMIT: usize = 16;

/// An instruction word replaced by [`BREAKPOINT_INST`], and what it held before.
#[derive(Clone, Copy, Debug, PartialEq, Eq, Structural)]
pub struct Breakpoint {
    pub addr: usize,
    pub original: u32,
}

/// A 32-bit store to memory that the caller must carry out.
#[derive(Clone, Copy, Debug, PartialEq, Eq, Structural)]
pub struct MemWrite {
    pub addr: usize,
    pub value: u32,
}

/// Why an atomic instruction could not be emulated. Both are fatal.
#[derive(Clone, Copy, Debug, PartialEq, Eq, Structural)]
pub enum EmulationError {
    /// No store-conditional within [`SCAN_LIMIT`] instructions of a load-reserved.
    NoMatchingStoreConditional,
    /// An operand names a register the shim does not serve.
    InvalidRegister(u32),
}

/// Memory effects of one emulated instruction: stores to carry out in order,
/// and whether the instruction cache must then be flushed.
#[derive(Debug, PartialEq, Eq)]
pub struct Emulated {
    pub writes: Vec<MemWrite>,
    pub fence_i: bool,
}

/// Mathematical value of an [`AtomicEmulator`].
pub struct EmuState {
    /// Address reserved by the last load-reserved; zero when none is.
    pub reserved: usize,
    /// The one planted breakpoint, if any.
    pub breakpoint: Option<Breakpoint>,
}

/// The value an AMO stores, given the old memory word `a` and the source register word `b`.
pub open spec fn amo_value(op: AmoOp, a: u32, b: u32) -> u32 {
    match op {
        AmoOp::Swap => b,
        AmoOp::Add => a.wrapping_add(b),
        AmoOp::Xor => a ^ b,
        AmoOp::And => a & b,
        AmoOp::Or => a | b,
        AmoOp::Min => if (a as i32) <= (b as i32) { a } else { b },
        AmoOp::Max => if (a as i32) >= (b as i32) { a } else { b },
        AmoOp::MinU => if a <= b { a } else { b },
        AmoOp::MaxU => if a >= b { a } else { b },
    }
}

/// Computes the value an AMO stores.
pub fn amo_apply(op: AmoOp, a: u32, b: u32) -> (r: u32)
    ensures
        r == amo_value(op, a, b),
{
    match op {
        AmoOp::Swap => b,
        AmoOp::Add => a.wrapping_add(b),
        AmoOp::Xor => a ^ b,
        AmoOp::And => a & b,
        AmoOp::Or => a | b,
        AmoOp::Min => if (a as i32) <= (b as i32) { a } else { b },
        AmoOp::Max => if (a as i32) >= (b as i32) { a } else { b },
        AmoOp::MinU => if a <= b { a } else { b },
        AmoOp::MaxU => if a >= b { a } else { b },
    }
}

/// Halfword `j` of the code window read at `pc`, as it stands once the
/// breakpoint `bp` (if any) has been removed again.
pub open spec fn halfword_at(code: Seq<u16>, pc: usize, bp: Option<Breakpoint>, j: int) -> u16 {
    if bp is Some && bp->0.addr == pc + 2 * j {
        (bp->0.original & 0xffff) as u16
    } else if bp is Some && bp->0.addr + 2 == pc + 2 * j {
        (bp->0.original >> 16) as u16
    } else {
        code[j]
    }
}

/// The 32-bit word starting at halfword `k` of the restored code window.
pub open spec fn code_word(code: Seq<u16>, pc: usize, bp: Option<Breakpoint>, k: int) -> u32 {
    (halfword_at(code, pc, bp, k) as u32) | ((halfword_at(code, pc, bp, k + 1) as u32) << 16)
}

/// Halfwords that the instruction starting with word `w` takes: one for a
/// compressed encoding, two otherwise.
pub open spec fn inst_halfwords(w: u32) -> int {
    if w & 3 != 3 {
        1
    } else {
        2
    }
}

/// Halfword offset of the first store-conditional among `steps` instructions
/// starting at halfword `k` of the restored window.
pub open spec fn scan_sc(code: Seq<u16>, pc: usize, bp: Option<Breakpoint>, k: int, steps: nat) -> Option<int>
    decreases steps,
{
    if steps == 0 || k < 0 || k + 1 >= code.len() {
        None
    } else if amo_w_form(code_word(code, pc, bp, k), 0b00011) {
        Some(k)
    } else {
        scan_sc(code, pc, bp, k + inst_halfwords(code_word(code, pc, bp, k)), (steps - 1) as nat)
    }
}

/// The store that removes breakpoint `bp` again, if there is one.
pub open spec fn restore_writes(bp: Option<Breakpoint>) -> Seq<MemWrite> {
    match bp {
        Some(b) => seq![MemWrite { addr: b.addr, value: b.original }],
        None => seq![],
    }
}

fn halfword(code: &Vec<u16>, pc: usize, bp: Option<Breakpoint>, j: usize) -> (r: u16)
    requires
        j < code@.len(),
        j <= 64,
    ensures
        r == halfword_at(code@, pc, bp, j as int),
{
    match bp {
        Some(b) => {
            if b.addr >= pc && b.addr - pc == 2 * j {
                (b.original & 0xffff) as u16
            } else if (b.addr >= pc && j >= 1 && b.addr - pc == 2 * j - 2) || (b.addr < pc && pc
                - b.addr == 2 && j == 0) {
                (b.original >> 16) as u16
            } else {
                code[j]
            }
        },
        None => code[j],
    }
}

pub(crate) fn word(code: &Vec<u16>, pc: usize, bp: Option<Breakpoint>, k: usize) -> (r: u32)
    requires
        k + 1 < code@.len(),
        k <= 62,
    ensures
        r == code_word(code@, pc, bp, k as int),
{
    let lo = halfword(code, pc, bp, k) as u32;
    let hi = halfword(code, pc, bp, k + 1) as u32;
    lo | (hi << 16)
}

/// Finds the store-conditional that closes a load-reserved: `code` holds the
/// halfwords read at `pc`, the address of the load-reserved, and `bp` is the
/// breakpoint about to be removed. Returns its halfword offset.
pub fn find_next_sc(code: &Vec<u16>, pc: usize, bp: Option<Breakpoint>) -> (r: Option<usize>)
    ensures
        r is None ==> scan_sc(code@, pc, bp, 0, SCAN_LIMIT as nat) is None,
        r matches Some(k) ==> scan_sc(code@, pc, bp, 0, SCAN_LIMIT as nat) == Some(k as int) && k
            <= 2 * SCAN_LIMIT,
{
    let mut k: usize = 0;
    let mut i: usize = 0;
    while i < SCAN_LIMIT
        invariant
            i <= SCAN_LIMIT,
            k <= 2 * i,
            scan_sc(code@, pc, bp, 0, SCAN_LIMIT as nat) == scan_sc(
                code@,
                pc,
                bp,
                k as int,
                (SCAN_LIMIT - i) as nat,
            ),
        decreases SCAN_LIMIT - i,
    {
        if k + 1 >= code.len() {
            return None;
        }
        let w = word(code, pc, bp, k);
        if is_store_conditional(w) {
            return Some(k);
        }
        if w & 3 != 3 {
            k = k + 1;
        } else {
            k = k + 2;
        }
        i = i + 1;
    }
    None
}

/// Emulator state of one hart: the reservation of an outstanding
/// load-reserved and the breakpoint planted on its store-conditional.
pub struct AtomicEmulator {
    reserved: usize,
    breakpoint: Option<Breakpoint>,
}

impl View for AtomicEmulator {
    type V = EmuState;

    closed spec fn view(&self) -> EmuState {
        EmuState { reserved: self.reserved, breakpoint: self.breakpoint }
    }
}

/// A breakpoint only ever covers a store-conditional.
pub open spec fn emu_wf(s: EmuState) -> bool {
    s.breakpoint matches Some(b) ==> amo_w_form(b.original, 0b00011)
}

/// The first operand register, in the order `rs1`, `rs2`, `rd`, that the shim does not serve.
pub open spec fn first_invalid(regs: Seq<u32>) -> Option<u32>
    decreases regs.len(),
{
    if regs.len() == 0 {
        None
    } else if !is_shim_register(regs[0]) {
        Some(regs[0])
    } else {
        first_invalid(regs.drop_first())
    }
}

/// Operand registers of an atomic instruction, in the order they are checked.
pub open spec fn operands(inst: AtomicInst) -> Seq<u32> {
    match inst {
        AtomicInst::LoadReserved { rd, rs1 } => seq![rs1, rd],
        AtomicInst::StoreConditional { rd, rs1, rs2 } => seq![rs1, rs2, rd],
        AtomicInst::Amo { op, rd, rs1, rs2 } => seq![rs1, rs2, rd],
    }
}

fn check_register(r: u32) -> (res: Result<(), EmulationError>)
    ensures
        res is Ok <==> is_shim_register(r),
        res is Err ==> res == Err::<(), EmulationError>(EmulationError::InvalidRegister(r)),
{
    if r == 0 || (3 <= r && r <= 31) {
        Ok(())
    } else {
        Err(EmulationError::InvalidRegister(r))
    }
}

fn check_operands(inst: AtomicInst) -> (res: Result<(), EmulationError>)
    ensures
        res is Ok <==> first_invalid(operands(inst)) is None,
        res is Ok ==> forall|i: int|
            0 <= i < operands(inst).len() ==> is_shim_register(#[trigger] operands(inst)[i]),
        res matches Err(e) ==> first_invalid(operands(inst)) matches Some(x) && e
            == EmulationError::InvalidRegister(x),
{
    proof {
        reveal_with_fuel(first_invalid, 4);
    }
    let ghost ops = operands(inst);
    match inst {
        AtomicInst::LoadReserved { rd, rs1 } => {
            assert(ops.drop_first() =~= seq![rd]);
            assert(ops.drop_first().drop_first() =~= Seq::<u32>::empty());
            if !(rs1 == 0 || (3 <= rs1 && rs1 <= 31)) {
                return Err(EmulationError::InvalidRegister(rs1));
            }
            check_register(rd)
        },
        AtomicInst::StoreConditional { rd, rs1, rs2 } | AtomicInst::Amo { rd, rs1, rs2, .. } => {
            assert(ops.drop_first() =~= seq![rs2, rd]);
            assert(ops.drop_first().drop_first() =~= seq![rd]);
            assert(ops.drop_first().drop_first().drop_first() =~= Seq::<u32>::empty());
            if !(rs1 == 0 || (3 <= rs1 && rs1 <= 31)) {
                return Err(EmulationError::InvalidRegister(rs1));
            }
            if !(rs2 == 0 || (3 <= rs2 && rs2 <= 31)) {
                return Err(EmulationError::InvalidRegister(rs2));
            }
            check_register(rd)
        },
    }
}


/// What one emulated instruction does: the emulator's next state, the stores
/// to carry out, whether to flush the instruction cache, and the value
/// written to the destination register `rd`.
pub struct EmuStep {
    pub state: EmuState,
    pub writes: Seq<MemWrite>,
    pub fence_i: bool,
    pub rd: u32,
    pub rd_value: usize,
}

/// A store-conditional through `rs1`: it succeeds, storing `rs2`, exactly when
/// `rs1` holds the reserved address; success writes 0 to `rd` and drops the
/// reservation, failure writes 1 and stores nothing.
pub open spec fn sc_step(s: EmuState, regs: Registers, rd: u32, rs1: u32, rs2: u32) -> EmuStep {
    if regs.value_of(rs1) != s.reserved {
        EmuStep { state: s, writes: seq![], fence_i: false, rd, rd_value: 1 }
    } else {
        EmuStep {
            state: EmuState { reserved: 0, breakpoint: s.breakpoint },
            writes: seq![MemWrite { addr: s.reserved, value: regs.value_of(rs2) as u32 }],
            fence_i: false,
            rd,
            rd_value: 0,
        }
    }
}

/// A load-reserved through `rs1` at `pc`: `rd` gets the loaded word, the
/// address is reserved, the old breakpoint is removed and a new one is planted
/// on the next store-conditional, if one lies within reach.
pub open spec fn lr_step(
    s: EmuState,
    regs: Registers,
    rd: u32,
    rs1: u32,
    pc: usize,
    code: Seq<u16>,
    loaded: u32,
) -> Result<EmuStep, EmulationError> {
    let found = scan_sc(code, pc, s.breakpoint, 0, SCAN_LIMIT as nat);
    if found is Some && pc + 2 * found->0 <= usize::MAX {
        let k = found->0;
        let sc_addr = (pc + 2 * k) as usize;
        Ok(
            EmuStep {
                state: EmuState {
                    reserved: regs.value_of(rs1),
                    breakpoint: Some(
                        Breakpoint { addr: sc_addr, original: code_word(code, pc, s.breakpoint, k) },
                    ),
                },
                writes: restore_writes(s.breakpoint).push(
                    MemWrite { addr: sc_addr, value: BREAKPOINT_INST },
                ),
                fence_i: true,
                rd,
                rd_value: loaded as usize,
            },
        )
    } else {
        Err(EmulationError::NoMatchingStoreConditional)
    }
}

/// What emulating `inst`, trapped at `pc`, does. `loaded` is the word at the
/// address held in `rs1`; `code` the halfwords read at `pc`.
pub open spec fn emulate_step(
    s: EmuState,
    regs: Registers,
    inst: AtomicInst,
    pc: usize,
    code: Seq<u16>,
    loaded: u32,
) -> Result<EmuStep, EmulationError> {
    if first_invalid(operands(inst)) is Some {
        Err(EmulationError::InvalidRegister(first_invalid(operands(inst))->0))
    } else {
        match inst {
            AtomicInst::LoadReserved { rd, rs1 } => lr_step(s, regs, rd, rs1, pc, code, loaded),
            AtomicInst::StoreConditional { rd, rs1, rs2 } => Ok(sc_step(s, regs, rd, rs1, rs2)),
            AtomicInst::Amo { op, rd, rs1, rs2 } => Ok(
                EmuStep {
                    state: s,
                    writes: seq![
                        MemWrite {
                            addr: regs.value_of(rs1),
                            value: amo_value(op, loaded, regs.value_of(rs2) as u32),
                        },
                    ],
                    fence_i: false,
                    rd,
                    rd_value: loaded as usize,
                },
            ),
        }
    }
}

/// What the trap raised by the breakpoint at `pc` does: the original
/// store-conditional is put back and then carried out.
pub open spec fn completion_step(s: EmuState, regs: Registers, pc: usize) -> Option<
    Result<EmuStep, EmulationError>,
> {
    if s.breakpoint is Some && s.breakpoint->0.addr == pc && atomic_of(s.breakpoint->0.original) is Some {
        let cleared = EmuState { reserved: s.reserved, breakpoint: None };
        Some(
            match emulate_step(cleared, regs, atomic_of(s.breakpoint->0.original)->0, pc, seq![], 0) {
                Ok(st) => Ok(
                    EmuStep {
                        state: st.state,
                        writes: restore_writes(s.breakpoint) + st.writes,
                        fence_i: true,
                        rd: st.rd,
                        rd_value: st.rd_value,
                    },
                ),
                Err(e) => Err(e),
            },
        )
    } else {
        None
    }
}

/// `r`, and the emulator and registers after the call, are as `step` describes;
/// on an error nothing has changed.
pub open spec fn emulation_done(
    step: Result<EmuStep, EmulationError>,
    r: Result<Emulated, EmulationError>,
    s_old: EmuState,
    s_new: EmuState,
    regs_old: Registers,
    regs_new: Registers,
) -> bool {
    match step {
        Ok(st) => r matches Ok(em) && em.writes@ == st.writes && em.fence_i == st.fence_i
            && s_new == st.state && register_written(regs_old, regs_new, st.rd, st.rd_value),
        Err(e) => r == Err::<Emulated, EmulationError>(e) && s_new == s_old && regs_new == regs_old,
    }
}

impl AtomicEmulator {
    #[verifier::type_invariant]
    spec fn inv(self) -> bool {
        emu_wf(self@)
    }

    /// No reservation and no breakpoint.
    pub fn new() -> (r: Self)
        ensures
            r@.reserved == 0,
            r@.breakpoint is None,
    {
        AtomicEmulator { reserved: 0, breakpoint: None }
    }

    /// The reserved address; zero when there is none.
    pub fn reserved(&self) -> (r: usize)
        ensures
            r == self@.reserved,
    {
        self.reserved
    }

    /// The planted breakpoint, if any.
    pub fn breakpoint(&self) -> (r: Option<Breakpoint>)
        ensures
            r == self@.breakpoint,
            r matches Some(b) ==> amo_w_form(b.original, 0b00011),
    {
        proof {
            use_type_invariant(self);
        }
        self.breakpoint
    }

    /// Carries out the atomic instruction `inst`, which trapped at `pc`, on the
    /// registers `regs`. `loaded` is the word at the address held in `rs1`,
    /// which the caller reads for a load-reserved or an AMO; `code` holds the
    /// halfwords read at `pc`, searched for the store-conditional that closes
    /// a load-reserved. The stores returned are left to the caller.
    pub fn emulate(
        &mut self,
        regs: &mut Registers,
        inst: AtomicInst,
        pc: usize,
        code: &Vec<u16>,
        loaded: u32,
    ) -> (r: Result<Emulated, EmulationError>)
        ensures
            emulation_done(
                emulate_step(old(self)@, *old(regs), inst, pc, code@, loaded),
                r,
                old(self)@,
                final(self)@,
                *old(regs),
                *final(regs),
            ),
    {
        proof {
            use_type_invariant(&*self);
        }
        match check_operands(inst) {
            Err(e) => {
                return Err(e);
            },
            Ok(()) => {},
        }
        assert(forall|i: int| 0 <= i < operands(inst).len() ==> is_shim_register(#[trigger] operands(inst)[i]));
        match inst {
            AtomicInst::LoadReserved { rd, rs1 } => {
                assert(is_shim_register(operands(inst)[0]) && is_shim_register(operands(inst)[1]));
            },
            _ => {
                assert(is_shim_register(operands(inst)[0]) && is_shim_register(operands(inst)[1])
                    && is_shim_register(operands(inst)[2]));
            },
        }
        match inst {
            AtomicInst::LoadReserved { rd, rs1 } => {
                let addr = regs.read_register(rs1);
                let old_bp = self.breakpoint;
                let found = find_next_sc(code, pc, old_bp);
                let k = match found {
                    Some(k) => k,
                    None => {
                        return Err(EmulationError::NoMatchingStoreConditional);
                    },
                };
                if pc > usize::MAX - 2 * k {
                    return Err(EmulationError::NoMatchingStoreConditional);
                }
                let sc_addr = pc + 2 * k;
                assert(k + 1 < code@.len()) by {
                    reveal_with_fuel(scan_sc, 1);
                    lemma_scan_in_window(code@, pc, old_bp, 0, SCAN_LIMIT as nat);
                }
                let original = word(code, pc, old_bp, k);
                proof {
                    lemma_scan_finds_sc(code@, pc, old_bp, 0, SCAN_LIMIT as nat);
                }
                regs.write_register(rd, loaded as usize);
                let mut writes: Vec<MemWrite> = Vec::new();
                match old_bp {
                    Some(b) => {
                        writes.push(MemWrite { addr: b.addr, value: b.original });
                    },
                    None => {},
                }
                writes.push(MemWrite { addr: sc_addr, value: BREAKPOINT_INST });
                *self = AtomicEmulator {
                    reserved: addr,
                    breakpoint: Some(Breakpoint { addr: sc_addr, original }),
                };
                assert(writes@ =~= restore_writes(old_bp).push(
                    MemWrite { addr: sc_addr, value: BREAKPOINT_INST },
                ));
                Ok(Emulated { writes, fence_i: true })
            },
            AtomicInst::StoreConditional { rd, rs1, rs2 } => {
                let addr = regs.read_register(rs1);
                if addr != self.reserved {
                    regs.write_register(rd, 1);
                    Ok(Emulated { writes: Vec::new(), fence_i: false })
                } else {
                    let value = #[verifier::truncate] (regs.read_register(rs2) as u32);
                    let mut writes: Vec<MemWrite> = Vec::new();
                    writes.push(MemWrite { addr, value });
                    regs.write_register(rd, 0);
                    *self = AtomicEmulator { reserved: 0, breakpoint: self.breakpoint };
                    assert(writes@ =~= seq![MemWrite { addr, value }]);
                    Ok(Emulated { writes, fence_i: false })
                }
            },
            AtomicInst::Amo { op, rd, rs1, rs2 } => {
                let addr = regs.read_register(rs1);
                let b = #[verifier::truncate] (regs.read_register(rs2) as u32);
                let value = amo_apply(op, loaded, b);
                regs.write_register(rd, loaded as usize);
                let mut writes: Vec<MemWrite> = Vec::new();
                writes.push(MemWrite { addr, value });
                assert(writes@ =~= seq![MemWrite { addr, value }]);
                Ok(Emulated { writes, fence_i: false })
            },
        }
    }

    /// Handles the trap raised by the planted breakpoint when it was taken at
    /// `pc`: the original store-conditional is written back and carried out.
    /// Gives `None`, changing nothing, when no breakpoint is planted at `pc`.
    pub fn complete_store_conditional(&mut self, regs: &mut Registers, pc: usize) -> (r: Option<
        Result<Emulated, EmulationError>,
    >)
        ensures
            completion_step(old(self)@, *old(regs), pc) is None ==> r is None && final(self)@
                == old(self)@ && *final(regs) == *old(regs),
            completion_step(old(self)@, *old(regs), pc) matches Some(step) ==> r matches Some(res)
                && emulation_done(step, res, old(self)@, final(self)@, *old(regs), *final(regs)),
    {
        proof {
            use_type_invariant(&*self);
        }
        let b = match self.breakpoint {
            Some(b) => b,
            None => {
                return None;
            },
        };
        if b.addr != pc {
            return None;
        }
        let inst = match decode_atomic(b.original) {
            Some(inst) => inst,
            None => {
                return None;
            },
        };
        let saved = AtomicEmulator { reserved: self.reserved, breakpoint: self.breakpoint };
        let saved_regs = *regs;
        *self = AtomicEmulator { reserved: self.reserved, breakpoint: None };
        let empty: Vec<u16> = Vec::new();
        match self.emulate(regs, inst, pc, &empty, 0) {
            Ok(em) => {
                let mut writes: Vec<MemWrite> = Vec::new();
                writes.push(MemWrite { addr: b.addr, value: b.original });
                let mut rest = em.writes;
                writes.append(&mut rest);
                Some(Ok(Emulated { writes, fence_i: true }))
            },
            Err(e) => {
                *self = saved;
                *regs = saved_regs;
                Some(Err(e))
            },
        }
    }
}

/// A store-conditional found by the scan starts inside the window.
proof fn lemma_scan_in_window(code: Seq<u16>, pc: usize, bp: Option<Breakpoint>, k: int, steps: nat)
    ensures
        scan_sc(code, pc, bp, k, steps) matches Some(j) ==> 0 <= j && j + 1 < code.len(),
    decreases steps,
{
    if steps > 0 && k >= 0 && k + 1 < code.len() && !amo_w_form(code_word(code, pc, bp, k), 0b00011) {
        lemma_scan_in_window(code, pc, bp, k + inst_halfwords(code_word(code, pc, bp, k)), (steps - 1) as nat);
    }
}

/// What the scan finds is a store-conditional.
proof fn lemma_scan_finds_sc(code: Seq<u16>, pc: usize, bp: Option<Breakpoint>, k: int, steps: nat)
    ensures
        scan_sc(code, pc, bp, k, steps) matches Some(j) ==> amo_w_form(code_word(code, pc, bp, j), 0b00011),
    decreases steps,
{
    if steps > 0 && k >= 0 && k + 1 < code.len() && !amo_w_form(code_word(code, pc, bp, k), 0b00011) {
        lemma_scan_finds_sc(code, pc, bp, k + inst_halfwords(code_word(code, pc, bp, k)), (steps - 1) as nat);
    }
}


/// Memory after the stores `writes` are carried out in order.
pub open spec fn apply_writes(mem: Map<usize, u32>, writes: Seq<MemWrite>) -> Map<usize, u32>
    decreases writes.len(),
{
    if writes.len() == 0 {
        mem
    } else {
        apply_writes(mem, writes.drop_last()).insert(writes.last().addr, writes.last().value)
    }
}

/// A load-reserved of address `A` that finds its store-conditional reserves
/// `A` and plants a breakpoint on that store-conditional. When the breakpoint
/// traps with `A` still in the store-conditional's address register, the
/// store succeeds (`rd` gets 0) and memory at `A` then holds the stored
/// register's value.
pub proof fn law_reserved_store_succeeds(
    s: EmuState,
    regs: Registers,
    lr_rd: u32,
    lr_rs1: u32,
    pc: usize,
    code: Seq<u16>,
    loaded: u32,
    sc_rd: u32,
    sc_rs1: u32,
    sc_rs2: u32,
    regs_at_sc: Registers,
    mem: Map<usize, u32>,
)
    requires
        emulate_step(s, regs, AtomicInst::LoadReserved { rd: lr_rd, rs1: lr_rs1 }, pc, code, loaded)
            matches Ok(lr) && atomic_of(lr.state.breakpoint->0.original) == Some(
            AtomicInst::StoreConditional { rd: sc_rd, rs1: sc_rs1, rs2: sc_rs2 },
        ),
        is_shim_register(sc_rd) && is_shim_register(sc_rs1) && is_shim_register(sc_rs2),
        regs_at_sc.value_of(sc_rs1) == regs.value_of(lr_rs1),
    ensures
        ({
            let lr = emulate_step(
                s,
                regs,
                AtomicInst::LoadReserved { rd: lr_rd, rs1: lr_rs1 },
                pc,
                code,
                loaded,
            )->Ok_0;
            let addr = regs.value_of(lr_rs1);
            &&& lr.state.reserved == addr
            &&& lr.state.breakpoint is Some
            &&& completion_step(lr.state, regs_at_sc, lr.state.breakpoint->0.addr) matches Some(Ok(st))
                && st.rd == sc_rd && st.rd_value == 0 && apply_writes(mem, st.writes)[addr]
                == regs_at_sc.value_of(sc_rs2) as u32
        }),
{
    reveal_with_fuel(first_invalid, 4);
    let lr = emulate_step(s, regs, AtomicInst::LoadReserved { rd: lr_rd, rs1: lr_rs1 }, pc, code, loaded)->Ok_0;
    let bp = lr.state.breakpoint->0;
    let st = completion_step(lr.state, regs_at_sc, bp.addr)->0->Ok_0;
    let w = st.writes;
    assert(w.drop_last() =~= restore_writes(lr.state.breakpoint));
}

/// A store-conditional whose address register does not hold the reserved
/// address fails: `rd` gets 1 and nothing is stored.
pub proof fn law_unreserved_store_fails(
    s: EmuState,
    regs: Registers,
    rd: u32,
    rs1: u32,
    rs2: u32,
    pc: usize,
    code: Seq<u16>,
    loaded: u32,
)
    requires
        regs.value_of(rs1) != s.reserved,
        first_invalid(operands(AtomicInst::StoreConditional { rd, rs1, rs2 })) is None,
    ensures
        emulate_step(s, regs, AtomicInst::StoreConditional { rd, rs1, rs2 }, pc, code, loaded)
            == Ok::<EmuStep, EmulationError>(
            EmuStep { state: s, writes: seq![], fence_i: false, rd, rd_value: 1 },
        ),
{
}

/// When the store-conditional reached through a breakpoint fails, the only
/// store is the one that puts the original instruction back.
pub proof fn law_unreserved_completion_restores_only(s: EmuState, regs: Registers, pc: usize)
    requires
        emu_wf(s),
        completion_step(s, regs, pc) matches Some(Ok(_)),
        atomic_of(s.breakpoint->0.original)->0 is StoreConditional ==> regs.value_of(
            atomic_of(s.breakpoint->0.original)->0->StoreConditional_rs1,
        ) != s.reserved,
    ensures
        completion_step(s, regs, pc) matches Some(Ok(st)) && st.rd_value == 1 && st.writes
            == restore_writes(s.breakpoint),
{
    let st = completion_step(s, regs, pc)->0->Ok_0;
    let inst = atomic_of(s.breakpoint->0.original)->0;
    assert(st.writes =~= restore_writes(s.breakpoint));
}

} // verus!
