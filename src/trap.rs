//! The machine-mode trap dispatcher.
//!
//! Every trap runs through one [`HartContext`]: it first polls the hart's
//! lifecycle cell for a boot request, then classifies the trap and routes it
//! to the SBI router, the CSR and atomic-instruction emulation, the timer
//! handling, or delegation to supervisor mode. Work that only the hardware or
//! the extension implementations can do is asked of the caller as an
//! [`Action`]; the caller answers with an [`Event`] and the dispatch goes on.
use vstd::prelude::*;
use crate::atomic::{
    code_word, completion_step, emulate_step, word, AtomicEmulator, EmuState, EmuStep, Emulated,
    EmulationError, MemWrite,
};
use crate::decode::{atomic_of, csr_inst_of, decode_atomic, decode_csr, AtomicInst, CsrInst};
use crate::hsm::{
    prepare_model, start_model, stop_model, HartState, HsmCell, HsmModel, Supervisor,
};
use crate::regs::{is_shim_register, register_written, Registers};
use crate::timer::{high_word, low_word};
use crate::sbi::{
    getchar_code, legacy_getchar_reply, legacy_putchar_reply, route_call, route_spec, Routed,
    SbiResult, EID_HSM, HART_STOP, RET_SUCCESS,
};

verus! {

/// The `time` CSR.
pub const CSR_TIME: u32 = 0xc01;

/// The `timeh` CSR: upper half of `time` on 32-bit harts.
pub const CSR_TIMEH: u32 = 0xc81;

/// Privilege mode a trap was taken from.
#[derive(Clone, Copy, Debug, PartialEq, Eq, Structural)]
pub enum Privilege {
    User,
    Supervisor,
    Machine,
}

/// Cause of a machine-mode trap.
#[derive(Clone, Copy, Debug, PartialEq, Eq, Structural)]
pub enum TrapCause {
    SupervisorEnvCall,
    IllegalInstruction,
    LoadFault,
    StoreFault,
    MachineTimer,
    /// Any other exception or interrupt, by its cause code.
    Other { interrupt: bool, code: usize },
}

/// The trapped context: its registers, the trapping program counter, the
/// privilege mode it ran in and the trap value (the instruction word, for an
/// illegal instruction).
#[derive(Clone, Copy, Debug)]
pub struct TrapFrame {
    pub regs: Registers,
    pub pc: usize,
    pub prev: Privilege,
    pub tval: usize,
}

/// Conditions the firmware cannot recover from.
#[derive(Clone, Copy, Debug, PartialEq, Eq, Structural)]
pub enum Fatal {
    /// An illegal instruction or access fault raised by machine mode itself.
    TrapFromMachineMode(TrapCause),
    /// An atomic instruction that cannot be emulated.
    Emulation(EmulationError),
    /// An SBI call that neither an extension nor the firmware serves.
    UnsupportedCall { extension: usize, function: usize },
    /// An event that does not answer the action asked for.
    UnexpectedEvent,
}

/// Side effects to carry out before returning to the trapped context.
#[derive(Debug, PartialEq, Eq)]
pub struct Effects {
    /// Stores to memory, in order.
    pub writes: Vec<MemWrite>,
    /// Whether to flush the instruction cache after the stores.
    pub fence_i: bool,
    /// A new value for the timer comparator.
    pub timecmp: Option<u64>,
    /// Whether to raise the supervisor timer-pending bit.
    pub supervisor_timer: bool,
}

/// What the caller is to do next.
#[derive(Debug, PartialEq, Eq)]
pub enum Action {
    /// Enter supervisor mode at the given entry, with `a0` = hart id and `a1` = opaque.
    Boot(Supervisor),
    /// Carry out the effects and return to the (updated) trapped context.
    Restore(Effects),
    /// Hand the trap to supervisor mode.
    Delegate,
    /// The hart is stopped: wait for a wake-up, then answer [`Event::Wake`].
    Park,
    /// Stop the firmware with a report.
    Halt(Fatal),
    /// Let the extensions handle this call, then answer [`Event::SbiReturned`].
    CallSbi { extension: usize, function: usize, args: [usize; 6] },
    /// Send one byte to the console, then answer [`Event::Sent`].
    PutChar(u8),
    /// Poll the console for one byte, then answer [`Event::Received`].
    GetChar,
    /// Read the instruction halfwords at this address, then answer [`Event::Code`].
    FetchCode(usize),
    /// Read the 32-bit word at this address, then answer [`Event::Loaded`].
    Load(usize),
}

/// The caller's answer to an [`Action`].
#[derive(Debug)]
pub enum Event {
    SbiReturned(SbiResult),
    Sent,
    Received(Option<u8>),
    Code(Vec<u16>),
    Loaded(u32),
    Wake,
}

/// What the dispatcher waits for between a request and its answer.
pub enum Pending {
    Idle,
    Sbi,
    PutChar,
    GetChar,
    Code,
    Operand { inst: AtomicInst, code: Vec<u16> },
    Parked,
}

/// [`Action`] as a mathematical value.
pub enum Outcome {
    Boot(Supervisor),
    Restore { writes: Seq<MemWrite>, fence_i: bool, timecmp: Option<u64>, supervisor_timer: bool },
    Delegate,
    Park,
    Halt(Fatal),
    CallSbi { extension: usize, function: usize, args: Seq<usize> },
    PutChar(u8),
    GetChar,
    FetchCode(usize),
    Load(usize),
}

pub open spec fn outcome_of(a: Action) -> Outcome {
    match a {
        Action::Boot(s) => Outcome::Boot(s),
        Action::Restore(e) => Outcome::Restore {
            writes: e.writes@,
            fence_i: e.fence_i,
            timecmp: e.timecmp,
            supervisor_timer: e.supervisor_timer,
        },
        Action::Delegate => Outcome::Delegate,
        Action::Park => Outcome::Park,
        Action::Halt(f) => Outcome::Halt(f),
        Action::CallSbi { extension, function, args } => Outcome::CallSbi {
            extension,
            function,
            args: args@,
        },
        Action::PutChar(b) => Outcome::PutChar(b),
        Action::GetChar => Outcome::GetChar,
        Action::FetchCode(a) => Outcome::FetchCode(a),
        Action::Load(a) => Outcome::Load(a),
    }
}

/// Return to the trapped context with no side effects.
pub open spec fn plain_restore() -> Outcome {
    Outcome::Restore { writes: seq![], fence_i: false, timecmp: None, supervisor_timer: false }
}

/// Mathematical value of a [`HartContext`].
pub struct HartModel {
    pub hsm: HsmModel<Supervisor>,
    pub emu: EmuState,
    pub pending: Pending,
}

pub open spec fn with_pending(m: HartModel, p: Pending) -> HartModel {
    HartModel { hsm: m.hsm, emu: m.emu, pending: p }
}

/// `f2` is `f` with register `rd` set to `v` and the program counter moved
/// past the trapping instruction.
pub open spec fn frame_stepped(f: TrapFrame, f2: TrapFrame, rd: u32, v: usize) -> bool {
    register_written(f.regs, f2.regs, rd, v) && f2.pc == f.pc.wrapping_add(4) && f2.prev == f.prev
        && f2.tval == f.tval
}

/// `f2` is `f` with `a0`, `a1` set to the reply and the program counter moved
/// past the call.
pub open spec fn frame_replied(f: TrapFrame, f2: TrapFrame, ret: SbiResult) -> bool {
    f2.regs.a@ == f.regs.a@.update(0, ret.error).update(1, ret.value) && f2.regs.t == f.regs.t
        && f2.regs.s == f.regs.s && f2.regs.gp == f.regs.gp && f2.regs.tp == f.regs.tp && f2.pc
        == f.pc.wrapping_add(4) && f2.prev == f.prev && f2.tval == f.tval
}

/// Outcome of an emulation step: on success the emulator moves on, the
/// destination register is written and the context resumes after the
/// instruction; an error halts with nothing changed.
pub open spec fn emulation_applied(
    step: Result<EmuStep, EmulationError>,
    m: HartModel,
    f: TrapFrame,
    m2: HartModel,
    f2: TrapFrame,
    o: Outcome,
) -> bool {
    match step {
        Ok(st) => m2 == HartModel { hsm: m.hsm, emu: st.state, pending: Pending::Idle }
            && frame_stepped(f, f2, st.rd, st.rd_value) && o == Outcome::Restore {
            writes: st.writes,
            fence_i: st.fence_i,
            timecmp: None,
            supervisor_timer: false,
        },
        Err(e) => m2 == with_pending(m, Pending::Idle) && f2 == f && o == Outcome::Halt(
            Fatal::Emulation(e),
        ),
    }
}

/// A read of `time` or `timeh` into `rd`, emulated with the timer value `now`.
pub open spec fn time_read(
    m: HartModel,
    f: TrapFrame,
    rd: u32,
    v: usize,
    m2: HartModel,
    f2: TrapFrame,
    o: Outcome,
) -> bool {
    if is_shim_register(rd) {
        m2 == with_pending(m, Pending::Idle) && frame_stepped(f, f2, rd, v) && o == plain_restore()
    } else {
        m2 == with_pending(m, Pending::Idle) && f2 == f && o == Outcome::Halt(
            Fatal::Emulation(EmulationError::InvalidRegister(rd)),
        )
    }
}

/// What a new trap of cause `cause` does, `now` being the timer value.
pub open spec fn begin_spec(
    m: HartModel,
    f: TrapFrame,
    cause: TrapCause,
    now: u64,
    m2: HartModel,
    f2: TrapFrame,
    o: Outcome,
) -> bool {
    let idle = with_pending(m, Pending::Idle);
    if m.hsm.state == HartState::StartPending {
        m2 == HartModel { hsm: start_model(m.hsm).0, emu: m.emu, pending: Pending::Idle } && f2 == f
            && o == Outcome::Boot(start_model(m.hsm).1->Ok_0)
    } else {
        match cause {
            TrapCause::SupervisorEnvCall => m2 == with_pending(m, Pending::Sbi) && f2 == f && o
                == Outcome::CallSbi {
                extension: f.regs.a@[7],
                function: f.regs.a@[6],
                args: f.regs.a@.subrange(0, 6),
            },
            TrapCause::IllegalInstruction => if f.prev == Privilege::Machine {
                m2 == idle && f2 == f && o == Outcome::Halt(Fatal::TrapFromMachineMode(cause))
            } else {
                match csr_inst_of(f.tval as u32) {
                    Some(CsrInst::ReadSet { csr, rd }) if csr == CSR_TIME => time_read(
                        m,
                        f,
                        rd,
                        now as u32 as usize,
                        m2,
                        f2,
                        o,
                    ),
                    Some(CsrInst::ReadSet { csr, rd }) if csr == CSR_TIMEH => time_read(
                        m,
                        f,
                        rd,
                        (now >> 32) as u32 as usize,
                        m2,
                        f2,
                        o,
                    ),
                    Some(CsrInst::ReadWrite { csr, rd }) if csr == CSR_TIME => match completion_step(
                        m.emu,
                        f.regs,
                        f.pc,
                    ) {
                        Some(step) => emulation_applied(step, m, f, m2, f2, o),
                        None => m2 == idle && f2 == f && o == Outcome::Delegate,
                    },
                    _ => m2 == idle && f2 == f && o == Outcome::Delegate,
                }
            },
            TrapCause::LoadFault | TrapCause::StoreFault => if f.prev == Privilege::Machine {
                m2 == idle && f2 == f && o == Outcome::Halt(Fatal::TrapFromMachineMode(cause))
            } else {
                m2 == with_pending(m, Pending::Code) && f2 == f && o == Outcome::FetchCode(f.pc)
            },
            TrapCause::MachineTimer => m2 == idle && f2 == f && o == (Outcome::Restore {
                writes: seq![],
                fence_i: false,
                timecmp: Some(u64::MAX),
                supervisor_timer: true,
            }),
            TrapCause::Other { .. } => m2 == idle && f2 == f && o == Outcome::Delegate,
        }
    }
}

/// What the answer `event` to the pending request does.
pub open spec fn resume_spec(
    m: HartModel,
    f: TrapFrame,
    event: Event,
    m2: HartModel,
    f2: TrapFrame,
    o: Outcome,
) -> bool {
    let idle = with_pending(m, Pending::Idle);
    match (m.pending, event) {
        (Pending::Sbi, Event::SbiReturned(ret)) => {
            let args = [
                f.regs.a@[0],
                f.regs.a@[1],
                f.regs.a@[2],
                f.regs.a@[3],
                f.regs.a@[4],
                f.regs.a@[5],
            ];
            match route_spec(f.regs.a@[7], f.regs.a@[6], args, ret) {
                Routed::Reply(r) => m2 == idle && frame_replied(f, f2, r) && o == plain_restore(),
                Routed::StopHart => m2 == HartModel {
                    hsm: stop_model(m.hsm),
                    emu: m.emu,
                    pending: Pending::Parked,
                } && f2 == f && o == Outcome::Park,
                Routed::Resume { start_addr, opaque } => m2 == idle && f2 == f && o == Outcome::Boot(
                    Supervisor { start_addr, opaque },
                ),
                Routed::PutChar(b) => m2 == with_pending(m, Pending::PutChar) && f2 == f && o
                    == Outcome::PutChar(b),
                Routed::GetChar => m2 == with_pending(m, Pending::GetChar) && f2 == f && o
                    == Outcome::GetChar,
                Routed::Unsupported { extension, function } => m2 == idle && f2 == f && o
                    == Outcome::Halt(Fatal::UnsupportedCall { extension, function }),
            }
        },
        (Pending::PutChar, Event::Sent) => m2 == idle && frame_replied(
            f,
            f2,
            SbiResult { error: RET_SUCCESS, value: f.regs.a@[1] },
        ) && o == plain_restore(),
        (Pending::GetChar, Event::Received(b)) => m2 == idle && frame_replied(
            f,
            f2,
            SbiResult { error: getchar_code(b), value: f.regs.a@[1] },
        ) && o == plain_restore(),
        (Pending::Code, Event::Code(code)) => if code@.len() < 2 {
            m2 == idle && f2 == f && o == Outcome::Delegate
        } else {
            match atomic_of(code_word(code@, f.pc, None, 0)) {
                None => m2 == idle && f2 == f && o == Outcome::Delegate,
                Some(inst) => if inst is StoreConditional {
                    emulation_applied(emulate_step(m.emu, f.regs, inst, f.pc, code@, 0), m, f, m2, f2, o)
                } else {
                    let rs1 = match inst {
                        AtomicInst::LoadReserved { rs1, .. } => rs1,
                        AtomicInst::StoreConditional { rs1, .. } => rs1,
                        AtomicInst::Amo { rs1, .. } => rs1,
                    };
                    if is_shim_register(rs1) {
                        m2 == with_pending(m, Pending::Operand { inst, code }) && f2 == f && o
                            == Outcome::Load(f.regs.value_of(rs1))
                    } else {
                        m2 == idle && f2 == f && o == Outcome::Halt(
                            Fatal::Emulation(EmulationError::InvalidRegister(rs1)),
                        )
                    }
                },
            }
        },
        (Pending::Operand { inst, code }, Event::Loaded(v)) => emulation_applied(
            emulate_step(m.emu, f.regs, inst, f.pc, code@, v),
            m,
            f,
            m2,
            f2,
            o,
        ),
        (Pending::Parked, Event::Wake) => if m.hsm.state == HartState::StartPending {
            m2 == HartModel { hsm: start_model(m.hsm).0, emu: m.emu, pending: Pending::Idle } && f2
                == f && o == Outcome::Boot(start_model(m.hsm).1->Ok_0)
        } else {
            m2 == m && f2 == f && o == Outcome::Park
        },
        _ => m2 == idle && f2 == f && o == Outcome::Halt(Fatal::UnexpectedEvent),
    }
}


/// Per-hart state of the trap dispatcher: the lifecycle cell, the atomic
/// emulator, and the request the dispatcher waits on.
pub struct HartContext {
    hsm: HsmCell<Supervisor>,
    emu: AtomicEmulator,
    pending: Pending,
}

impl View for HartContext {
    type V = HartModel;

    closed spec fn view(&self) -> HartModel {
        HartModel { hsm: self.hsm@, emu: self.emu@, pending: self.pending }
    }
}

fn no_effects() -> (r: Effects)
    ensures
        outcome_of(Action::Restore(r)) == plain_restore(),
{
    let writes: Vec<MemWrite> = Vec::new();
    assert(writes@ =~= Seq::<MemWrite>::empty());
    Effects { writes, fence_i: false, timecmp: None, supervisor_timer: false }
}

fn reply(frame: &mut TrapFrame, ret: SbiResult)
    ensures
        frame_replied(*old(frame), *final(frame), ret),
{
    frame.regs.a[0] = ret.error;
    frame.regs.a[1] = ret.value;
    frame.pc = frame.pc.wrapping_add(4);
}

fn finish_emulation(frame: &mut TrapFrame, res: Result<Emulated, EmulationError>) -> (r: Action)
    ensures
        res matches Ok(em) ==> final(frame).pc == old(frame).pc.wrapping_add(4) && final(frame).regs
            == old(frame).regs && final(frame).prev == old(frame).prev && final(frame).tval == old(
            frame,
        ).tval && outcome_of(r) == (Outcome::Restore {
            writes: em.writes@,
            fence_i: em.fence_i,
            timecmp: None,
            supervisor_timer: false,
        }),
        res matches Err(e) ==> *final(frame) == *old(frame) && outcome_of(r) == Outcome::Halt(
            Fatal::Emulation(e),
        ),
{
    match res {
        Ok(em) => {
            frame.pc = frame.pc.wrapping_add(4);
            Action::Restore(
                Effects { writes: em.writes, fence_i: em.fence_i, timecmp: None, supervisor_timer: false },
            )
        },
        Err(e) => Action::Halt(Fatal::Emulation(e)),
    }
}

fn time_read_exec(frame: &mut TrapFrame, rd: u32, v: usize) -> (r: Action)
    ensures
        is_shim_register(rd) ==> frame_stepped(*old(frame), *final(frame), rd, v) && outcome_of(r)
            == plain_restore(),
        !is_shim_register(rd) ==> *final(frame) == *old(frame) && outcome_of(r) == Outcome::Halt(
            Fatal::Emulation(EmulationError::InvalidRegister(rd)),
        ),
{
    if rd == 0 || (3 <= rd && rd <= 31) {
        frame.regs.write_register(rd, v);
        frame.pc = frame.pc.wrapping_add(4);
        Action::Restore(no_effects())
    } else {
        Action::Halt(Fatal::Emulation(EmulationError::InvalidRegister(rd)))
    }
}

impl HartContext {
    /// A stopped hart with no reservation, no breakpoint and nothing pending.
    pub fn new() -> (r: Self)
        ensures
            r@.hsm.state == HartState::Stopped,
            r@.hsm.payload is None,
            r@.emu == (EmuState { reserved: 0, breakpoint: None }),
            r@.pending is Idle,
    {
        HartContext { hsm: HsmCell::new(), emu: AtomicEmulator::new(), pending: Pending::Idle }
    }

    /// Records a boot request for this hart; the next trap it takes boots it.
    pub fn prepare(&mut self, s: Supervisor)
        ensures
            final(self)@ == (HartModel {
                hsm: prepare_model(old(self)@.hsm, s),
                emu: old(self)@.emu,
                pending: old(self)@.pending,
            }),
    {
        self.hsm.prepare(s);
    }

    /// The hart's lifecycle state.
    pub fn hart_state(&self) -> (r: HartState)
        ensures
            r == self@.hsm.state,
    {
        self.hsm.state()
    }

    /// Starts dispatching a trap of cause `cause` taken in `frame`; `now` is
    /// the machine timer's value. A pending boot request wins over the trap.
    pub fn begin(&mut self, frame: &mut TrapFrame, cause: TrapCause, now: u64) -> (r: Action)
        ensures
            begin_spec(old(self)@, *old(frame), cause, now, final(self)@, *final(frame), outcome_of(r)),
    {
        self.pending = Pending::Idle;
        match self.hsm.start() {
            Ok(s) => {
                return Action::Boot(s);
            },
            Err(_) => {},
        }
        match cause {
            TrapCause::SupervisorEnvCall => {
                self.pending = Pending::Sbi;
                let args = [
                    frame.regs.a[0],
                    frame.regs.a[1],
                    frame.regs.a[2],
                    frame.regs.a[3],
                    frame.regs.a[4],
                    frame.regs.a[5],
                ];
                assert(args@ =~= frame.regs.a@.subrange(0, 6));
                Action::CallSbi { extension: frame.regs.a[7], function: frame.regs.a[6], args }
            },
            TrapCause::IllegalInstruction => {
                if frame.prev == Privilege::Machine {
                    return Action::Halt(Fatal::TrapFromMachineMode(cause));
                }
                let inst = #[verifier::truncate] (frame.tval as u32);
                match decode_csr(inst) {
                    Some(CsrInst::ReadSet { csr, rd }) => {
                        if csr == CSR_TIME {
                            time_read_exec(frame, rd, low_word(now) as usize)
                        } else if csr == CSR_TIMEH {
                            time_read_exec(frame, rd, high_word(now) as usize)
                        } else {
                            Action::Delegate
                        }
                    },
                    Some(CsrInst::ReadWrite { csr, rd }) => {
                        if csr == CSR_TIME {
                            match self.emu.complete_store_conditional(&mut frame.regs, frame.pc) {
                                Some(res) => finish_emulation(frame, res),
                                None => Action::Delegate,
                            }
                        } else {
                            Action::Delegate
                        }
                    },
                    None => Action::Delegate,
                }
            },
            TrapCause::LoadFault | TrapCause::StoreFault => {
                if frame.prev == Privilege::Machine {
                    return Action::Halt(Fatal::TrapFromMachineMode(cause));
                }
                self.pending = Pending::Code;
                Action::FetchCode(frame.pc)
            },
            TrapCause::MachineTimer => {
                let mut e = no_effects();
                e.timecmp = Some(u64::MAX);
                e.supervisor_timer = true;
                Action::Restore(e)
            },
            TrapCause::Other { .. } => Action::Delegate,
        }
    }

    /// Goes on with the dispatch once the caller answers the last request with `event`.
    pub fn resume(&mut self, frame: &mut TrapFrame, event: Event) -> (r: Action)
        ensures
            resume_spec(old(self)@, *old(frame), event, final(self)@, *final(frame), outcome_of(r)),
    {
        let mut pending = Pending::Idle;
        std::mem::swap(&mut self.pending, &mut pending);
        match (pending, event) {
            (Pending::Sbi, Event::SbiReturned(ret)) => {
                let args = [
                    frame.regs.a[0],
                    frame.regs.a[1],
                    frame.regs.a[2],
                    frame.regs.a[3],
                    frame.regs.a[4],
                    frame.regs.a[5],
                ];
                match route_call(frame.regs.a[7], frame.regs.a[6], args, ret) {
                    Routed::Reply(r) => {
                        reply(frame, r);
                        let a = Action::Restore(no_effects());
                        a
                    },
                    Routed::StopHart => {
                        self.hsm.stop();
                        self.pending = Pending::Parked;
                        Action::Park
                    },
                    Routed::Resume { start_addr, opaque } => Action::Boot(Supervisor { start_addr, opaque }),
                    Routed::PutChar(b) => {
                        self.pending = Pending::PutChar;
                        Action::PutChar(b)
                    },
                    Routed::GetChar => {
                        self.pending = Pending::GetChar;
                        Action::GetChar
                    },
                    Routed::Unsupported { extension, function } => Action::Halt(
                        Fatal::UnsupportedCall { extension, function },
                    ),
                }
            },
            (Pending::PutChar, Event::Sent) => {
                let r = legacy_putchar_reply(frame.regs.a[1]);
                reply(frame, r);
                let a = Action::Restore(no_effects());
                a
            },
            (Pending::GetChar, Event::Received(b)) => {
                let r = legacy_getchar_reply(b, frame.regs.a[1]);
                reply(frame, r);
                let a = Action::Restore(no_effects());
                a
            },
            (Pending::Code, Event::Code(code)) => {
                if code.len() < 2 {
                    return Action::Delegate;
                }
                let w = word(&code, frame.pc, None, 0);
                match decode_atomic(w) {
                    None => Action::Delegate,
                    Some(inst) => {
                        let rs1 = match inst {
                            AtomicInst::LoadReserved { rs1, .. } => rs1,
                            AtomicInst::StoreConditional { rs1, .. } => {
                                let res = self.emu.emulate(&mut frame.regs, inst, frame.pc, &code, 0);
                                return finish_emulation(frame, res);
                            },
                            AtomicInst::Amo { rs1, .. } => rs1,
                        };
                        if rs1 == 0 || (3 <= rs1 && rs1 <= 31) {
                            let addr = frame.regs.read_register(rs1);
                            self.pending = Pending::Operand { inst, code };
                            Action::Load(addr)
                        } else {
                            Action::Halt(Fatal::Emulation(EmulationError::InvalidRegister(rs1)))
                        }
                    },
                }
            },
            (Pending::Operand { inst, code }, Event::Loaded(v)) => {
                let res = self.emu.emulate(&mut frame.regs, inst, frame.pc, &code, v);
                finish_emulation(frame, res)
            },
            (Pending::Parked, Event::Wake) => {
                match self.hsm.start() {
                    Ok(s) => Action::Boot(s),
                    Err(_) => {
                        self.pending = Pending::Parked;
                        Action::Park
                    },
                }
            },
            _ => Action::Halt(Fatal::UnexpectedEvent),
        }
    }
}


/// A hart-stop call that the hart-state-management extension accepts, made
/// on a started hart, parks the hart instead of resuming the caller, and
/// leaves it in a state from which the next `start` fails with `Stopped`.
pub proof fn law_hart_stop_parks(
    m: HartModel,
    f: TrapFrame,
    now: u64,
    m1: HartModel,
    f1: TrapFrame,
    o1: Outcome,
    ret: SbiResult,
    m2: HartModel,
    f2: TrapFrame,
    o2: Outcome,
)
    requires
        m.hsm.state == HartState::Started,
        f.regs.a@[7] == EID_HSM,
        f.regs.a@[6] == HART_STOP,
        ret.error == RET_SUCCESS,
        begin_spec(m, f, TrapCause::SupervisorEnvCall, now, m1, f1, o1),
        resume_spec(m1, f1, Event::SbiReturned(ret), m2, f2, o2),
    ensures
        o1 == (Outcome::CallSbi { extension: EID_HSM, function: HART_STOP, args: f.regs.a@.subrange(0, 6) }),
        o2 == Outcome::Park,
        f2 == f,
        start_model(m2.hsm).1 == Err::<Supervisor, HartState>(HartState::Stopped),
{
}

/// A machine timer interrupt (with no boot pending) disarms the comparator
/// by setting it to its maximum, raises the supervisor timer-pending bit, and
/// resumes the trapped context with its registers unchanged.
pub proof fn law_timer_interrupt(m: HartModel, f: TrapFrame, now: u64, m2: HartModel, f2: TrapFrame, o: Outcome)
    requires
        m.hsm.state != HartState::StartPending,
        begin_spec(m, f, TrapCause::MachineTimer, now, m2, f2, o),
    ensures
        o == (Outcome::Restore {
            writes: seq![],
            fence_i: false,
            timecmp: Some(u64::MAX),
            supervisor_timer: true,
        }),
        f2 == f,
{
}

/// Machine-level trap registers consulted and changed by delegation.
#[derive(Clone, Copy, Debug, PartialEq, Eq, Structural)]
pub struct MachineTrapCsrs {
    pub mepc: usize,
    pub mcause: usize,
    pub mtval: usize,
    /// `mstatus.MPP`: the mode the trap came from, and the mode `mret` returns to.
    pub mpp: Privilege,
}

/// Supervisor-level trap registers written by delegation.
#[derive(Clone, Copy, Debug, PartialEq, Eq, Structural)]
pub struct SupervisorTrapCsrs {
    pub sepc: usize,
    pub scause: usize,
    pub stval: usize,
    /// `sstatus.SIE`
    pub sie: bool,
    /// `sstatus.SPP`
    pub spp: Privilege,
    pub stvec: usize,
}

/// Hands the current trap to supervisor mode: its cause, value and program
/// counter are copied to the supervisor registers, supervisor interrupts are
/// disabled, `SPP` records the mode the trap came from, and `mret` will enter
/// supervisor mode at the supervisor trap vector.
pub fn delegate(m: &mut MachineTrapCsrs, s: &mut SupervisorTrapCsrs)
    ensures
        final(s).sepc == old(m).mepc,
        final(s).scause == old(m).mcause,
        final(s).stval == old(m).mtval,
        !final(s).sie,
        final(s).spp == (if old(m).mpp == Privilege::Supervisor {
            Privilege::Supervisor
        } else {
            Privilege::User
        }),
        final(s).stvec == old(s).stvec,
        final(m).mpp == Privilege::Supervisor,
        final(m).mepc == old(s).stvec & !3usize,
        final(m).mcause == old(m).mcause,
        final(m).mtval == old(m).mtval,
{
    s.sepc = m.mepc;
    s.scause = m.mcause;
    s.stval = m.mtval;
    s.sie = false;
    s.spp = if m.mpp == Privilege::Supervisor {
        Privilege::Supervisor
    } else {
        Privilege::User
    };
    m.mpp = Privilege::Supervisor;
    m.mepc = s.stvec & !3usize;
}

} // verus!
