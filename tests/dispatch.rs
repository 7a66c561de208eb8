use rustsbi_hpm::atomic::{EmulationError, MemWrite, BREAKPOINT_INST};
use rustsbi_hpm::hsm::{HartState, Supervisor};
use rustsbi_hpm::regs::Registers;
use rustsbi_hpm::sbi::{
    SbiResult, EID_BASE, EID_HSM, HART_STOP, HART_SUSPEND, LEGACY_CONSOLE_GETCHAR,
    LEGACY_CONSOLE_PUTCHAR, PROBE_EXTENSION, RET_ERR_NOT_SUPPORTED, SUSPEND_NON_RETENTIVE,
};
use rustsbi_hpm::trap::{
    delegate, Action, Effects, Event, Fatal, HartContext, MachineTrapCsrs, Privilege,
    SupervisorTrapCsrs, TrapCause, TrapFrame,
};

fn frame(pc: usize) -> TrapFrame {
    TrapFrame { regs: Registers::new(), pc, prev: Privilege::Supervisor, tval: 0 }
}

fn ecall(eid: usize, fid: usize, args: [usize; 6]) -> TrapFrame {
    let mut f = frame(0x8000_0100);
    f.regs.a[..6].copy_from_slice(&args);
    f.regs.a[6] = fid;
    f.regs.a[7] = eid;
    f
}

fn started() -> HartContext {
    let mut hart = HartContext::new();
    hart.prepare(Supervisor { start_addr: 0x4000_0000, opaque: 0x4030_0000 });
    let mut f = frame(0);
    let boot = hart.begin(&mut f, TrapCause::MachineTimer, 0);
    assert_eq!(boot, Action::Boot(Supervisor { start_addr: 0x4000_0000, opaque: 0x4030_0000 }));
    assert_eq!(hart.hart_state(), HartState::Started);
    hart
}

fn plain_restore() -> Action {
    Action::Restore(Effects { writes: vec![], fence_i: false, timecmp: None, supervisor_timer: false })
}

#[test]
fn pending_boot_wins_over_trap() {
    started();
}

#[test]
fn hart_stop_parks_hart() {
    let mut hart = started();
    let mut f = ecall(EID_HSM, HART_STOP, [0; 6]);
    let before = f;
    let a = hart.begin(&mut f, TrapCause::SupervisorEnvCall, 0);
    assert_eq!(a, Action::CallSbi { extension: EID_HSM, function: HART_STOP, args: [0; 6] });
    let a = hart.resume(&mut f, Event::SbiReturned(SbiResult { error: 0, value: 0 }));
    assert_eq!(a, Action::Park);
    assert_eq!(f.pc, before.pc);
    assert_eq!(hart.hart_state(), HartState::Stopped);
    assert_eq!(hart.resume(&mut f, Event::Wake), Action::Park);
    hart.prepare(Supervisor { start_addr: 0x5000, opaque: 9 });
    assert_eq!(hart.resume(&mut f, Event::Wake), Action::Boot(Supervisor { start_addr: 0x5000, opaque: 9 }));
    assert_eq!(hart.hart_state(), HartState::Started);
}

#[test]
fn timer_interrupt_disarms_comparator() {
    let mut hart = started();
    let mut f = frame(0x8000_0200);
    f.regs.write_register(10, 5);
    f.regs.write_register(20, 6);
    let before = f;
    let a = hart.begin(&mut f, TrapCause::MachineTimer, 1234);
    assert_eq!(
        a,
        Action::Restore(Effects {
            writes: vec![],
            fence_i: false,
            timecmp: Some(u64::MAX),
            supervisor_timer: true,
        })
    );
    assert_eq!(f.pc, before.pc);
    assert_eq!(f.regs.a, before.regs.a);
    assert_eq!(f.regs.s, before.regs.s);
    assert_eq!(f.regs.t, before.regs.t);
}

#[test]
fn ecall_reply_lands_in_a0_a1() {
    let mut hart = started();
    let mut f = ecall(0x5449_4D45, 0, [7, 8, 9, 10, 11, 12]);
    hart.begin(&mut f, TrapCause::SupervisorEnvCall, 0);
    let a = hart.resume(&mut f, Event::SbiReturned(SbiResult { error: 0, value: 42 }));
    assert_eq!(a, plain_restore());
    assert_eq!(f.regs.a, [0, 42, 9, 10, 11, 12, 0, 0x5449_4D45]);
    assert_eq!(f.pc, 0x8000_0104);
}

#[test]
fn ecall_error_is_returned() {
    let mut hart = started();
    let mut f = ecall(EID_HSM, 0, [1, 2, 3, 0, 0, 0]);
    hart.begin(&mut f, TrapCause::SupervisorEnvCall, 0);
    let invalid_param = (-3isize) as usize;
    let a = hart.resume(&mut f, Event::SbiReturned(SbiResult { error: invalid_param, value: 0 }));
    assert_eq!(a, plain_restore());
    assert_eq!(f.regs.a[0], invalid_param);
}

#[test]
fn probe_reports_legacy_console() {
    let mut hart = started();
    let mut f = ecall(EID_BASE, PROBE_EXTENSION, [LEGACY_CONSOLE_PUTCHAR, 0, 0, 0, 0, 0]);
    hart.begin(&mut f, TrapCause::SupervisorEnvCall, 0);
    hart.resume(&mut f, Event::SbiReturned(SbiResult { error: 0, value: 0 }));
    assert_eq!(f.regs.a[0], 0);
    assert_eq!(f.regs.a[1], 1);
}

#[test]
fn legacy_putchar_is_served_locally() {
    let mut hart = started();
    let mut f = ecall(LEGACY_CONSOLE_PUTCHAR, 0, [0x141, 5, 0, 0, 0, 0]);
    hart.begin(&mut f, TrapCause::SupervisorEnvCall, 0);
    let a = hart.resume(&mut f, Event::SbiReturned(SbiResult { error: RET_ERR_NOT_SUPPORTED, value: 0 }));
    assert_eq!(a, Action::PutChar(0x41));
    assert_eq!(hart.resume(&mut f, Event::Sent), plain_restore());
    assert_eq!(f.regs.a[0], 0);
    assert_eq!(f.regs.a[1], 5);
}

#[test]
fn legacy_getchar_is_served_locally() {
    let mut hart = started();
    let mut f = ecall(LEGACY_CONSOLE_GETCHAR, 0, [0, 5, 0, 0, 0, 0]);
    hart.begin(&mut f, TrapCause::SupervisorEnvCall, 0);
    let a = hart.resume(&mut f, Event::SbiReturned(SbiResult { error: RET_ERR_NOT_SUPPORTED, value: 0 }));
    assert_eq!(a, Action::GetChar);
    hart.resume(&mut f, Event::Received(Some(b'x')));
    assert_eq!(f.regs.a[0], b'x' as usize);

    let mut f = ecall(LEGACY_CONSOLE_GETCHAR, 0, [0, 5, 0, 0, 0, 0]);
    hart.begin(&mut f, TrapCause::SupervisorEnvCall, 0);
    hart.resume(&mut f, Event::SbiReturned(SbiResult { error: RET_ERR_NOT_SUPPORTED, value: 0 }));
    hart.resume(&mut f, Event::Received(None));
    assert_eq!(f.regs.a[0], usize::MAX);
    assert_eq!(f.regs.a[1], 5);
}

#[test]
fn unsupported_call_is_fatal() {
    let mut hart = started();
    let mut f = ecall(0x1234, 7, [0; 6]);
    hart.begin(&mut f, TrapCause::SupervisorEnvCall, 0);
    let a = hart.resume(&mut f, Event::SbiReturned(SbiResult { error: RET_ERR_NOT_SUPPORTED, value: 0 }));
    assert_eq!(a, Action::Halt(Fatal::UnsupportedCall { extension: 0x1234, function: 7 }));
}

#[test]
fn non_retentive_suspend_boots_at_resume_address() {
    let mut hart = started();
    let mut f = ecall(EID_HSM, HART_SUSPEND, [SUSPEND_NON_RETENTIVE as usize, 0x8020_0000, 0x55, 0, 0, 0]);
    hart.begin(&mut f, TrapCause::SupervisorEnvCall, 0);
    let a = hart.resume(&mut f, Event::SbiReturned(SbiResult { error: 0, value: 0 }));
    assert_eq!(a, Action::Boot(Supervisor { start_addr: 0x8020_0000, opaque: 0x55 }));
}

#[test]
fn retentive_suspend_returns_to_caller() {
    let mut hart = started();
    let mut f = ecall(EID_HSM, HART_SUSPEND, [0, 0x8020_0000, 0x55, 0, 0, 0]);
    hart.begin(&mut f, TrapCause::SupervisorEnvCall, 0);
    let a = hart.resume(&mut f, Event::SbiReturned(SbiResult { error: 0, value: 0 }));
    assert_eq!(a, plain_restore());
}

#[test]
fn time_csr_reads_are_emulated() {
    let mut hart = started();
    let now = 0x0000_0012_3456_789a_u64;
    let mut f = frame(0x8000_0300);
    f.tval = 0xc010_2573; // csrr a0, time
    assert_eq!(hart.begin(&mut f, TrapCause::IllegalInstruction, now), plain_restore());
    assert_eq!(f.regs.a[0], 0x3456_789a);
    assert_eq!(f.pc, 0x8000_0304);
    f.tval = 0xc810_25f3; // csrr a1, timeh
    hart.begin(&mut f, TrapCause::IllegalInstruction, now);
    assert_eq!(f.regs.a[1], 0x12);
}

#[test]
fn unknown_illegal_instruction_is_delegated() {
    let mut hart = started();
    let mut f = frame(0x8000_0300);
    f.tval = 0x0000_0000;
    assert_eq!(hart.begin(&mut f, TrapCause::IllegalInstruction, 0), Action::Delegate);
    // csrrw with the breakpoint encoding, but no breakpoint planted here
    f.tval = BREAKPOINT_INST as usize;
    assert_eq!(hart.begin(&mut f, TrapCause::IllegalInstruction, 0), Action::Delegate);
}

#[test]
fn machine_mode_faults_are_fatal() {
    let mut hart = started();
    let mut f = frame(0x8000_0300);
    f.prev = Privilege::Machine;
    assert_eq!(
        hart.begin(&mut f, TrapCause::IllegalInstruction, 0),
        Action::Halt(Fatal::TrapFromMachineMode(TrapCause::IllegalInstruction))
    );
    assert_eq!(
        hart.begin(&mut f, TrapCause::StoreFault, 0),
        Action::Halt(Fatal::TrapFromMachineMode(TrapCause::StoreFault))
    );
}

#[test]
fn other_traps_are_delegated() {
    let mut hart = started();
    let mut f = frame(0x8000_0300);
    let cause = TrapCause::Other { interrupt: false, code: 13 };
    assert_eq!(hart.begin(&mut f, cause, 0), Action::Delegate);
}

#[test]
fn unexpected_event_halts() {
    let mut hart = started();
    let mut f = frame(0x8000_0300);
    assert_eq!(hart.resume(&mut f, Event::Sent), Action::Halt(Fatal::UnexpectedEvent));
}

fn halves(w: u32) -> [u16; 2] {
    [w as u16, (w >> 16) as u16]
}

#[test]
fn load_fault_runs_lr_sc_pair() {
    let lr = (0b00010 << 27) | (11 << 15) | (0b010 << 12) | (10 << 7) | 0x2f; // lr.w a0, (a1)
    let sc = (0b00011 << 27) | (12 << 20) | (11 << 15) | (0b010 << 12) | (13 << 7) | 0x2f; // sc.w a3, a2, (a1)
    let mut code = Vec::new();
    code.extend_from_slice(&halves(lr));
    code.extend_from_slice(&halves(sc));
    while code.len() < 32 {
        code.push(0x0001);
    }
    let pc = 0x8000_0400usize;
    let mut hart = started();
    let mut f = frame(pc);
    f.regs.write_register(11, 0x9000);
    f.regs.write_register(12, 77);
    assert_eq!(hart.begin(&mut f, TrapCause::LoadFault, 0), Action::FetchCode(pc));
    assert_eq!(hart.resume(&mut f, Event::Code(code)), Action::Load(0x9000));
    let a = hart.resume(&mut f, Event::Loaded(41));
    assert_eq!(
        a,
        Action::Restore(Effects {
            writes: vec![MemWrite { addr: pc + 4, value: BREAKPOINT_INST }],
            fence_i: true,
            timecmp: None,
            supervisor_timer: false,
        })
    );
    assert_eq!(f.regs.a[0], 41);
    assert_eq!(f.pc, pc + 4);
    f.tval = BREAKPOINT_INST as usize;
    let a = hart.begin(&mut f, TrapCause::IllegalInstruction, 0);
    assert_eq!(
        a,
        Action::Restore(Effects {
            writes: vec![MemWrite { addr: pc + 4, value: sc }, MemWrite { addr: 0x9000, value: 77 }],
            fence_i: true,
            timecmp: None,
            supervisor_timer: false,
        })
    );
    assert_eq!(f.regs.a[3], 0);
    assert_eq!(f.pc, pc + 8);
}

#[test]
fn non_atomic_fault_is_delegated() {
    let mut hart = started();
    let mut f = frame(0x8000_0500);
    hart.begin(&mut f, TrapCause::StoreFault, 0);
    let code = vec![0x0713, 0x0015, 0x0001, 0x0001];
    assert_eq!(hart.resume(&mut f, Event::Code(code)), Action::Delegate);
}

#[test]
fn delegation_moves_trap_to_supervisor() {
    let mut m = MachineTrapCsrs { mepc: 0x8000_0600, mcause: 13, mtval: 0xdead, mpp: Privilege::User };
    let mut s = SupervisorTrapCsrs { sepc: 0, scause: 0, stval: 0, sie: true, spp: Privilege::Supervisor, stvec: 0x8020_0001 };
    delegate(&mut m, &mut s);
    assert_eq!(s.sepc, 0x8000_0600);
    assert_eq!(s.scause, 13);
    assert_eq!(s.stval, 0xdead);
    assert!(!s.sie);
    assert_eq!(s.spp, Privilege::User);
    assert_eq!(m.mpp, Privilege::Supervisor);
    assert_eq!(m.mepc, 0x8020_0000);
}

#[test]
fn delegation_from_supervisor_keeps_spp() {
    let mut m = MachineTrapCsrs { mepc: 1, mcause: 2, mtval: 3, mpp: Privilege::Supervisor };
    let mut s = SupervisorTrapCsrs { sepc: 0, scause: 0, stval: 0, sie: false, spp: Privilege::User, stvec: 0x100 };
    delegate(&mut m, &mut s);
    assert_eq!(s.spp, Privilege::Supervisor);
    assert_eq!(m.mepc, 0x100);
}

#[test]
fn sbi_numbers_match_the_standard() {
    assert_eq!(EID_BASE, sbi_spec::base::EID_BASE);
    assert_eq!(PROBE_EXTENSION, sbi_spec::base::PROBE_EXTENSION);
    assert_eq!(EID_HSM, sbi_spec::hsm::EID_HSM);
    assert_eq!(HART_STOP, sbi_spec::hsm::HART_STOP);
    assert_eq!(HART_SUSPEND, sbi_spec::hsm::HART_SUSPEND);
    assert_eq!(SUSPEND_NON_RETENTIVE, sbi_spec::hsm::suspend_type::NON_RETENTIVE);
    assert_eq!(RET_ERR_NOT_SUPPORTED, sbi_spec::binary::RET_ERR_NOT_SUPPORTED);
}

#[test]
fn legacy_console_numbers_match_the_standard() {
    assert_eq!(LEGACY_CONSOLE_PUTCHAR, sbi_spec::legacy::LEGACY_CONSOLE_PUTCHAR);
    assert_eq!(LEGACY_CONSOLE_GETCHAR, sbi_spec::legacy::LEGACY_CONSOLE_GETCHAR);
}

#[test]
fn load_reserved_without_partner_halts() {
    let lr = (0b00010 << 27) | (11 << 15) | (0b010 << 12) | (10 << 7) | 0x2f; // lr.w a0, (a1)
    let mut code = Vec::new();
    code.extend_from_slice(&halves(lr));
    while code.len() < 32 {
        code.push(0x0001);
    }
    let mut hart = started();
    let mut f = frame(0x8000_0700);
    f.regs.write_register(11, 0x9000);
    hart.begin(&mut f, TrapCause::StoreFault, 0);
    assert_eq!(hart.resume(&mut f, Event::Code(code)), Action::Load(0x9000));
    assert_eq!(
        hart.resume(&mut f, Event::Loaded(1)),
        Action::Halt(Fatal::Emulation(EmulationError::NoMatchingStoreConditional))
    );
    assert_eq!(f.pc, 0x8000_0700);
}

#[test]
fn short_code_window_is_delegated() {
    let mut hart = started();
    let mut f = frame(0x8000_0800);
    hart.begin(&mut f, TrapCause::LoadFault, 0);
    assert_eq!(hart.resume(&mut f, Event::Code(vec![0x0001])), Action::Delegate);
}
