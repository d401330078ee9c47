use trembyle::boot::{cpu_event, Action, Event, HaltReason, Orchestrator, Stage};
use trembyle::cpu::{CpuIdentity, CpuVerdict};
use trembyle::hardware::HwOp;

#[test]
fn full_sequence_hands_off() {
    let mut o = Orchestrator::new(0xdead_0000);
    assert_eq!(o.stage(), Stage::BoardInit);
    match o.step(Event::BoardReady) {
        Action::Diagnose(ops) => {
            assert_eq!(
                ops,
                vec![
                    HwOp::ReadMsr { index: 0xc001_1004 },
                    HwOp::ReadMsr { index: 0xc001_1005 },
                    HwOp::ReadMsr { index: 0x1b },
                ]
            );
        },
        other => panic!("unexpected {:?}", other),
    }
    assert!(matches!(o.step(Event::DiagnosticsDone), Action::AdmitCpu));
    match o.step(Event::CpuAccepted) {
        Action::Workaround { ops, cpu_error } => {
            assert!(!cpu_error);
            assert_eq!(
                ops,
                vec![
                    HwOp::ReadMem32 { addr: 0xfee0_00d0 },
                    HwOp::WriteMem32 { addr: 0xfee0_00d0, value: 0x0100_0000 },
                    HwOp::ReadMem32 { addr: 0xfee0_00d0 },
                ]
            );
        },
        other => panic!("unexpected {:?}", other),
    }
    assert_eq!(o.stage(), Stage::ApicWorkaround);
    match o.step(Event::WorkaroundDone) {
        Action::LoadPayload { payload } => {
            assert_eq!(payload.load, 0x0100_0000);
            assert_eq!(payload.entry, 0x0100_0200);
            assert_eq!(payload.rom_base, 0xffc0_0000);
            assert_eq!(payload.rom_size, 0x30_0000);
            assert_eq!(payload.low_mem_size, 0x8000_0000);
            assert_eq!(payload.high_mem_start, 0x1_0000_0000);
            assert_eq!(payload.high_mem_size, 0);
        },
        other => panic!("unexpected {:?}", other),
    }
    match o.step(Event::PayloadLoaded { entry: 0x0100_0400 }) {
        Action::Handoff { entry, table } => {
            assert_eq!(entry, 0x0100_0400);
            assert_eq!(table, 0xdead_0000);
        },
        other => panic!("unexpected {:?}", other),
    }
    assert!(matches!(
        o.step(Event::HandoffReturned),
        Action::Halt(HaltReason::UnexpectedReturn)
    ));
    assert_eq!(o.stage(), Stage::Halted);
}

#[test]
fn reported_cpu_error_continues() {
    let mut o = Orchestrator::new(0);
    o.step(Event::BoardReady);
    o.step(Event::DiagnosticsDone);
    assert!(matches!(
        o.step(Event::CpuReported),
        Action::Workaround { cpu_error: true, .. }
    ));
    assert_eq!(o.stage(), Stage::ApicWorkaround);
    assert!(matches!(o.step(Event::WorkaroundDone), Action::LoadPayload { .. }));
    assert_eq!(o.stage(), Stage::PayloadLoad);
}

#[test]
fn board_failure_halts() {
    let mut o = Orchestrator::new(0);
    assert!(matches!(o.step(Event::BoardFailed), Action::Halt(HaltReason::BoardInitFailed)));
}

#[test]
fn wrong_vendor_halts() {
    let mut o = Orchestrator::new(0);
    o.step(Event::BoardReady);
    o.step(Event::DiagnosticsDone);
    assert!(matches!(o.step(Event::CpuRejected), Action::Halt(HaltReason::WrongVendor)));
}

#[test]
fn payload_failure_halts() {
    let mut o = Orchestrator::new(0);
    o.step(Event::BoardReady);
    o.step(Event::DiagnosticsDone);
    o.step(Event::CpuAccepted);
    o.step(Event::WorkaroundDone);
    assert!(matches!(o.step(Event::PayloadFailed), Action::Halt(HaltReason::PayloadLoadFailed)));
}

#[test]
fn load_before_workaround_is_out_of_order() {
    let mut o = Orchestrator::new(0);
    o.step(Event::BoardReady);
    o.step(Event::DiagnosticsDone);
    o.step(Event::CpuAccepted);
    assert!(matches!(
        o.step(Event::PayloadLoaded { entry: 0 }),
        Action::Halt(HaltReason::OutOfOrder)
    ));
}

#[test]
fn console_failure_halts_at_board_init() {
    let mut o = Orchestrator::new(0);
    assert!(matches!(o.step(Event::ConsoleFailed), Action::Halt(HaltReason::ConsoleWriteFailed)));
    assert_eq!(o.stage(), Stage::Halted);
}

#[test]
fn console_failure_halts_mid_boot() {
    let mut o = Orchestrator::new(0);
    o.step(Event::BoardReady);
    o.step(Event::DiagnosticsDone);
    o.step(Event::CpuReported);
    assert!(matches!(o.step(Event::ConsoleFailed), Action::Halt(HaltReason::ConsoleWriteFailed)));
}

#[test]
fn event_out_of_order_halts() {
    let mut o = Orchestrator::new(0);
    assert!(matches!(o.step(Event::CpuAccepted), Action::Halt(HaltReason::OutOfOrder)));
}

#[test]
fn cpu_verdicts_to_events() {
    let id = CpuIdentity { family: 0x17, model: 0x18 };
    assert_eq!(cpu_event(CpuVerdict::WrongVendor, true), Event::CpuRejected);
    assert_eq!(cpu_event(CpuVerdict::Supported(id), true), Event::CpuAccepted);
    assert_eq!(cpu_event(CpuVerdict::Supported(id), false), Event::CpuReported);
    assert_eq!(cpu_event(CpuVerdict::Unsupported(None), true), Event::CpuReported);
}
