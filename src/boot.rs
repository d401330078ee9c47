//! The boot sequence as a state machine: board initialisation, a diagnostic
//! dump, CPU admission, an APIC workaround, loading the payload and handing
//! off to it. The machine only moves forward; every fatal condition, a failed
//! console write among them, ends in the halted stage.
use vstd::prelude::*;
use crate::cpu::CpuVerdict;
use crate::hardware::HwOp;

verus! {

/// Low-memory window handed to the payload.
pub const LOW_MEM_SIZE: u64 = 0x8000_0000;

/// Start of the high-memory window.
pub const HIGH_MEM_START: u64 = 0x1_0000_0000;

/// Size of the high-memory window.
pub const HIGH_MEM_SIZE: u64 = 0;

/// Base of the boot ROM.
pub const ROM_BASE: u64 = 0xffc0_0000;

/// Size of the boot ROM.
pub const ROM_SIZE: u64 = 0x30_0000;

/// Where the payload is placed.
pub const LOAD_ADDRESS: u64 = 0x0100_0000;

/// Entry point until the loader says otherwise.
pub const ENTRY_ADDRESS: u64 = 0x0100_0200;

/// Model-specific register shown in the diagnostic dump: the standard
/// feature bits that CPUID reports.
pub const MSR_CPUID_FEATURES: u32 = 0xc001_1004;

/// Model-specific register shown in the diagnostic dump: the extended
/// feature bits that CPUID reports.
pub const MSR_CPUID_EXT_FEATURES: u32 = 0xc001_1005;

/// Model-specific register shown in the diagnostic dump: the APIC base.
pub const MSR_APIC_BASE: u32 = 0x1b;

/// The local APIC logical destination register.
pub const LDN_REGISTER: u64 = 0xfee0_00d0;

/// The value written to it.
pub const LDN_VALUE: u32 = 0x0100_0000;

/// The memory geography of the payload, as handed to the loader.
#[derive(Clone, Copy, Debug, PartialEq, Eq, Structural)]
pub struct PayloadDescriptor {
    pub low_mem_size: u64,
    pub high_mem_start: u64,
    pub high_mem_size: u64,
    pub rom_base: u64,
    pub rom_size: u64,
    pub load: u64,
    pub entry: u64,
}

/// The descriptor built from the board's fixed geometry.
pub open spec fn initial_payload() -> PayloadDescriptor {
    PayloadDescriptor {
        low_mem_size: LOW_MEM_SIZE,
        high_mem_start: HIGH_MEM_START,
        high_mem_size: HIGH_MEM_SIZE,
        rom_base: ROM_BASE,
        rom_size: ROM_SIZE,
        load: LOAD_ADDRESS,
        entry: ENTRY_ADDRESS,
    }
}

/// Builds the descriptor from the fixed geometry.
pub fn boot_payload() -> (p: PayloadDescriptor)
    ensures
        p == initial_payload(),
{
    PayloadDescriptor {
        low_mem_size: LOW_MEM_SIZE,
        high_mem_start: HIGH_MEM_START,
        high_mem_size: HIGH_MEM_SIZE,
        rom_base: ROM_BASE,
        rom_size: ROM_SIZE,
        load: LOAD_ADDRESS,
        entry: ENTRY_ADDRESS,
    }
}

/// The accesses of the diagnostic dump, in order: three model-specific
/// registers.
pub open spec fn diagnostic_plan() -> Seq<HwOp> {
    seq![
        HwOp::ReadMsr { index: MSR_CPUID_FEATURES },
        HwOp::ReadMsr { index: MSR_CPUID_EXT_FEATURES },
        HwOp::ReadMsr { index: MSR_APIC_BASE },
    ]
}

/// The accesses of the APIC workaround that follows CPU admission: the
/// logical destination register read, written and read again.
pub open spec fn workaround_plan() -> Seq<HwOp> {
    seq![
        HwOp::ReadMem32 { addr: LDN_REGISTER },
        HwOp::WriteMem32 { addr: LDN_REGISTER, value: LDN_VALUE },
        HwOp::ReadMem32 { addr: LDN_REGISTER },
    ]
}

/// The accesses of the diagnostic dump.
pub fn diagnostic_ops() -> (ops: Vec<HwOp>)
    ensures
        ops@ == diagnostic_plan(),
{
    let mut ops: Vec<HwOp> = Vec::new();
    ops.push(HwOp::ReadMsr { index: MSR_CPUID_FEATURES });
    ops.push(HwOp::ReadMsr { index: MSR_CPUID_EXT_FEATURES });
    ops.push(HwOp::ReadMsr { index: MSR_APIC_BASE });
    assert(ops@ =~= diagnostic_plan());
    ops
}

/// The accesses of the APIC workaround.
pub fn workaround_ops() -> (ops: Vec<HwOp>)
    ensures
        ops@ == workaround_plan(),
{
    let mut ops: Vec<HwOp> = Vec::new();
    ops.push(HwOp::ReadMem32 { addr: LDN_REGISTER });
    ops.push(HwOp::WriteMem32 { addr: LDN_REGISTER, value: LDN_VALUE });
    ops.push(HwOp::ReadMem32 { addr: LDN_REGISTER });
    assert(ops@ =~= workaround_plan());
    ops
}

/// Where the boot stands.
#[derive(Clone, Copy, Debug, PartialEq, Eq, Structural)]
pub enum Stage {
    BoardInit,
    DiagnosticDump,
    CpuAdmission,
    ApicWorkaround,
    PayloadLoad,
    PayloadHandoff,
    Halted,
}

/// The position of a stage in the sequence.
pub open spec fn rank(s: Stage) -> int {
    match s {
        Stage::BoardInit => 0,
        Stage::DiagnosticDump => 1,
        Stage::CpuAdmission => 2,
        Stage::ApicWorkaround => 3,
        Stage::PayloadLoad => 4,
        Stage::PayloadHandoff => 5,
        Stage::Halted => 6,
    }
}

/// What the outside work of a stage came to.
#[derive(Clone, Copy, Debug, PartialEq, Eq, Structural)]
pub enum Event {
    BoardReady,
    BoardFailed,
    DiagnosticsDone,
    /// The CPU is of another manufacturer.
    CpuRejected,
    /// The supported CPU, initialised.
    CpuAccepted,
    /// An unsupported model, or a failed SoC initialisation.
    CpuReported,
    WorkaroundDone,
    /// The payload is in place; its entry address as the loader found it.
    PayloadLoaded { entry: u64 },
    PayloadFailed,
    /// Control came back from the payload.
    HandoffReturned,
    /// A console write failed on some output driver.
    ConsoleFailed,
}

/// Why the boot stopped.
#[derive(Clone, Copy, Debug, PartialEq, Eq, Structural)]
pub enum HaltReason {
    BoardInitFailed,
    WrongVendor,
    PayloadLoadFailed,
    UnexpectedReturn,
    ConsoleWriteFailed,
    /// An event that does not belong to the current stage.
    OutOfOrder,
}

/// What to do next.
#[derive(Debug)]
pub enum Action {
    /// Perform these accesses and show their results.
    Diagnose(Vec<HwOp>),
    /// Run CPU admission.
    AdmitCpu,
    /// Perform the accesses of the APIC workaround and show what was read;
    /// `cpu_error` asks first for the note that a CPU error was acknowledged.
    Workaround { ops: Vec<HwOp>, cpu_error: bool },
    /// Run the loader.
    LoadPayload { payload: PayloadDescriptor },
    /// Jump to the payload, passing the hardware-description table on.
    Handoff { entry: u64, table: u64 },
    /// Print the reason and park the processor.
    Halt(HaltReason),
}

/// The stage an event leads to.
pub open spec fn next_stage(s: Stage, e: Event) -> Stage {
    match (s, e) {
        (Stage::BoardInit, Event::BoardReady) => Stage::DiagnosticDump,
        (Stage::DiagnosticDump, Event::DiagnosticsDone) => Stage::CpuAdmission,
        (Stage::CpuAdmission, Event::CpuAccepted) => Stage::ApicWorkaround,
        (Stage::CpuAdmission, Event::CpuReported) => Stage::ApicWorkaround,
        (Stage::ApicWorkaround, Event::WorkaroundDone) => Stage::PayloadLoad,
        (Stage::PayloadLoad, Event::PayloadLoaded { .. }) => Stage::PayloadHandoff,
        _ => Stage::Halted,
    }
}

/// The reason for halting when an event leads to the halted stage.
pub open spec fn halt_reason(s: Stage, e: Event) -> HaltReason {
    match (s, e) {
        (Stage::BoardInit, Event::BoardFailed) => HaltReason::BoardInitFailed,
        (Stage::CpuAdmission, Event::CpuRejected) => HaltReason::WrongVendor,
        (Stage::PayloadLoad, Event::PayloadFailed) => HaltReason::PayloadLoadFailed,
        (Stage::PayloadHandoff, Event::HandoffReturned) => HaltReason::UnexpectedReturn,
        (_, Event::ConsoleFailed) => HaltReason::ConsoleWriteFailed,
        _ => HaltReason::OutOfOrder,
    }
}

/// The boot in progress: its stage, the payload descriptor it owns, and the
/// hardware-description table address it was started with.
pub struct Orchestrator {
    stage: Stage,
    payload: PayloadDescriptor,
    table: u64,
}

impl Orchestrator {
    pub closed spec fn stage_spec(&self) -> Stage {
        self.stage
    }

    pub closed spec fn payload_spec(&self) -> PayloadDescriptor {
        self.payload
    }

    pub closed spec fn table_spec(&self) -> u64 {
        self.table
    }

    /// A boot about to initialise the board, holding the table address to pass
    /// on at handoff.
    pub fn new(table: u64) -> (o: Orchestrator)
        ensures
            o.stage_spec() == Stage::BoardInit,
            o.payload_spec() == initial_payload(),
            o.table_spec() == table,
    {
        Orchestrator { stage: Stage::BoardInit, payload: boot_payload(), table }
    }

    pub fn stage(&self) -> (s: Stage)
        ensures
            s == self.stage_spec(),
    {
        self.stage
    }

    /// Moves the boot on by one event and says what to do next.
    pub fn step(&mut self, e: Event) -> (a: Action)
        requires
            !(old(self).stage_spec() is Halted),
        ensures
            final(self).stage_spec() == next_stage(old(self).stage_spec(), e),
            final(self).table_spec() == old(self).table_spec(),
            final(self).payload_spec() == match e {
                Event::PayloadLoaded { entry } => if old(self).stage_spec() is PayloadLoad {
                    PayloadDescriptor { entry, ..old(self).payload_spec() }
                } else {
                    old(self).payload_spec()
                },
                _ => old(self).payload_spec(),
            },
            match final(self).stage_spec() {
                Stage::DiagnosticDump => a matches Action::Diagnose(ops) && ops@ == diagnostic_plan(),
                Stage::CpuAdmission => a is AdmitCpu,
                Stage::ApicWorkaround => a matches Action::Workaround { ops, cpu_error } && ops@
                    == workaround_plan() && cpu_error == (e is CpuReported),
                Stage::PayloadLoad => a == (Action::LoadPayload { payload: old(self).payload_spec() }),
                Stage::PayloadHandoff => a == (Action::Handoff {
                    entry: final(self).payload_spec().entry,
                    table: old(self).table_spec(),
                }),
                _ => a == Action::Halt(halt_reason(old(self).stage_spec(), e)),
            },
    {
        match (self.stage, e) {
            (Stage::BoardInit, Event::BoardReady) => {
                self.stage = Stage::DiagnosticDump;
                Action::Diagnose(diagnostic_ops())
            },
            (Stage::DiagnosticDump, Event::DiagnosticsDone) => {
                self.stage = Stage::CpuAdmission;
                Action::AdmitCpu
            },
            (Stage::CpuAdmission, Event::CpuAccepted) => {
                self.stage = Stage::ApicWorkaround;
                Action::Workaround { ops: workaround_ops(), cpu_error: false }
            },
            (Stage::CpuAdmission, Event::CpuReported) => {
                self.stage = Stage::ApicWorkaround;
                Action::Workaround { ops: workaround_ops(), cpu_error: true }
            },
            (Stage::ApicWorkaround, Event::WorkaroundDone) => {
                self.stage = Stage::PayloadLoad;
                Action::LoadPayload { payload: self.payload }
            },
            (Stage::PayloadLoad, Event::PayloadLoaded { entry }) => {
                self.stage = Stage::PayloadHandoff;
                self.payload.entry = entry;
                Action::Handoff { entry, table: self.table }
            },
            (Stage::BoardInit, Event::BoardFailed) => {
                self.stage = Stage::Halted;
                Action::Halt(HaltReason::BoardInitFailed)
            },
            (Stage::CpuAdmission, Event::CpuRejected) => {
                self.stage = Stage::Halted;
                Action::Halt(HaltReason::WrongVendor)
            },
            (Stage::PayloadLoad, Event::PayloadFailed) => {
                self.stage = Stage::Halted;
                Action::Halt(HaltReason::PayloadLoadFailed)
            },
            (Stage::PayloadHandoff, Event::HandoffReturned) => {
                self.stage = Stage::Halted;
                Action::Halt(HaltReason::UnexpectedReturn)
            },
            (_, Event::ConsoleFailed) => {
                self.stage = Stage::Halted;
                Action::Halt(HaltReason::ConsoleWriteFailed)
            },
            _ => {
                self.stage = Stage::Halted;
                Action::Halt(HaltReason::OutOfOrder)
            },
        }
    }
}

/// The event that a CPU verdict comes to: another manufacturer is fatal; the
/// supported CPU passes when its SoC initialisation succeeded; anything else
/// is reported and the boot goes on.
pub fn cpu_event(g: CpuVerdict, soc_ok: bool) -> (e: Event)
    ensures
        e == match g {
            CpuVerdict::WrongVendor => Event::CpuRejected,
            CpuVerdict::Supported(_) => if soc_ok {
                Event::CpuAccepted
            } else {
                Event::CpuReported
            },
            CpuVerdict::Unsupported(_) => Event::CpuReported,
        },
{
    match g {
        CpuVerdict::WrongVendor => Event::CpuRejected,
        CpuVerdict::Supported(_) => if soc_ok {
            Event::CpuAccepted
        } else {
            Event::CpuReported
        },
        CpuVerdict::Unsupported(_) => Event::CpuReported,
    }
}

/// The boot never returns to an earlier stage: every event moves a live boot
/// strictly forward.
pub proof fn lemma_stages_move_forward(s: Stage, e: Event)
    requires
        !(s is Halted),
    ensures
        rank(next_stage(s, e)) > rank(s),
{
}

/// A console write that fails on any output driver stops the boot, whatever
/// stage it is in.
pub proof fn lemma_console_failure_halts(s: Stage)
    requires
        !(s is Halted),
    ensures
        next_stage(s, Event::ConsoleFailed) == Stage::Halted,
        halt_reason(s, Event::ConsoleFailed) == HaltReason::ConsoleWriteFailed,
{
}

} // verus!
