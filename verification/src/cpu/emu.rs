//! Minimal 32-bit x86 CPU state and a tiny interpreter skeleton.
//!
//! This is not a full emulator yet. It holds registers, points at the
//! loaded PE image, and can single-step a very small set of opcodes so
//! the pipeline (load, check CPU, enter emulator) is in place.

use crate::bytes::{combine_le32, u32_from_bytes};
use crate::pe::LoadedImage;
use crate::text::{hex_digits, hex_string};
use vstd::prelude::*;

verus! {

/// `a + b` modulo 2^32.
pub open spec fn add_wrapping(a: u32, b: u32) -> u32 {
    if a + b > u32::MAX {
        (a + b - 0x1_0000_0000) as u32
    } else {
        (a + b) as u32
    }
}

/// `a - b` modulo 2^32.
pub open spec fn sub_wrapping(a: u32, b: u32) -> u32 {
    if a >= b {
        (a - b) as u32
    } else {
        (a - b + 0x1_0000_0000) as u32
    }
}

/// General-purpose and special registers for a 32-bit guest.
#[derive(Debug, Clone, Copy)]
pub struct CpuState {
    pub eax: u32,
    pub ebx: u32,
    pub ecx: u32,
    pub edx: u32,
    pub esi: u32,
    pub edi: u32,
    pub ebp: u32,
    pub esp: u32,
    pub eip: u32,
    pub eflags: u32,
    pub cs: u16,
    pub ds: u16,
    pub es: u16,
    pub ss: u16,
    pub fs: u16,
    pub gs: u16,
}

/// The register state of a freshly started process: all general registers
/// zero, the reserved flag bit and IF set, flat user-mode selectors.
pub open spec fn initial_cpu_state() -> CpuState {
    CpuState {
        eax: 0,
        ebx: 0,
        ecx: 0,
        edx: 0,
        esi: 0,
        edi: 0,
        ebp: 0,
        esp: 0,
        eip: 0,
        eflags: 0x202,
        cs: 0x23,
        ds: 0x2B,
        es: 0x2B,
        ss: 0x2B,
        fs: 0,
        gs: 0,
    }
}

impl Default for CpuState {
    fn default() -> (s: Self)
        ensures
            s == initial_cpu_state(),
    {
        CpuState {
            eax: 0,
            ebx: 0,
            ecx: 0,
            edx: 0,
            esi: 0,
            edi: 0,
            ebp: 0,
            esp: 0,
            eip: 0,
            eflags: 0x202,
            cs: 0x23,
            ds: 0x2B,
            es: 0x2B,
            ss: 0x2B,
            fs: 0,
            gs: 0,
        }
    }
}

/// Why an emulation burst stopped.
#[derive(Debug, Clone, Copy, PartialEq, Eq, Structural)]
pub enum StopReason {
    /// The step budget was used up.
    StepLimit,
    /// EIP points outside the image.
    FetchFailed,
    /// A `MOV EAX, imm32` whose immediate runs past the image.
    TruncatedMov,
    /// A near `RET`.
    Ret,
    /// A breakpoint (`INT3`).
    Int3,
    /// An opcode that the interpreter does not know.
    Unimplemented(u8),
}

/// The byte at linear address `linear` of an image of bytes `mem` loaded at `base`.
pub open spec fn fetch_byte(mem: Seq<u8>, base: u32, linear: u32) -> Option<u8> {
    if (sub_wrapping(linear, base) as int) < mem.len() {
        Some(mem[sub_wrapping(linear, base) as int])
    } else {
        None
    }
}

/// The little-endian dword at `linear`, if all four of its bytes are in the image.
pub open spec fn fetch_dword(mem: Seq<u8>, base: u32, linear: u32) -> Option<u32> {
    let b0 = fetch_byte(mem, base, linear);
    let b1 = fetch_byte(mem, base, add_wrapping(linear, 1));
    let b2 = fetch_byte(mem, base, add_wrapping(linear, 2));
    let b3 = fetch_byte(mem, base, add_wrapping(linear, 3));
    if b0.is_some() && b1.is_some() && b2.is_some() && b3.is_some() {
        Some(u32_from_bytes(b0.unwrap(), b1.unwrap(), b2.unwrap(), b3.unwrap()))
    } else {
        None
    }
}

/// The result of executing one instruction.
pub enum Step {
    /// The instruction ran; the new register state.
    Next(CpuState),
    /// Execution stops here, for this reason; the state is unchanged.
    Halt(StopReason),
}

/// Executes the instruction at EIP.
pub open spec fn step(mem: Seq<u8>, base: u32, s: CpuState) -> Step {
    match fetch_byte(mem, base, s.eip) {
        None => Step::Halt(StopReason::FetchFailed),
        Some(op) => {
            if op == 0x90 {
                Step::Next(CpuState { eip: add_wrapping(s.eip, 1), ..s })
            } else if op == 0xB8 {
                match fetch_dword(mem, base, add_wrapping(s.eip, 1)) {
                    Some(imm) => Step::Next(CpuState { eax: imm, eip: add_wrapping(s.eip, 5), ..s }),
                    None => Step::Halt(StopReason::TruncatedMov),
                }
            } else if op == 0xC3 {
                Step::Halt(StopReason::Ret)
            } else if op == 0xCC {
                Step::Halt(StopReason::Int3)
            } else {
                Step::Halt(StopReason::Unimplemented(op))
            }
        },
    }
}

/// Runs at most `fuel` instructions from `s`: the number of instructions
/// executed, why execution stopped, and the final register state.
pub open spec fn run_steps(mem: Seq<u8>, base: u32, s: CpuState, fuel: nat) -> (
    nat,
    StopReason,
    CpuState,
)
    decreases fuel,
{
    if fuel == 0 {
        (0, StopReason::StepLimit, s)
    } else {
        match step(mem, base, s) {
            Step::Halt(r) => (0, r, s),
            Step::Next(t) => {
                let rest = run_steps(mem, base, t, (fuel - 1) as nat);
                ((rest.0 + 1) as nat, rest.1, rest.2)
            },
        }
    }
}

/// A burst never runs more instructions than its budget, and it reports the
/// step limit exactly when it used the whole budget.
pub proof fn lemma_run_within_budget(mem: Seq<u8>, base: u32, s: CpuState, fuel: nat)
    ensures
        run_steps(mem, base, s, fuel).0 <= fuel,
        (run_steps(mem, base, s, fuel).1 == StopReason::StepLimit) <==> run_steps(
            mem,
            base,
            s,
            fuel,
        ).0 == fuel,
    decreases fuel,
{
    if fuel > 0 {
        match step(mem, base, s) {
            Step::Halt(r) => {},
            Step::Next(t) => {
                lemma_run_within_budget(mem, base, t, (fuel - 1) as nat);
            },
        }
    }
}

/// Running `a` instructions and then, if the budget was what stopped it,
/// `b` more from where it stopped, is the same as running `a + b`
/// instructions at once.
pub proof fn lemma_run_split(mem: Seq<u8>, base: u32, s: CpuState, a: nat, b: nat)
    ensures
        run_steps(mem, base, s, a + b) == ({
            let first = run_steps(mem, base, s, a);
            if first.1 == StopReason::StepLimit {
                let second = run_steps(mem, base, first.2, b);
                ((first.0 + second.0) as nat, second.1, second.2)
            } else {
                first
            }
        }),
    decreases a,
{
    if a > 0 {
        match step(mem, base, s) {
            Step::Halt(r) => {},
            Step::Next(t) => {
                lemma_run_split(mem, base, t, (a - 1) as nat, b);
                assert((a - 1) as nat + b == (a + b - 1) as nat);
            },
        }
    }
}

/// What the first instruction of a burst does, read from the opcode byte at
/// EIP: a missing byte, RET, INT3 and every opcode but NOP (0x90) and
/// `MOV EAX, imm32` (0xB8) stop the burst at once with the state unchanged;
/// a NOP only moves EIP on by one; a MOV loads the following dword into EAX
/// and moves EIP on by five. So a burst executes an instruction only when
/// the opcode is one of those two.
pub proof fn lemma_first_instruction(mem: Seq<u8>, base: u32, s: CpuState, fuel: nat)
    requires
        fuel > 0,
    ensures
        ({
            let r = run_steps(mem, base, s, fuel);
            let op = fetch_byte(mem, base, s.eip);
            &&& op.is_none() ==> r == (0nat, StopReason::FetchFailed, s)
            &&& (op.is_some() && op.unwrap() != 0x90 && op.unwrap() != 0xB8) ==> {
                &&& r.0 == 0
                &&& r.2 == s
                &&& r.1 == if op.unwrap() == 0xC3 {
                    StopReason::Ret
                } else if op.unwrap() == 0xCC {
                    StopReason::Int3
                } else {
                    StopReason::Unimplemented(op.unwrap())
                }
            }
            &&& op == Some(0x90u8) ==> {
                let t = CpuState { eip: ((s.eip as int + 1) % 0x1_0000_0000) as u32, ..s };
                let rest = run_steps(mem, base, t, (fuel - 1) as nat);
                r == ((rest.0 + 1) as nat, rest.1, rest.2)
            }
            &&& (op == Some(0xB8u8) && fetch_dword(mem, base, add_wrapping(s.eip, 1)).is_some())
                ==> {
                let t = CpuState {
                    eax: fetch_dword(mem, base, add_wrapping(s.eip, 1)).unwrap(),
                    eip: ((s.eip as int + 5) % 0x1_0000_0000) as u32,
                    ..s
                };
                let rest = run_steps(mem, base, t, (fuel - 1) as nat);
                r == ((rest.0 + 1) as nat, rest.1, rest.2)
            }
            &&& (op == Some(0xB8u8) && fetch_dword(mem, base, add_wrapping(s.eip, 1)).is_none())
                ==> r == (0nat, StopReason::TruncatedMov, s)
            &&& r.0 >= 1 ==> (op == Some(0x90u8) || op == Some(0xB8u8))
        }),
{
    let op = fetch_byte(mem, base, s.eip);
    if op == Some(0x90u8) {
        let t = CpuState { eip: ((s.eip as int + 1) % 0x1_0000_0000) as u32, ..s };
        assert(add_wrapping(s.eip, 1) == ((s.eip as int + 1) % 0x1_0000_0000) as u32);
        assert(step(mem, base, s) == Step::Next(t));
    }
    if op == Some(0xB8u8) {
        assert(add_wrapping(s.eip, 5) == ((s.eip as int + 5) % 0x1_0000_0000) as u32);
    }
}

/// The message for a stop at `eip`.
pub open spec fn stop_text(r: StopReason, eip: u32) -> Seq<char> {
    match r {
        StopReason::StepLimit => "step limit reached"@,
        StopReason::FetchFailed => "fetch failed at EIP=0x"@ + hex_digits(eip as nat, 8, true)
            + " (outside image)"@,
        StopReason::TruncatedMov => "truncated MOV EAX,imm32 at 0x"@ + hex_digits(
            eip as nat,
            8,
            true,
        ),
        StopReason::Ret => "RET at EIP=0x"@ + hex_digits(eip as nat, 8, true),
        StopReason::Int3 => "INT3 at EIP=0x"@ + hex_digits(eip as nat, 8, true),
        StopReason::Unimplemented(op) => "unimplemented opcode 0x"@ + hex_digits(op as nat, 2, true)
            + " at EIP=0x"@ + hex_digits(eip as nat, 8, true),
    }
}

impl StopReason {
    /// The message for a stop at `eip`.
    pub fn message(&self, eip: u32) -> (s: String)
        ensures
            s@ == stop_text(*self, eip),
    {
        let at = hex_string(eip as u64, 8, true);
        match self {
            StopReason::StepLimit => String::from_str("step limit reached"),
            StopReason::FetchFailed => {
                let mut s = String::from_str("fetch failed at EIP=0x");
                s.append(at.as_str());
                s.append(" (outside image)");
                s
            },
            StopReason::TruncatedMov => {
                let mut s = String::from_str("truncated MOV EAX,imm32 at 0x");
                s.append(at.as_str());
                s
            },
            StopReason::Ret => {
                let mut s = String::from_str("RET at EIP=0x");
                s.append(at.as_str());
                s
            },
            StopReason::Int3 => {
                let mut s = String::from_str("INT3 at EIP=0x");
                s.append(at.as_str());
                s
            },
            StopReason::Unimplemented(op) => {
                let mut s = String::from_str("unimplemented opcode 0x");
                s.append(hex_string(*op as u64, 2, true).as_str());
                s.append(" at EIP=0x");
                s.append(at.as_str());
                s
            },
        }
    }
}

/// Result of a short emulation burst.
#[derive(Debug, Clone)]
pub struct EmulatorReport {
    pub steps: u32,
    pub stopped_reason: String,
    pub eip: u32,
    pub eax: u32,
}

/// Guest CPU bound to a loaded PE image.
pub struct Emulator {
    pub state: CpuState,
    pub image_base: u32,
    /// Guest linear memory (PE image at preferred base for now).
    pub memory: Vec<u8>,
}

/// What an emulator is: its registers, where the image starts, and the
/// image's bytes.
pub struct EmulatorView {
    pub state: CpuState,
    pub image_base: u32,
    pub memory: Seq<u8>,
}

impl View for Emulator {
    type V = EmulatorView;

    open spec fn view(&self) -> EmulatorView {
        EmulatorView { state: self.state, image_base: self.image_base, memory: self.memory@ }
    }
}

impl Emulator {

    /// Create an emulator positioned at the PE entry point.
    pub fn from_image(image: &LoadedImage) -> (emu: Self)
        ensures
            emu@.memory == image.memory@,
            emu@.image_base == image.image_base,
            emu@.state == (CpuState {
                eip: add_wrapping(image.image_base, image.entry_point_rva),
                esp: add_wrapping(
                    add_wrapping(image.image_base, image.memory@.len() as u32),
                    0x10000,
                ),
                ebp: add_wrapping(
                    add_wrapping(image.image_base, image.memory@.len() as u32),
                    0x10000,
                ),
                ..initial_cpu_state()
            }),
    {
        let mut state = CpuState::default();
        state.eip = image.image_base.wrapping_add(image.entry_point_rva);
        state.esp = image.image_base.wrapping_add(image.memory.len() as u32).wrapping_add(0x10000);
        state.ebp = state.esp;
        let memory = image.memory.clone();
        assert(memory@ =~= image.memory@);
        Emulator { state, image_base: image.image_base, memory }
    }

    /// The byte at linear address `linear`, if it lies in the image.
    pub fn read_u8(&self, linear: u32) -> (b: Option<u8>)
        ensures
            b == fetch_byte(self@.memory, self@.image_base, linear),
    {
        let off = linear.wrapping_sub(self.image_base) as usize;
        if off < self.memory.len() {
            Some(self.memory[off])
        } else {
            None
        }
    }

    /// The little-endian dword at linear address `linear`, if all its bytes lie in the image.
    pub fn read_u32(&self, linear: u32) -> (d: Option<u32>)
        ensures
            d == fetch_dword(self@.memory, self@.image_base, linear),
    {
        let b0 = match self.read_u8(linear) {
            Some(b) => b,
            None => return None,
        };
        let b1 = match self.read_u8(linear.wrapping_add(1)) {
            Some(b) => b,
            None => return None,
        };
        let b2 = match self.read_u8(linear.wrapping_add(2)) {
            Some(b) => b,
            None => return None,
        };
        let b3 = match self.read_u8(linear.wrapping_add(3)) {
            Some(b) => b,
            None => return None,
        };
        Some(combine_le32(b0, b1, b2, b3))
    }

    /// Run up to `max_steps` instructions. Stops on unknown opcode or limit.
    pub fn run(&mut self, max_steps: u32) -> (report: EmulatorReport)
        ensures
            final(self)@.memory == old(self)@.memory,
            final(self)@.image_base == old(self)@.image_base,
            ({
                let out = run_steps(
                    old(self)@.memory,
                    old(self)@.image_base,
                    old(self)@.state,
                    max_steps as nat,
                );
                &&& report.steps == out.0
                &&& final(self)@.state == out.2
                &&& report.stopped_reason@ == stop_text(out.1, out.2.eip)
                &&& report.eip == out.2.eip
                &&& report.eax == out.2.eax
            }),
            ({
                let op = fetch_byte(old(self)@.memory, old(self)@.image_base, old(self)@.state.eip);
                (max_steps > 0 && op.is_some() && op.unwrap() != 0x90 && op.unwrap() != 0xB8) ==> (
                report.steps == 0 && final(self)@.state == old(self)@.state)
            }),
            ({
                let op = fetch_byte(old(self)@.memory, old(self)@.image_base, old(self)@.state.eip);
                (max_steps > 0 && op.is_some() && op.unwrap() != 0x90 && op.unwrap() != 0xB8
                    && op.unwrap() != 0xC3 && op.unwrap() != 0xCC) ==> report.stopped_reason@
                    == "unimplemented opcode 0x"@ + hex_digits(op.unwrap() as nat, 2, true)
                    + " at EIP=0x"@ + hex_digits(old(self)@.state.eip as nat, 8, true)
            }),
            ({
                let op = fetch_byte(old(self)@.memory, old(self)@.image_base, old(self)@.state.eip);
                report.steps > 0 ==> (op == Some(0x90u8) || op == Some(0xB8u8))
            }),
    {
        let ghost mem = self@.memory;
        let ghost base = self.image_base;
        let ghost start = self.state;
        let mut steps: u32 = 0;
        let mut halted: Option<StopReason> = None;
        while halted.is_none() && steps < max_steps
            invariant
                self@.memory == mem,
                self.image_base == base,
                steps <= max_steps,
                match halted {
                    Some(r) => run_steps(mem, base, start, max_steps as nat) == (
                        steps as nat,
                        r,
                        self.state,
                    ),
                    None => {
                        let rest = run_steps(mem, base, self.state, (max_steps - steps) as nat);
                        run_steps(mem, base, start, max_steps as nat) == (
                            (steps + rest.0) as nat,
                            rest.1,
                            rest.2,
                        )
                    },
                },
            decreases max_steps - steps, (if halted.is_none() { 1int } else { 0int }),
        {
            let eip = self.state.eip;
            match self.read_u8(eip) {
                None => {
                    halted = Some(StopReason::FetchFailed);
                },
                Some(op) => {
                    if op == 0x90 {
                        self.state.eip = eip.wrapping_add(1);
                        steps = steps + 1;
                    } else if op == 0xB8 {
                        match self.read_u32(eip.wrapping_add(1)) {
                            Some(imm) => {
                                self.state.eax = imm;
                                self.state.eip = eip.wrapping_add(5);
                                steps = steps + 1;
                            },
                            None => {
                                halted = Some(StopReason::TruncatedMov);
                            },
                        }
                    } else if op == 0xC3 {
                        halted = Some(StopReason::Ret);
                    } else if op == 0xCC {
                        halted = Some(StopReason::Int3);
                    } else {
                        halted = Some(StopReason::Unimplemented(op));
                    }
                },
            }
        }
        proof {
            if max_steps > 0 {
                lemma_first_instruction(mem, base, start, max_steps as nat);
            }
        }
        let reason = match halted {
            Some(r) => r,
            None => StopReason::StepLimit,
        };
        let stopped_reason = reason.message(self.state.eip);
        EmulatorReport { steps, stopped_reason, eip: self.state.eip, eax: self.state.eax }
    }
}

} // verus!
