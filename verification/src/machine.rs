//! Machine-state initializer: builds the initial register file and memory
//! image that the program is re-executed from.
//!
//! The frame pointer starts at the caller-supplied stack height, or at
//! [`DEFAULT_STACK_HEIGHT`] when none is supplied; the program counter
//! starts at the image's entry point. A snapshot of this initial register
//! file is retained unchanged as a public anchor for later consistency
//! checks.
use vstd::prelude::*;

use crate::VerifyError;
use crate::loader::ImageView;
use crate::loader::load_executable;
use crate::loader::spec_load;

verus! {

/// The frame pointer's starting value when no stack height is supplied:
/// the top of the machine's address space.
pub const DEFAULT_STACK_HEIGHT: u32 = 16777216;

/// The machine's register file: a frame pointer and a program counter.
#[derive(Clone, Copy, Debug, PartialEq, Eq, Structural)]
pub struct RegisterFile {
    /// The frame-pointer register.
    pub fp: u32,
    /// The program-counter register.
    pub pc: u32,
}

/// The machine state a re-execution starts from: registers, program
/// memory, data memory, the advice identifier, and an immutable snapshot
/// of the initial register file.
///
/// Mutated only by the external executor during a single run; this layer
/// only constructs it.
#[derive(Clone, Debug, PartialEq, Eq)]
pub struct MachineState {
    /// The live register file.
    pub registers: RegisterFile,
    /// Program memory: the executable's code words.
    pub program: Vec<u32>,
    /// Data memory: the executable's initial-memory words.
    pub memory: Vec<u32>,
    /// The optional identifier of the advice source the program may read
    /// non-deterministic values from.
    pub advice: Option<String>,
    /// The register file as it was at construction: the public anchor.
    pub initial_registers: RegisterFile,
}

/// The mathematical content of a [`MachineState`].
#[verifier::ext_equal]
pub struct MachineStateView {
    /// The live register file.
    pub registers: RegisterFile,
    /// Program memory.
    pub program: Seq<u32>,
    /// Data memory.
    pub memory: Seq<u32>,
    /// The advice-source identifier.
    pub advice: Option<Seq<char>>,
    /// The snapshot of the initial register file.
    pub initial_registers: RegisterFile,
}

impl MachineStateView {
    /// A well-formed initial state: the program counter is the index of a
    /// program word, and the snapshot still equals the live registers.
    pub open spec fn wf(self) -> bool {
        self.registers.pc < self.program.len() && self.initial_registers == self.registers
    }
}

/// The content of an optional advice-source identifier.
pub open spec fn advice_view(advice: Option<String>) -> Option<Seq<char>> {
    match advice {
        Some(s) => Some(s@),
        None => None,
    }
}

impl View for MachineState {
    type V = MachineStateView;

    open spec fn view(&self) -> MachineStateView {
        MachineStateView {
            registers: self.registers,
            program: self.program@,
            memory: self.memory@,
            advice: advice_view(self.advice),
            initial_registers: self.initial_registers,
        }
    }
}

/// The state the machine starts in for a given image, stack height and
/// advice source: program memory is the code, data memory is the data,
/// the frame pointer is the override or the default, the program counter
/// is the entry point, and the snapshot equals the live registers.
pub open spec fn spec_initial_state(
    img: ImageView,
    stack_height: Option<u32>,
    advice: Option<Seq<char>>,
) -> MachineStateView {
    let regs = RegisterFile {
        fp: match stack_height {
            Some(h) => h,
            None => DEFAULT_STACK_HEIGHT,
        },
        pc: img.entry_point,
    };
    MachineStateView {
        registers: regs,
        program: img.code,
        memory: img.data,
        advice,
        initial_registers: regs,
    }
}

/// Loads `executable_file` and builds the machine state re-execution
/// starts from.
///
/// Succeeds exactly when the executable parses; the resulting state is
/// exactly [`spec_initial_state`] of the parsed image. Running the program
/// itself is the external executor's job, not this function's.
pub fn init_machine(
    executable_file: &Vec<u8>,
    stack_height: Option<u32>,
    advice: Option<String>,
) -> (r: Result<MachineState, VerifyError>)
    ensures
        match r {
            Ok(m) => spec_load(executable_file@) matches Some(img) && m@ == spec_initial_state(
                img,
                stack_height,
                advice_view(advice),
            ),
            Err(e) => spec_load(executable_file@) is None && e
                == VerifyError::MalformedExecutable,
        },
{
    let img = match load_executable(executable_file) {
        Ok(img) => img,
        Err(e) => {
            return Err(e);
        },
    };
    let fp = match stack_height {
        Some(h) => h,
        None => DEFAULT_STACK_HEIGHT,
    };
    let regs = RegisterFile { fp, pc: img.entry_point };
    let m = MachineState {
        registers: regs,
        program: img.code,
        memory: img.data,
        advice,
        initial_registers: regs,
    };
    Ok(m)
}

/// The initial state built from a well-formed image is itself
/// well-formed, whatever the stack height and advice source.
pub proof fn lemma_initial_state_wf(
    img: ImageView,
    stack_height: Option<u32>,
    advice: Option<Seq<char>>,
)
    requires
        img.wf(),
    ensures
        spec_initial_state(img, stack_height, advice).wf(),
{
}

/// The frame-pointer rule: when no stack height is supplied the frame
/// pointer starts at [`DEFAULT_STACK_HEIGHT`], and when one is supplied it
/// starts at exactly that value. The snapshot agrees with the live
/// registers in either case.
pub proof fn lemma_stack_height_rule(img: ImageView, advice: Option<Seq<char>>, h: u32)
    ensures
        spec_initial_state(img, None, advice).registers.fp == DEFAULT_STACK_HEIGHT,
        spec_initial_state(img, Some(h), advice).registers.fp == h,
        forall|sh: Option<u32>|
            spec_initial_state(img, sh, advice).initial_registers == spec_initial_state(
                img,
                sh,
                advice,
            ).registers,
{
}

} // verus!
