//! Verifier core for a succinct proof that a register-machine program
//! executed correctly.
//!
//! Given the serialized proof, the compiled executable image and optional
//! execution parameters, this library reconstructs the public context the
//! proof claims to correspond to: it parses the executable, builds the
//! initial machine state, decodes the proof stream, and derives the exact
//! cryptographic configuration the proof was produced under, purely from a
//! fixed literal seed. Re-running the program and invoking the external
//! cryptographic check are capabilities of an external machine simulator
//! and proof-system library; this crate assembles everything those calls
//! consume and maps their outcomes to a distinct error taxonomy.
use vstd::prelude::*;

pub mod config;
pub mod decoder;
pub mod loader;
pub mod machine;

verus! {

/// The stage at which a verification attempt failed.
///
/// Each stage of the pipeline reports a distinct kind, so that a caller can
/// tell "input malformed", "execution failed" and "proof rejected" apart.
#[derive(Clone, Copy, Debug, PartialEq, Eq, Structural)]
pub enum VerifyError {
    /// The executable bytes could not be parsed into a complete image.
    MalformedExecutable,
    /// Re-execution of the program hit an illegal or exhausted state.
    ExecutionFault,
    /// The proof bytes could not be decoded into a structured proof.
    ProofDecodeError,
    /// The proof decoded and execution succeeded, but the cryptographic
    /// check failed.
    VerificationRejected,
    /// The cryptographic configuration could not be assembled; unreachable
    /// in a correctly built system, since the configuration is a pure
    /// function of a literal seed.
    ConfigurationError,
}

/// Everything the external verification procedure consumes: the machine
/// state re-execution starts from, the decoded proof, and the
/// configuration the proof must have been produced under.
pub struct VerificationContext {
    /// The initial machine state; the external executor re-runs the
    /// program from it before the cryptographic check.
    pub machine: machine::MachineState,
    /// The decoded proof.
    pub proof: decoder::Proof,
    /// The deterministically derived cryptographic configuration.
    pub config: config::VerificationConfig,
}

/// Runs every stage of verification that precedes the external calls, in
/// the pipeline's order: parse the executable, build the initial machine
/// state, decode the proof stream, derive the configuration.
///
/// All-or-nothing: the first failing stage aborts with its own error kind
/// and nothing later runs. It succeeds exactly when the executable parses
/// and the proof stream decodes, and then every piece of the context is
/// pinned down: the machine state is the initial state for the parsed
/// image, and the configuration is the seed-derived constant.
pub fn prepare_verification(
    proof_bytes: &Vec<u8>,
    executable_file: &Vec<u8>,
    stack_height: Option<u32>,
    advice: Option<String>,
) -> (r: Result<VerificationContext, VerifyError>)
    ensures
        r is Ok <==> (loader::spec_load(executable_file@) is Some && decoder::cbor_decodes(
            proof_bytes@,
        )),
        match r {
            Ok(ctx) => loader::spec_load(executable_file@) matches Some(img) && ctx.machine@
                == machine::spec_initial_state(
                img,
                stack_height,
                machine::advice_view(advice),
            ) && ctx.config@ == config::spec_config(),
            Err(e) => {
                &&& loader::spec_load(executable_file@) is None ==> e
                    == VerifyError::MalformedExecutable
                &&& loader::spec_load(executable_file@) is Some ==> e
                    == VerifyError::ProofDecodeError
            },
        },
{
    let machine_state = match machine::init_machine(executable_file, stack_height, advice) {
        Ok(m) => m,
        Err(e) => {
            return Err(e);
        },
    };
    let decoded = match decoder::decode_proof(proof_bytes) {
        Ok(p) => p,
        Err(e) => {
            return Err(e);
        },
    };
    let built_config = config::init_config();
    Ok(VerificationContext { machine: machine_state, proof: decoded, config: built_config })
}

/// Maps the outcomes of the two external stages — program re-execution and
/// the cryptographic check — to the pipeline's overall result.
///
/// Re-execution runs before the cryptographic check, so an execution fault
/// takes precedence: in that case the check never ran and its flag carries
/// no information.
pub fn conclude_verification(execution_faulted: bool, proof_accepted: bool) -> (r: Result<
    (),
    VerifyError,
>)
    ensures
        execution_faulted ==> r == Result::<(), VerifyError>::Err(VerifyError::ExecutionFault),
        !execution_faulted && proof_accepted ==> r == Result::<(), VerifyError>::Ok(()),
        !execution_faulted && !proof_accepted ==> r == Result::<(), VerifyError>::Err(
            VerifyError::VerificationRejected,
        ),
{
    if execution_faulted {
        Err(VerifyError::ExecutionFault)
    } else if proof_accepted {
        Ok(())
    } else {
        Err(VerifyError::VerificationRejected)
    }
}

} // verus!
