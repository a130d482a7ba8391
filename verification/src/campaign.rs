use vstd::prelude::*;

use crate::errors::FuzzError;
use crate::evm::{CallOutcome, ContractAddress, CreateOutcome, Evm};
use crate::fuzzer::{all_encodable, calldata_for, function_selector, SolidityFuzzer};

verus! {

/// A strict boolean word: 32 bytes, all zero but the last, which is 0 or 1.
pub open spec fn valid_bool_word(w: Seq<u8>) -> bool {
    &&& w.len() == 32
    &&& forall|i: int| 0 <= i < 31 ==> w[i] == 0u8
    &&& (w[31] == 0u8 || w[31] == 1u8)
}

/// What interpreting an invariant-check return word yields: the boolean for a
/// strict encoding, a protocol violation for every other bit pattern.
pub open spec fn spec_interpret_bool_word(w: Seq<u8>) -> Result<bool, FuzzError> {
    if valid_bool_word(w) {
        Ok(w[31] == 1u8)
    } else {
        Err(FuzzError::InvariantEncodingViolation)
    }
}

/// Interprets the 32-byte return word of the invariant check strictly as a
/// boolean: bytes 0 through 30 must be zero and the last byte 0 or 1. Any
/// other observed bit pattern is a protocol violation, never coerced to a
/// verdict.
pub fn interpret_invariant_word(w: &Vec<u8>) -> (r: Result<bool, FuzzError>)
    ensures
        r == spec_interpret_bool_word(w@),
{
    if w.len() != 32 {
        return Err(FuzzError::InvariantEncodingViolation);
    }
    let mut i: usize = 0;
    while i < 31
        invariant
            i <= 31,
            w@.len() == 32,
            forall|q: int| 0 <= q < i ==> w@[q] == 0u8,
        decreases 31 - i,
    {
        if w[i] != 0 {
            return Err(FuzzError::InvariantEncodingViolation);
        }
        i += 1;
    }
    let last = w[31];
    if last == 0 {
        Ok(false)
    } else if last == 1 {
        Ok(true)
    } else {
        Err(FuzzError::InvariantEncodingViolation)
    }
}

/// Reads a contract address out of a 32-byte return word: the low-order 20
/// bytes. A word of any other length fails setup.
pub fn address_from_word(w: &Vec<u8>) -> (r: Result<ContractAddress, FuzzError>)
    ensures
        w@.len() == 32 ==> (r matches Ok(a) && a.wf() && a.bytes@ == w@.subrange(12, 32)),
        w@.len() != 32 ==> r == Err::<ContractAddress, FuzzError>(FuzzError::SetupFailed),
{
    if w.len() != 32 {
        return Err(FuzzError::SetupFailed);
    }
    let mut bytes: Vec<u8> = Vec::new();
    let mut i: usize = 12;
    while i < 32
        invariant
            12 <= i <= 32,
            w@.len() == 32,
            bytes@ =~= w@.subrange(12, i as int),
        decreases 32 - i,
    {
        bytes.push(w[i]);
        i += 1;
    }
    Ok(ContractAddress { bytes })
}

/// The 4 selector bytes as the whole payload of a zero-argument call.
pub fn selector_calldata(sel: &[u8; 4]) -> (r: Vec<u8>)
    ensures
        r@ == sel@,
{
    let mut v: Vec<u8> = Vec::new();
    v.push(sel[0]);
    v.push(sel[1]);
    v.push(sel[2]);
    v.push(sel[3]);
    proof {
        assert(v@ =~= sel@);
    }
    v
}

/// Deploys the invariant checker's creation bytecode. A deployment the
/// environment rejects is fatal: the campaign cannot start.
pub fn deploy_invariant_checker(runner: &mut Evm, bytecode: Vec<u8>) -> (r: Result<
    ContractAddress,
    FuzzError,
>)
    ensures
        r matches Ok(a) ==> a.wf(),
        r is Err ==> r == Err::<ContractAddress, FuzzError>(FuzzError::SetupFailed),
{
    match runner.create(bytecode) {
        CreateOutcome::Created(a) => Ok(a),
        CreateOutcome::Failed => Err(FuzzError::SetupFailed),
    }
}

/// Initializes the deployed checker through its `setUp()` entry point, then
/// asks it for the target's address through `inv()`, reading the low 20
/// bytes of the returned word. Any revert or fault during setup is fatal and
/// never retried.
pub fn deploy_target(runner: &mut Evm, invariant_checker_address: &ContractAddress) -> (r: Result<
    ContractAddress,
    FuzzError,
>)
    requires
        invariant_checker_address.wf(),
    ensures
        r matches Ok(a) ==> a.wf(),
        r is Err ==> r == Err::<ContractAddress, FuzzError>(FuzzError::SetupFailed),
{
    let setup_sel = function_selector("setUp()");
    let setup_cd = selector_calldata(&setup_sel);
    match runner.call(invariant_checker_address, &setup_cd) {
        CallOutcome::Success { .. } => {},
        _ => {
            return Err(FuzzError::SetupFailed);
        },
    }
    let inv_sel = function_selector("inv()");
    let inv_cd = selector_calldata(&inv_sel);
    let word = match runner.call(invariant_checker_address, &inv_cd) {
        CallOutcome::Success { output, .. } => output,
        _ => {
            return Err(FuzzError::SetupFailed);
        },
    };
    match address_from_word(&word) {
        Ok(a) => Ok(a),
        Err(_) => Err(FuzzError::SetupFailed),
    }
}

/// Asks the deployed checker for its verdict by calling the fixed
/// `invariant_neverFalse()` entry point and interpreting its return word
/// strictly as a boolean. A checker that reverts, faults, or answers with a
/// word that is not a strict boolean encoding violates the campaign's
/// protocol, which is fatal and distinct from a legitimate `false` verdict.
pub fn check_invariant(runner: &mut Evm, invariant_checker_address: &ContractAddress) -> (r:
    Result<bool, FuzzError>)
    requires
        invariant_checker_address.wf(),
    ensures
        r is Err ==> r == Err::<bool, FuzzError>(FuzzError::InvariantEncodingViolation),
{
    let sel = function_selector("invariant_neverFalse()");
    let cd = selector_calldata(&sel);
    let word = match runner.call(invariant_checker_address, &cd) {
        CallOutcome::Success { output, .. } => output,
        _ => {
            return Err(FuzzError::InvariantEncodingViolation);
        },
    };
    interpret_invariant_word(&word)
}

/// The reproducer emitted when a campaign detects a crash: how many calls ran
/// and the exact bytes of the input that triggered the failure.
#[derive(Debug)]
pub struct CampaignReport {
    /// The 1-based index of the iteration whose call crashed.
    pub iterations: u64,
    /// The exact calldata of the crashing call.
    pub calldata: Vec<u8>,
}

/// How a campaign ended.
#[derive(Debug)]
pub enum CampaignOutcome {
    /// The target reverted or faulted, or the invariant went false: the
    /// campaign's intended output, with its reproducer.
    CrashDetected(CampaignReport),
    /// Every iteration of the given budget passed without a violation.
    BudgetExhausted,
}

/// Runs the fuzz loop: each iteration draws one random call payload, sends it
/// to the target, classifies the outcome, and asks the checker for a verdict.
/// A revert or fault of the target stops the campaign immediately, before any
/// invariant check; a `false` verdict stops it after the check. Either way
/// the reproducer carries the iteration count and the exact crashing bytes.
/// The library's own failures are pinned exactly: a zero budget ends at once
/// with `BudgetExhausted`, a positive one yields `EmptyInterface` if and only
/// if the interface declares no functions, and `UnsupportedTypeKind` comes
/// only from a declared function with a kind outside the encoder's baseline.
pub fn run_campaign(
    runner: &mut Evm,
    fuzzer: &SolidityFuzzer,
    rng: &mut rand::rngs::ThreadRng,
    target: &ContractAddress,
    invariant_checker_address: &ContractAddress,
    max_iterations: u64,
) -> (r: Result<CampaignOutcome, FuzzError>)
    requires
        target.wf(),
        invariant_checker_address.wf(),
    ensures
        r matches Ok(CampaignOutcome::CrashDetected(rep)) ==> {
            &&& 1 <= rep.iterations <= max_iterations
            &&& exists|i: int|
                0 <= i < fuzzer.functions@.len() && calldata_for(
                    #[trigger] fuzzer.functions@[i],
                    rep.calldata@,
                )
        },
        max_iterations == 0 ==> r matches Ok(CampaignOutcome::BudgetExhausted),
        max_iterations > 0 ==> (fuzzer.functions@.len() == 0 <==> r == Err::<
            CampaignOutcome,
            FuzzError,
        >(FuzzError::EmptyInterface)),
        r == Err::<CampaignOutcome, FuzzError>(FuzzError::UnsupportedTypeKind) ==> exists|i: int|
            0 <= i < fuzzer.functions@.len() && !all_encodable(#[trigger] fuzzer.functions@[i]),
        r matches Err(e) ==> e == FuzzError::EmptyInterface || e == FuzzError::UnsupportedTypeKind
            || e == FuzzError::InvariantEncodingViolation,
{
    let mut iterations: u64 = 0;
    while iterations < max_iterations
        invariant
            target.wf(),
            invariant_checker_address.wf(),
            iterations <= max_iterations,
            iterations > 0 ==> fuzzer.functions@.len() > 0,
        decreases max_iterations - iterations,
    {
        iterations = iterations + 1;
        let calldata = match fuzzer.generate_random_calldata(rng) {
            Ok(cd) => cd,
            Err(e) => {
                return Err(e);
            },
        };
        let crashed = match runner.call(target, &calldata) {
            CallOutcome::Success { .. } => false,
            CallOutcome::Revert { .. } => true,
            CallOutcome::Fault => true,
        };
        if crashed {
            return Ok(CampaignOutcome::CrashDetected(CampaignReport { iterations, calldata }));
        }
        let holds = match check_invariant(runner, invariant_checker_address) {
            Ok(b) => b,
            Err(e) => {
                return Err(e);
            },
        };
        if !holds {
            return Ok(CampaignOutcome::CrashDetected(CampaignReport { iterations, calldata }));
        }
    }
    Ok(CampaignOutcome::BudgetExhausted)
}

} // verus!
