use solfuzz::campaign::{
    address_from_word, check_invariant, deploy_invariant_checker, deploy_target,
    interpret_invariant_word, run_campaign, CampaignOutcome,
};
use solfuzz::errors::FuzzError;
use solfuzz::evm::Evm;
use solfuzz::fuzzer::{function_selector, SolidityFuzzer};
use solfuzz::interface::{ParsedFunction, ParsedParam};
use solfuzz::rng::fresh_rng;

fn func(name: &str, types: &[&str]) -> ParsedFunction {
    ParsedFunction {
        name: name.to_string(),
        inputs: types
            .iter()
            .map(|t| ParsedParam { internal_type: t.to_string() })
            .collect(),
    }
}

/// Assembles the runtime code of a test fixture that is its own invariant
/// checker: `setUp()` does nothing, `inv()` returns the contract's own
/// address, `invariant_neverFalse()` runs `chk_body`, and any other selector
/// (the fuzzed function) runs `default_body`.
fn fixture_runtime(default_body: &[u8], chk_body: &[u8]) -> Vec<u8> {
    let selectors = [
        function_selector("setUp()"),
        function_selector("inv()"),
        function_selector("invariant_neverFalse()"),
    ];
    let mut code: Vec<u8> = Vec::new();
    // selector = calldata word 0 shifted right by 224 bits
    code.extend_from_slice(&[0x5f, 0x35, 0x60, 0xe0, 0x1c]);
    let mut patch_sites = Vec::new();
    for sel in selectors.iter() {
        code.push(0x80); // DUP1
        code.push(0x63); // PUSH4 selector
        code.extend_from_slice(sel);
        code.push(0x14); // EQ
        code.push(0x60); // PUSH1 destination, patched below
        patch_sites.push(code.len());
        code.push(0x00);
        code.push(0x57); // JUMPI
    }
    code.extend_from_slice(default_body);
    let setup_dst = code.len();
    code.extend_from_slice(&[0x5b, 0x00]); // JUMPDEST; STOP
    let inv_dst = code.len();
    // JUMPDEST; ADDRESS; PUSH0; MSTORE; PUSH1 32; PUSH0; RETURN
    code.extend_from_slice(&[0x5b, 0x30, 0x5f, 0x52, 0x60, 0x20, 0x5f, 0xf3]);
    let chk_dst = code.len();
    code.push(0x5b); // JUMPDEST
    code.extend_from_slice(chk_body);
    assert!(code.len() < 256, "fixture runtime must fit one push byte");
    code[patch_sites[0]] = setup_dst as u8;
    code[patch_sites[1]] = inv_dst as u8;
    code[patch_sites[2]] = chk_dst as u8;
    code
}

/// Wraps runtime code in creation code that copies it to memory and returns it.
fn creation_code(runtime: &[u8]) -> Vec<u8> {
    let len = runtime.len() as u8;
    let mut c = vec![0x60, len, 0x60, 0x0a, 0x5f, 0x39, 0x60, len, 0x5f, 0xf3];
    c.extend_from_slice(runtime);
    c
}

// SLOAD slot 0; add 1; SSTORE slot 0; STOP
const BUMP_COUNTER: [u8; 8] = [0x5f, 0x54, 0x60, 0x01, 0x01, 0x5f, 0x55, 0x00];
// PUSH0; PUSH0; REVERT
const ALWAYS_REVERT: [u8; 3] = [0x5f, 0x5f, 0xfd];
// invariant body: counter at slot 0 is still below 3
const CHK_BELOW_3: [u8; 11] = [0x60, 0x03, 0x5f, 0x54, 0x10, 0x5f, 0x52, 0x60, 0x20, 0x5f, 0xf3];
// invariant body: constant true
const CHK_TRUE: [u8; 8] = [0x60, 0x01, 0x5f, 0x52, 0x60, 0x20, 0x5f, 0xf3];
// protocol violation: last byte of the word is 2
const CHK_MALFORMED: [u8; 8] = [0x60, 0x02, 0x5f, 0x52, 0x60, 0x20, 0x5f, 0xf3];

fn deployed_fixture(default_body: &[u8], chk_body: &[u8]) -> (Evm, solfuzz::evm::ContractAddress) {
    let mut evm = Evm::new();
    let creation = creation_code(&fixture_runtime(default_body, chk_body));
    let checker = deploy_invariant_checker(&mut evm, creation).unwrap();
    (evm, checker)
}

#[test]
fn campaign_reports_crash_when_invariant_flips() {
    let (mut evm, checker) = deployed_fixture(&BUMP_COUNTER, &CHK_BELOW_3);
    let target = deploy_target(&mut evm, &checker).unwrap();
    assert_eq!(target.bytes, checker.bytes, "the fixture's inv() names itself");
    let fuzzer = SolidityFuzzer::new(vec![func("bump", &["uint8"])]).unwrap();
    let mut rng = fresh_rng();
    let outcome = run_campaign(&mut evm, &fuzzer, &mut rng, &target, &checker, 1000).unwrap();
    match outcome {
        CampaignOutcome::CrashDetected(report) => {
            // the counter reaches 3 on the third bump, never later
            assert_eq!(report.iterations, 3);
            assert_eq!(report.calldata.len(), 36);
            assert_eq!(&report.calldata[..4], &function_selector("bump(uint8)"));
        },
        CampaignOutcome::BudgetExhausted => panic!("campaign missed the violation"),
    }
}

#[test]
fn campaign_reports_crash_on_target_revert() {
    let (mut evm, checker) = deployed_fixture(&ALWAYS_REVERT, &CHK_TRUE);
    let target = deploy_target(&mut evm, &checker).unwrap();
    let fuzzer = SolidityFuzzer::new(vec![func("bump", &["uint8"])]).unwrap();
    let mut rng = fresh_rng();
    let outcome = run_campaign(&mut evm, &fuzzer, &mut rng, &target, &checker, 1000).unwrap();
    match outcome {
        CampaignOutcome::CrashDetected(report) => assert_eq!(report.iterations, 1),
        CampaignOutcome::BudgetExhausted => panic!("revert was not classified as a crash"),
    }
}

#[test]
fn campaign_exhausts_budget_when_invariant_holds() {
    let (mut evm, checker) = deployed_fixture(&BUMP_COUNTER, &CHK_TRUE);
    let target = deploy_target(&mut evm, &checker).unwrap();
    let fuzzer = SolidityFuzzer::new(vec![func("bump", &["uint8"])]).unwrap();
    let mut rng = fresh_rng();
    let outcome = run_campaign(&mut evm, &fuzzer, &mut rng, &target, &checker, 5).unwrap();
    assert!(matches!(outcome, CampaignOutcome::BudgetExhausted));
}

#[test]
fn campaign_rejects_malformed_invariant_word() {
    let (mut evm, checker) = deployed_fixture(&BUMP_COUNTER, &CHK_MALFORMED);
    let target = deploy_target(&mut evm, &checker).unwrap();
    let fuzzer = SolidityFuzzer::new(vec![func("bump", &["uint8"])]).unwrap();
    let mut rng = fresh_rng();
    let r = run_campaign(&mut evm, &fuzzer, &mut rng, &target, &checker, 10);
    assert_eq!(r.unwrap_err(), FuzzError::InvariantEncodingViolation);
}

#[test]
fn campaign_on_empty_interface_fails_cleanly() {
    let (mut evm, checker) = deployed_fixture(&BUMP_COUNTER, &CHK_TRUE);
    let target = deploy_target(&mut evm, &checker).unwrap();
    let fuzzer = SolidityFuzzer::new(vec![]).unwrap();
    let mut rng = fresh_rng();
    let r = run_campaign(&mut evm, &fuzzer, &mut rng, &target, &checker, 10);
    assert_eq!(r.unwrap_err(), FuzzError::EmptyInterface);
}

#[test]
fn zero_budget_exhausts_without_running() {
    let (mut evm, checker) = deployed_fixture(&BUMP_COUNTER, &CHK_BELOW_3);
    let target = deploy_target(&mut evm, &checker).unwrap();
    let fuzzer = SolidityFuzzer::new(vec![func("bump", &["uint8"])]).unwrap();
    let mut rng = fresh_rng();
    let outcome = run_campaign(&mut evm, &fuzzer, &mut rng, &target, &checker, 0).unwrap();
    assert!(matches!(outcome, CampaignOutcome::BudgetExhausted));
}

#[test]
fn failed_deployment_is_setup_failure() {
    let mut evm = Evm::new();
    let r = deploy_invariant_checker(&mut evm, ALWAYS_REVERT.to_vec());
    assert_eq!(r.unwrap_err(), FuzzError::SetupFailed);
}

#[test]
fn reverting_setup_is_setup_failure() {
    let mut evm = Evm::new();
    let checker = deploy_invariant_checker(&mut evm, creation_code(&ALWAYS_REVERT)).unwrap();
    let r = deploy_target(&mut evm, &checker);
    assert_eq!(r.unwrap_err(), FuzzError::SetupFailed);
}

#[test]
fn check_invariant_reads_true_verdict() {
    let (mut evm, checker) = deployed_fixture(&BUMP_COUNTER, &CHK_TRUE);
    deploy_target(&mut evm, &checker).unwrap();
    assert_eq!(check_invariant(&mut evm, &checker).unwrap(), true);
}

#[test]
fn code_size_reports_deployed_runtime_length() {
    let runtime = fixture_runtime(&BUMP_COUNTER, &CHK_TRUE);
    let mut evm = Evm::new();
    let checker = deploy_invariant_checker(&mut evm, creation_code(&runtime)).unwrap();
    assert_eq!(evm.code_size(&checker), Some(runtime.len()));
    let absent = solfuzz::evm::ContractAddress { bytes: vec![0x11; 20] };
    assert_eq!(evm.code_size(&absent), None);
}

#[test]
fn interpret_invariant_word_is_strict() {
    let mut word = vec![0u8; 32];
    assert_eq!(interpret_invariant_word(&word), Ok(false));
    word[31] = 1;
    assert_eq!(interpret_invariant_word(&word), Ok(true));
    word[31] = 2;
    assert_eq!(interpret_invariant_word(&word), Err(FuzzError::InvariantEncodingViolation));
    word[31] = 1;
    word[5] = 7;
    assert_eq!(interpret_invariant_word(&word), Err(FuzzError::InvariantEncodingViolation));
    assert_eq!(
        interpret_invariant_word(&vec![0u8; 31]),
        Err(FuzzError::InvariantEncodingViolation)
    );
    assert_eq!(interpret_invariant_word(&vec![]), Err(FuzzError::InvariantEncodingViolation));
}

#[test]
fn address_from_word_takes_low_twenty_bytes() {
    let mut word = vec![0u8; 32];
    for i in 0..32 {
        word[i] = i as u8;
    }
    let a = address_from_word(&word).unwrap();
    assert_eq!(a.bytes.len(), 20);
    assert_eq!(a.bytes, (12u8..32).collect::<Vec<u8>>());
    assert_eq!(address_from_word(&vec![0u8; 20]).unwrap_err(), FuzzError::SetupFailed);
}
