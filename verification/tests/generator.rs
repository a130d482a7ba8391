use solfuzz::abi::ParamKind;
use solfuzz::errors::FuzzError;
use solfuzz::fuzzer::{function_selector, SolidityFuzzer};
use solfuzz::interface::{CompilationOutput, ParsedFunction, ParsedParam};
use solfuzz::rng::fresh_rng;

fn func(name: &str, types: &[&str]) -> ParsedFunction {
    ParsedFunction {
        name: name.to_string(),
        inputs: types
            .iter()
            .map(|t| ParsedParam { internal_type: t.to_string() })
            .collect(),
    }
}

#[test]
fn build_fails_whole_on_unsupported_type() {
    let abi = vec![func("ok", &["uint8"]), func("bad", &["uint24"])];
    let r = SolidityFuzzer::new(abi);
    assert!(matches!(r, Err(FuzzError::UnsupportedTypeKind)));
}

#[test]
fn build_resolves_selectors_from_signature_text() {
    let abi = vec![func("transfer", &["address", "uint256"]), func("ping", &[])];
    let fuzzer = SolidityFuzzer::new(abi).unwrap();
    assert_eq!(fuzzer.functions.len(), 2);
    assert_eq!(fuzzer.functions[0].selector, function_selector("transfer(address,uint256)"));
    assert_eq!(fuzzer.functions[0].selector, [0xa9, 0x05, 0x9c, 0xbb]);
    assert_eq!(fuzzer.functions[1].selector, function_selector("ping()"));
    assert_eq!(fuzzer.functions[0].name, "transfer");
    assert!(matches!(fuzzer.functions[0].params[0], ParamKind::Address));
    assert!(matches!(fuzzer.functions[0].params[1], ParamKind::Uint(256)));
    assert_eq!(fuzzer.functions[1].params.len(), 0);
}

#[test]
fn build_twice_yields_identical_specs() {
    let abi1 = vec![func("transfer", &["address", "uint256"]), func("bump", &["uint8"])];
    let abi2 = vec![func("transfer", &["address", "uint256"]), func("bump", &["uint8"])];
    let f1 = SolidityFuzzer::new(abi1).unwrap();
    let f2 = SolidityFuzzer::new(abi2).unwrap();
    assert_eq!(f1.functions.len(), f2.functions.len());
    for (a, b) in f1.functions.iter().zip(f2.functions.iter()) {
        assert_eq!(a.selector, b.selector);
        assert_eq!(a.name, b.name);
        assert_eq!(a.params.len(), b.params.len());
    }
}

#[test]
fn calldata_length_is_selector_plus_words() {
    let mut rng = fresh_rng();
    for (types, expected) in [
        (vec![], 4usize),
        (vec!["uint8"], 4 + 32),
        (vec!["uint8", "address", "uint256"], 4 + 3 * 32),
    ] {
        let fuzzer = SolidityFuzzer::new(vec![func("f", &types)]).unwrap();
        for _ in 0..10 {
            let cd = fuzzer.generate_random_calldata(&mut rng).unwrap();
            assert_eq!(cd.len(), expected);
        }
    }
}

#[test]
fn calldata_starts_with_chosen_selector() {
    let mut rng = fresh_rng();
    let fuzzer = SolidityFuzzer::new(vec![func("bump", &["uint8"])]).unwrap();
    let sel = function_selector("bump(uint8)");
    let cd = fuzzer.generate_random_calldata(&mut rng).unwrap();
    assert_eq!(&cd[..4], &sel);
    // the single uint8 word is zero-padded down to its final byte
    assert_eq!(&cd[4..35], &[0u8; 31]);
}

#[test]
fn empty_interface_yields_empty_interface_error() {
    let mut rng = fresh_rng();
    let fuzzer = SolidityFuzzer::new(vec![]).unwrap();
    let r = fuzzer.generate_random_calldata(&mut rng);
    assert_eq!(r.unwrap_err(), FuzzError::EmptyInterface);
}

#[test]
fn assemble_requires_both_contracts() {
    let abi = || vec![func("bump", &["uint8"])];
    let checker = || (vec![0x5fu8, 0x5f, 0xfd], vec![func("inv", &[])]);
    let out = CompilationOutput::assemble(Some(abi()), Some(checker())).unwrap();
    assert_eq!(out.target_abi.len(), 1);
    assert_eq!(out.target_abi[0].name, "bump");
    assert_eq!(out.invariant_checker.0, vec![0x5f, 0x5f, 0xfd]);
    assert_eq!(out.invariant_checker.1[0].name, "inv");
    let r = CompilationOutput::assemble(None, Some(checker()));
    assert_eq!(r.unwrap_err(), FuzzError::ContractNotFound);
    let r = CompilationOutput::assemble(Some(abi()), None);
    assert_eq!(r.unwrap_err(), FuzzError::ContractNotFound);
    let r = CompilationOutput::assemble(None, None);
    assert_eq!(r.unwrap_err(), FuzzError::ContractNotFound);
}

#[test]
fn parseable_but_unencodable_kind_fails_at_generation() {
    let mut rng = fresh_rng();
    let fuzzer = SolidityFuzzer::new(vec![func("store", &["bytes"])]).unwrap();
    let r = fuzzer.generate_random_calldata(&mut rng);
    assert_eq!(r.unwrap_err(), FuzzError::UnsupportedTypeKind);
}
