use std::cell::RefCell;
use uplc_bridge::{
    apply_params_to_plutus_script, get_ex_units, prepare_evaluation, EvaluatorCall,
    PlutusScriptResult,
};

/// The evaluator's parameter application, with its error as a text.
fn apply(params: Vec<u8>, script: Vec<u8>) -> Result<Vec<u8>, String> {
    uplc::tx::apply_params_to_script(&params, &script).map_err(|e| e.to_string())
}

/// The evaluator itself, from a prepared call to redeemers or an error text.
fn phase_two(call: EvaluatorCall) -> Result<Vec<Vec<u8>>, String> {
    let evaluated = uplc::tx::eval_phase_two_raw(
        &call.tx,
        &call.utxos,
        Some(&call.cost_mdls),
        call.initial_budget,
        call.slot_config,
        call.run_phase_one,
        |_| (),
    );
    match evaluated {
        Ok(redeemers) => Ok(redeemers.into_iter().map(|(redeemer, _)| redeemer).collect()),
        Err(e) => Err(e.to_string()),
    }
}

/// `(program 1.0.0 (con unit ()))`, flat-encoded and wrapped as a byte string.
const UNIT_SCRIPT: [u8; 6] = [0x45, 0x01, 0x00, 0x00, 0x49, 0x81];

/// An empty list of parameters.
const NO_PARAMS: [u8; 1] = [0x80];

/// A transaction with no inputs, no outputs, no fee and no witnesses.
const EMPTY_TX: [u8; 11] = [0x84, 0xa3, 0x00, 0x80, 0x01, 0x80, 0x02, 0x00, 0xa0, 0xf5, 0xf6];

/// Cost models for no language at all.
const NO_COST_MODELS: [u8; 1] = [0xa0];

#[test]
fn applying_no_parameters_gives_the_script_back() {
    let r = apply_params_to_plutus_script(&NO_PARAMS, &UNIT_SCRIPT, apply);
    assert!(r.success);
    assert_eq!(r.value, UNIT_SCRIPT.to_vec());
    assert_eq!(r.length, UNIT_SCRIPT.len());
}

#[test]
fn applying_matches_the_evaluator_itself() {
    let params = [0x82, 0x01, 0x41, 0xff];
    let direct = uplc::tx::apply_params_to_script(&params, &UNIT_SCRIPT).unwrap();
    let r = apply_params_to_plutus_script(&params, &UNIT_SCRIPT, apply);
    assert!(r.success);
    assert_eq!(r.value, direct);
    assert_eq!(r.length, direct.len());
}

#[test]
fn applying_one_parameter_wraps_the_script() {
    let r = apply_params_to_plutus_script(&[0x81, 0x01], &UNIT_SCRIPT, apply);
    assert!(r.success);
    assert_eq!(
        r.value,
        vec![0x4b, 0x01, 0x00, 0x00, 0x34, 0x99, 0x30, 0x01, 0x01, 0x01, 0x00, 0x01]
    );
    assert_eq!(r.length, 12);
}

#[test]
fn parameters_that_are_no_list_are_rejected() {
    let r = apply_params_to_plutus_script(&[0x00], &UNIT_SCRIPT, apply);
    assert!(!r.success);
    assert_eq!(
        String::from_utf8(r.value.clone()).unwrap(),
        "failed to apply parameters to Plutus script"
    );
    assert_eq!(r.length, r.value.len());
}

#[test]
fn malformed_parameters_are_rejected() {
    let r = apply_params_to_plutus_script(&[0xd6, 0xec], &[], apply);
    assert!(!r.success);
    assert_eq!(
        String::from_utf8(r.value.clone()).unwrap(),
        "failed to apply parameters to Plutus script"
    );
    assert_eq!(r.length, 43);
}

#[test]
fn a_malformed_script_is_rejected_with_a_text() {
    let r = apply_params_to_plutus_script(&NO_PARAMS, &[0xff, 0xff], apply);
    assert!(!r.success);
    assert!(!r.value.is_empty());
    assert_eq!(r.length, r.value.len());
    assert!(String::from_utf8(r.value).is_ok());
}

fn rejected() -> PlutusScriptResult {
    apply_params_to_plutus_script(&[0x00], &UNIT_SCRIPT, apply)
}

#[test]
fn the_error_text_outlives_the_call() {
    let r = rejected();
    let noise: Vec<Vec<u8>> = (0..64).map(|i| vec![0xaa; 32 + i]).collect();
    assert_eq!(noise.len(), 64);
    assert!(!r.success);
    assert_eq!(r.length, 43);
    assert_eq!(&r.value[..r.length], "failed to apply parameters to Plutus script".as_bytes());
}

#[test]
fn applying_twice_gives_equal_records() {
    for (params, script) in [(&[0x81u8, 0x01][..], &UNIT_SCRIPT[..]), (&[0x00][..], &[0xff][..])] {
        let first = apply_params_to_plutus_script(params, script, apply);
        let second = apply_params_to_plutus_script(params, script, apply);
        assert_eq!(first.success, second.success);
        assert_eq!(first.value, second.value);
        assert_eq!(first.length, second.length);
    }
}

#[test]
fn a_rejection_carries_the_text_of_the_evaluator_itself() {
    let text = uplc::tx::apply_params_to_script(&NO_PARAMS, &[0xff, 0xff]).unwrap_err().to_string();
    let r = apply_params_to_plutus_script(&NO_PARAMS, &[0xff, 0xff], apply);
    assert!(!r.success);
    assert_eq!(r.value, text.as_bytes());
    assert_eq!(r.length, text.len());
}

#[test]
fn no_redeemers_give_an_empty_success() {
    let none: Vec<&[u8]> = Vec::new();
    let r = get_ex_units(
        &EMPTY_TX,
        &none,
        &none,
        &NO_COST_MODELS,
        14_000_000,
        10_000_000_000,
        1_660_003_200_000,
        0,
        1000,
        phase_two,
    );
    assert!(r.success, "{:?}", r.error.map(String::from_utf8));
    assert!(r.value.is_empty());
    assert_eq!(r.length, 0);
    assert!(r.length_value.is_empty());
    assert_eq!(r.error, None);
    assert_eq!(r.error_length, 0);
}

#[test]
fn bytes_that_are_no_transaction_fail_with_a_terminated_text() {
    let none: Vec<&[u8]> = Vec::new();
    let r = get_ex_units(&[0xff], &none, &none, &NO_COST_MODELS, 1, 2, 3, 4, 5, phase_two);
    assert!(!r.success);
    assert!(r.value.is_empty());
    assert_eq!(r.length, 0);
    assert!(r.length_value.is_empty());
    let error = r.error.expect("a failure carries its text");
    assert_eq!(error.len(), r.error_length + 1);
    assert_eq!(error[r.error_length], 0);
    let text = String::from_utf8(error[..r.error_length].to_vec()).unwrap();
    assert!(text.starts_with("unsupported era, please use Conway"), "{text}");
}

#[test]
fn a_bad_resolved_input_fails_the_evaluation() {
    let inputs: Vec<&[u8]> = vec![&[0xff]];
    let outputs: Vec<&[u8]> = vec![&[0xff]];
    let r = get_ex_units(&EMPTY_TX, &inputs, &outputs, &NO_COST_MODELS, 1, 2, 3, 4, 5, phase_two);
    assert!(!r.success);
    assert_eq!(r.length, 0);
    let error = r.error.expect("a failure carries its text");
    assert_eq!(error.len(), r.error_length + 1);
    assert_eq!(error.last(), Some(&0));
}

#[test]
fn the_evaluator_is_handed_the_prepared_call() {
    let inputs: Vec<&[u8]> = vec![&[1, 1], &[2], &[]];
    let outputs: Vec<&[u8]> = vec![&[10], &[], &[30, 30]];
    let seen: RefCell<Option<EvaluatorCall>> = RefCell::new(None);
    let r = get_ex_units(&[7, 7], &inputs, &outputs, &[9], 11, 22, 33, 44, 55, |call| {
        *seen.borrow_mut() = Some(call);
        Ok(vec![vec![1, 2, 3], vec![]])
    });
    let call = seen.into_inner().expect("the evaluator is called");
    assert_eq!(call.tx, vec![7, 7]);
    assert_eq!(
        call.utxos,
        vec![(vec![1, 1], vec![10]), (vec![2], vec![]), (vec![], vec![30, 30])]
    );
    assert_eq!(call.cost_mdls, vec![9]);
    assert_eq!(call.initial_budget, (22, 11));
    assert_eq!(call.slot_config, (33, 44, 55));
    assert!(!call.run_phase_one);
    assert!(r.success);
    assert_eq!(r.value, vec![vec![1, 2, 3], vec![]]);
    assert_eq!(r.length, 2);
    assert_eq!(r.length_value, vec![3, 0]);
    assert_eq!(r.error, None);
}

#[test]
fn the_evaluator_s_error_text_is_carried_as_it_is() {
    let none: Vec<&[u8]> = Vec::new();
    let r = get_ex_units(&[], &none, &none, &[], 0, 0, 0, 0, 0, |_| Err(String::from("no budget")));
    assert!(!r.success);
    assert!(r.value.is_empty());
    assert_eq!(r.length, 0);
    assert_eq!(r.error, Some(b"no budget\0".to_vec()));
    assert_eq!(r.error_length, 9);
}

#[test]
fn preparing_copies_and_reorders() {
    let inputs: Vec<&[u8]> = vec![&[5]];
    let outputs: Vec<&[u8]> = vec![&[6, 6]];
    let call = prepare_evaluation(&[1], &inputs, &outputs, &[2], 14_000_000, 10_000_000_000, 3, 4, 5);
    assert_eq!(call.tx, vec![1]);
    assert_eq!(call.utxos, vec![(vec![5], vec![6, 6])]);
    assert_eq!(call.cost_mdls, vec![2]);
    assert_eq!(call.initial_budget, (10_000_000_000, 14_000_000));
    assert_eq!(call.slot_config, (3, 4, 5));
    assert!(!call.run_phase_one);
}

#[test]
fn the_application_is_handed_copies_of_both_regions() {
    let seen: RefCell<Option<(Vec<u8>, Vec<u8>)>> = RefCell::new(None);
    let r = apply_params_to_plutus_script(&[1, 2], &[3], |params, script| {
        *seen.borrow_mut() = Some((params, script));
        Ok(vec![9, 9, 9])
    });
    assert_eq!(seen.into_inner(), Some((vec![1, 2], vec![3])));
    assert!(r.success);
    assert_eq!(r.value, vec![9, 9, 9]);
    assert_eq!(r.length, 3);
}

#[test]
fn the_application_s_error_text_is_carried_as_it_is() {
    let r = apply_params_to_plutus_script(&[], &[], |_, _| Err(String::from("not a script")));
    assert!(!r.success);
    assert_eq!(r.value, b"not a script".to_vec());
    assert_eq!(r.length, 12);
}
