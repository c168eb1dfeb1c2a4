//! The two operations offered to callers.

use vstd::prelude::*;
use vstd::slice::slice_to_vec;
use crate::decode::{prepare_evaluation, zipped, EvaluatorCall};
use crate::records::{ExUnitsResult, PlutusScriptResult};

verus! {

/// Applies the serialized parameter list `params` to the serialized script
/// `plutus_script` with the function `apply`, which is called exactly once,
/// on copies of the two regions.
///
/// Where `apply` returns a script, the record reports success and carries
/// exactly those bytes. Where it returns an error text, the record reports
/// failure and carries the bytes of that text in a buffer of its own.
pub fn apply_params_to_plutus_script<F>(params: &[u8], plutus_script: &[u8], apply: F) -> (r:
    PlutusScriptResult) where F: FnOnce(Vec<u8>, Vec<u8>) -> Result<Vec<u8>, String>
    requires
        forall|p: Vec<u8>, s: Vec<u8>|
            p@ == params@ && s@ == plutus_script@ ==> apply.requires((p, s)),
    ensures
        r.well_formed(),
        exists|p: Vec<u8>, s: Vec<u8>, outcome: Result<Vec<u8>, String>|
            {
                &&& p@ == params@
                &&& s@ == plutus_script@
                &&& apply.ensures((p, s), outcome)
                &&& r.carries_outcome(outcome)
            },
{
    let p: Vec<u8> = slice_to_vec(params);
    let s: Vec<u8> = slice_to_vec(plutus_script);
    let ghost handed = (p, s);
    let outcome: Result<Vec<u8>, String> = apply(p, s);
    let ghost returned = outcome;
    let r = PlutusScriptResult::from_outcome(outcome);
    assert(handed.0@ == params@ && handed.1@ == plutus_script@ && apply.ensures(
        handed,
        returned,
    ) && r.carries_outcome(returned));
    r
}

/// Evaluates the redeemers of the transaction `tx` with the evaluator
/// `evaluate`, which is called exactly once.
///
/// `inputs` and `outputs` are parallel: the resolved input at an index is
/// spent from the output at the same index. The budget is given memory
/// first and handed to the evaluator steps first; the three parts of the
/// slot configuration are handed on as they are, and the phase-one checks
/// are off.
///
/// Where the evaluator returns redeemers, the record carries one buffer per
/// redeemer, in the evaluator's order, with the matching lengths. Where it
/// returns an error text, the record carries that text as a zero-terminated
/// buffer and no redeemers.
pub fn get_ex_units<F>(
    tx: &[u8],
    inputs: &[&[u8]],
    outputs: &[&[u8]],
    cost_mdls: &[u8],
    initial_budget_mem: u64,
    initial_budget_step: u64,
    slot_config_zero_time: u64,
    slot_config_zero_slot: u64,
    slot_config_slot_length: u32,
    evaluate: F,
) -> (r: ExUnitsResult) where F: FnOnce(EvaluatorCall) -> Result<Vec<Vec<u8>>, String>
    requires
        inputs@.len() == outputs@.len(),
        forall|call: EvaluatorCall|
            call.is_call_for(
                tx@,
                zipped(inputs@, outputs@),
                cost_mdls@,
                initial_budget_mem,
                initial_budget_step,
                (slot_config_zero_time, slot_config_zero_slot, slot_config_slot_length),
            ) ==> evaluate.requires((call,)),
    ensures
        r.well_formed(),
        exists|call: EvaluatorCall, outcome: Result<Vec<Vec<u8>>, String>|
            {
                &&& call.is_call_for(
                    tx@,
                    zipped(inputs@, outputs@),
                    cost_mdls@,
                    initial_budget_mem,
                    initial_budget_step,
                    (slot_config_zero_time, slot_config_zero_slot, slot_config_slot_length),
                )
                &&& evaluate.ensures((call,), outcome)
                &&& r.carries_outcome(outcome)
            },
{
    let call: EvaluatorCall = prepare_evaluation(
        tx,
        inputs,
        outputs,
        cost_mdls,
        initial_budget_mem,
        initial_budget_step,
        slot_config_zero_time,
        slot_config_zero_slot,
        slot_config_slot_length,
    );
    let ghost handed = call;
    let outcome: Result<Vec<Vec<u8>>, String> = evaluate(call);
    let ghost returned = outcome;
    let r = ExUnitsResult::from_outcome(outcome);
    assert(evaluate.ensures((handed,), returned) && r.carries_outcome(returned));
    r
}

} // verus!
