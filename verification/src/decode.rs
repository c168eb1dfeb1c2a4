//! Turning borrowed byte regions into the owned arguments of an evaluation.

use vstd::prelude::*;
use vstd::slice::slice_to_vec;

verus! {

/// The contents of each pair of a sequence of owned pairs.
pub open spec fn pairs_of(pairs: Seq<(Vec<u8>, Vec<u8>)>) -> Seq<(Seq<u8>, Seq<u8>)> {
    Seq::new(pairs.len(), |i: int| (pairs[i].0@, pairs[i].1@))
}

/// Two parallel sequences of regions joined index by index: the pair at `i`
/// holds the bytes of `inputs[i]` and those of `outputs[i]`.
pub open spec fn zipped(inputs: Seq<&[u8]>, outputs: Seq<&[u8]>) -> Seq<(Seq<u8>, Seq<u8>)>
    recommends
        inputs.len() == outputs.len(),
{
    Seq::new(inputs.len(), |i: int| (inputs[i]@, outputs[i]@))
}

/// Pairs each resolved input with the output it spends, by position, and
/// copies both sides into buffers of their own.
pub fn convert_inputs_outputs(inputs: &[&[u8]], outputs: &[&[u8]]) -> (pairs: Vec<(Vec<u8>, Vec<u8>)>)
    requires
        inputs@.len() == outputs@.len(),
    ensures
        pairs@.len() == inputs@.len(),
        forall|i: int|
            0 <= i < inputs@.len() ==> (#[trigger] pairs@[i]).0@ == inputs@[i]@ && pairs@[i].1@
                == outputs@[i]@,
        pairs_of(pairs@) == zipped(inputs@, outputs@),
{
    let n: usize = inputs.len();
    let mut pairs: Vec<(Vec<u8>, Vec<u8>)> = Vec::with_capacity(n);
    let mut i: usize = 0;
    while i < n
        invariant
            n == inputs@.len(),
            n == outputs@.len(),
            i <= n,
            pairs@.len() == i,
            forall|j: int|
                0 <= j < i ==> (#[trigger] pairs@[j]).0@ == inputs@[j]@ && pairs@[j].1@
                    == outputs@[j]@,
        decreases n - i,
    {
        let input: Vec<u8> = slice_to_vec(inputs[i]);
        let output: Vec<u8> = slice_to_vec(outputs[i]);
        pairs.push((input, output));
        i += 1;
    }
    assert(pairs_of(pairs@) =~= zipped(inputs@, outputs@));
    pairs
}

/// The budget in the order the evaluator expects: steps first, memory
/// second. Callers of this crate give memory first.
pub fn evaluator_budget(mem: u64, step: u64) -> (budget: (u64, u64))
    ensures
        budget == (step, mem),
{
    (step, mem)
}

/// Everything one phase-two evaluation is given, in owned form and in the
/// evaluator's own conventions.
#[derive(Debug)]
pub struct EvaluatorCall {
    pub tx: Vec<u8>,
    pub utxos: Vec<(Vec<u8>, Vec<u8>)>,
    pub cost_mdls: Vec<u8>,
    /// Steps first, memory second.
    pub initial_budget: (u64, u64),
    /// Zero time, zero slot, slot length.
    pub slot_config: (u64, u64, u32),
    pub run_phase_one: bool,
}

impl EvaluatorCall {
    /// The call holds exactly these arguments, the budget being given here
    /// memory first, and leaves the phase-one checks off.
    pub open spec fn is_call_for(
        &self,
        tx: Seq<u8>,
        utxos: Seq<(Seq<u8>, Seq<u8>)>,
        cost_mdls: Seq<u8>,
        budget_mem: u64,
        budget_step: u64,
        slot_config: (u64, u64, u32),
    ) -> bool {
        &&& self.tx@ == tx
        &&& pairs_of(self.utxos@) == utxos
        &&& self.cost_mdls@ == cost_mdls
        &&& self.initial_budget == (budget_step, budget_mem)
        &&& self.slot_config == slot_config
        &&& !self.run_phase_one
    }
}

/// Builds the arguments of one evaluation from what a caller lends: every
/// region is copied, the resolved inputs are paired with their outputs by
/// position, and the budget is put steps first.
pub fn prepare_evaluation(
    tx: &[u8],
    inputs: &[&[u8]],
    outputs: &[&[u8]],
    cost_mdls: &[u8],
    initial_budget_mem: u64,
    initial_budget_step: u64,
    slot_config_zero_time: u64,
    slot_config_zero_slot: u64,
    slot_config_slot_length: u32,
) -> (call: EvaluatorCall)
    requires
        inputs@.len() == outputs@.len(),
    ensures
        call.is_call_for(
            tx@,
            zipped(inputs@, outputs@),
            cost_mdls@,
            initial_budget_mem,
            initial_budget_step,
            (slot_config_zero_time, slot_config_zero_slot, slot_config_slot_length),
        ),
        call.utxos@.len() == inputs@.len(),
        forall|i: int|
            0 <= i < inputs@.len() ==> (#[trigger] call.utxos@[i]).0@ == inputs@[i]@
                && call.utxos@[i].1@ == outputs@[i]@,
{
    EvaluatorCall {
        tx: slice_to_vec(tx),
        utxos: convert_inputs_outputs(inputs, outputs),
        cost_mdls: slice_to_vec(cost_mdls),
        initial_budget: evaluator_budget(initial_budget_mem, initial_budget_step),
        slot_config: (slot_config_zero_time, slot_config_zero_slot, slot_config_slot_length),
        run_phase_one: false,
    }
}

} // verus!
