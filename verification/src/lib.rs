//! A flat-record boundary around a Plutus script evaluator.
//!
//! Callers hand in borrowed byte regions and receive owned result records:
//! either the bytes the evaluator produced or the text of its error. The
//! evaluator itself is an outside collaborator; everything this crate adds
//! around it (copying borrowed regions, pairing resolved inputs with their
//! outputs, reordering the budget, laying out the result records) is verified.
//!
//! Both operations are handed the evaluator's part by the caller, as a
//! function: the evaluator unwinds on bytes that break what it takes for
//! granted, and the functions of this crate do not, so what they promise
//! holds of whatever that function returns.

pub mod bridge;
pub mod decode;
pub mod records;

pub use bridge::{apply_params_to_plutus_script, get_ex_units};
pub use decode::{convert_inputs_outputs, evaluator_budget, prepare_evaluation, EvaluatorCall};
pub use records::{ExUnitsResult, PlutusScriptResult};
