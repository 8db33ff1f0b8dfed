//! What the host hands to an operator with every call.
use crate::params::ParamInputs;
use crate::samples::ChopInput;
use vstd::prelude::*;

verus! {

/// The inputs of one host call: the current parameter values and the
/// output blocks of the operators wired upstream. They are made anew for
/// every call and are good for that call only.
pub struct OperatorInputs {
    /// The snapshot of the parameter values.
    pub params: ParamInputs,
    /// The upstream operators' blocks, in wiring order.
    pub inputs: Vec<ChopInput>,
}

impl OperatorInputs {
    /// Inputs with the given snapshot and upstream blocks.
    pub fn new(params: ParamInputs, inputs: Vec<ChopInput>) -> (r: OperatorInputs)
        ensures
            r.params == params,
            r.inputs == inputs,
    {
        OperatorInputs { params, inputs }
    }

    /// The snapshot of the parameter values.
    pub fn params(&self) -> (snapshot: &ParamInputs)
        ensures
            *snapshot == self.params,
    {
        &self.params
    }

    /// The number of operators wired upstream.
    pub fn num_inputs(&self) -> (n: usize)
        ensures
            n == self.inputs@.len(),
    {
        self.inputs.len()
    }

    /// The block of the upstream operator at `index`, if there is one.
    pub fn input(&self, index: usize) -> (block: Option<&ChopInput>)
        ensures
            index < self.inputs@.len() ==> block == Some(&self.inputs@[index as int]),
            index >= self.inputs@.len() ==> block is None,
    {
        if index < self.inputs.len() {
            Some(&self.inputs[index])
        } else {
            None
        }
    }
}

} // verus!
