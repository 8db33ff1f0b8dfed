//! Plugins that implement the cook and nothing else. Wrapped in
//! [`CookOnly`], such a plugin is a full operator: every optional
//! capability answers as an operator without it does, so that the host
//! decides scheduling, shape and names, and sees no parameters, no
//! diagnostics and no info tables.
use crate::chop::{self, Chop, ChopGeneralInfo, ChopOutputInfo};
use crate::dat::{Dat, DatGeneralInfo, DatOutput, Table};
use crate::inputs::OperatorInputs;
use crate::marshal::{host_encoding, lemma_host_encoding_empty};
use crate::op::Op;
use crate::params::{ParamInputs, ParameterManager};
use crate::samples::{ChopOutput, Samples};
use crate::sop::{Geometry, Sop, SopGeneralInfo, SopOutput, SopVboOutput};
use vstd::prelude::*;

verus! {

/// The cook of a time-series operator.
pub trait ChopCook: Sized {
    /// The plugin after a cook on these inputs, with the samples that the
    /// cook leaves in the block it was given.
    spec fn cooked(self, output: ChopOutput, inputs: OperatorInputs) -> (Self, Samples);

    /// Fills the output block. The block keeps the extents that it came
    /// with.
    fn execute(&mut self, output: &mut ChopOutput, inputs: &OperatorInputs)
        ensures
            *final(self) == old(self).cooked(*old(output), *inputs).0,
            final(output)@ == old(self).cooked(*old(output), *inputs).1,
            final(output).same_shape(old(output)),
    ;
}

/// The cook of a table operator.
pub trait DatCook: Sized {
    /// The plugin after a cook on these inputs, with the table that the
    /// cook leaves.
    spec fn cooked(self, output: DatOutput, inputs: OperatorInputs) -> (Self, Table);

    /// Sizes and fills the output table.
    fn execute(&mut self, output: &mut DatOutput, inputs: &OperatorInputs)
        ensures
            *final(self) == old(self).cooked(*old(output), *inputs).0,
            final(output)@ == old(self).cooked(*old(output), *inputs).1,
    ;
}

/// The cook of a geometry operator.
pub trait SopCook: Sized {
    /// The plugin after a cook on these inputs, with the geometry that the
    /// cook leaves.
    spec fn cooked(self, output: SopOutput, inputs: OperatorInputs) -> (Self, Geometry);

    /// Builds the output geometry.
    fn execute(&mut self, output: &mut SopOutput, inputs: &OperatorInputs)
        ensures
            *final(self) == old(self).cooked(*old(output), *inputs).0,
            final(output)@ == old(self).cooked(*old(output), *inputs).1,
    ;
}

/// An operator made of a cook alone.
pub struct CookOnly<C> {
    pub cook: C,
}

impl<C> Op for CookOnly<C> {
    fn register_params(&self, manager: &mut ParameterManager) {
    }

    proof fn with_params_settles(self, snapshot: ParamInputs) {
    }

    fn update_params(&mut self, snapshot: &ParamInputs) {
    }

    fn warning(&self) -> (text: String) {
        String::new()
    }

    fn error(&self) -> (text: String) {
        String::new()
    }

    fn info(&self) -> (text: String) {
        String::new()
    }

    fn info_chop_size(&self) -> (n: usize) {
        0
    }

    /// Never asked: the operator has no info channel.
    fn info_chop_channel(&self, index: usize) -> (channel: (String, u32)) {
        (String::new(), 0)
    }

    fn info_dat_size(&self) -> (size: Option<(u32, u32)>) {
        None
    }

    /// Never asked: the operator has no info table.
    fn info_dat_entry(&self, row: usize, col: usize) -> (text: String) {
        String::new()
    }

    fn pulse_pressed(&mut self, name: &str) {
    }
}

impl<C: ChopCook> Chop for CookOnly<C> {
    fn general_info(&self, inputs: &OperatorInputs) -> (info: ChopGeneralInfo) {
        ChopGeneralInfo::default()
    }

    fn output_info(&self, inputs: &OperatorInputs) -> (info: Option<ChopOutputInfo>) {
        None
    }

    fn channel_name(&self, index: usize, inputs: &OperatorInputs) -> (name: Option<String>) {
        None
    }

    open spec fn cooked(self, output: ChopOutput, inputs: OperatorInputs) -> (Self, Samples) {
        (CookOnly { cook: self.cook.cooked(output, inputs).0 }, self.cook.cooked(output, inputs).1)
    }

    fn execute(&mut self, output: &mut ChopOutput, inputs: &OperatorInputs) {
        self.cook.execute(output, inputs);
    }
}

impl<C: DatCook> Dat for CookOnly<C> {
    fn general_info(&self, inputs: &OperatorInputs) -> (info: DatGeneralInfo) {
        DatGeneralInfo::default()
    }

    open spec fn cooked(self, output: DatOutput, inputs: OperatorInputs) -> (Self, Table) {
        (CookOnly { cook: self.cook.cooked(output, inputs).0 }, self.cook.cooked(output, inputs).1)
    }

    fn execute(&mut self, output: &mut DatOutput, inputs: &OperatorInputs) {
        self.cook.execute(output, inputs);
    }
}

impl<C: SopCook> Sop for CookOnly<C> {
    fn general_info(&self, inputs: &OperatorInputs) -> (info: SopGeneralInfo) {
        SopGeneralInfo::default()
    }

    open spec fn cooked(self, output: SopOutput, inputs: OperatorInputs) -> (Self, Geometry) {
        (CookOnly { cook: self.cook.cooked(output, inputs).0 }, self.cook.cooked(output, inputs).1)
    }

    fn execute(&mut self, output: &mut SopOutput, inputs: &OperatorInputs) {
        self.cook.execute(output, inputs);
    }

    fn execute_vbo(&mut self, output: &mut SopVboOutput, inputs: &OperatorInputs) {
    }
}

/// An operator made of a cook alone reports nothing: each of its
/// diagnostics reaches the host as the empty string, it has no info
/// channels and no info table, and it leaves shape and names to the host.
pub proof fn lemma_cook_only_reports_nothing<C: ChopCook>(plugin: CookOnly<C>, inputs: OperatorInputs)
    ensures
        host_encoding(plugin.warning_text()) == seq![0u8],
        host_encoding(plugin.error_text()) == seq![0u8],
        host_encoding(plugin.info_text()) == seq![0u8],
        plugin.info_chop_len() == 0,
        plugin.info_dat_extent() is None,
        plugin.declared_params().len() == 0,
        plugin.with_params(inputs.params) == plugin,
        plugin.output_info_of(&inputs) is None,
        plugin.general_info_of(&inputs) == chop::on_demand(),
        forall|index: usize| plugin.channel_name_of(index, &inputs) is None,
{
    lemma_host_encoding_empty();
}

} // verus!
