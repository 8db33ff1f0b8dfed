use td_rs::chop::{
    chop_new, output_for, Chop, ChopGeneralInfo, ChopOutputInfo, HostChopGeneralInfo, HostChopOutputInfo,
};
use td_rs::inputs::OperatorInputs;
use td_rs::marshal::HostString;
use td_rs::op::{HostInfoDatSize, Op};
use td_rs::params::{ParamDecl, ParamDeclView, ParamInputs, ParamKind, ParamValue, ParameterManager};
use td_rs::samples::ChopOutput;
use vstd::seq::Seq;

/// A sine generator: three channels of a hundred samples, scaled in time by
/// its one parameter.
struct SinChop {
    execute_count: u64,
    scale: f64,
    error: String,
}

impl SinChop {
    fn new() -> Self {
        SinChop { execute_count: 0, scale: 1.0, error: String::new() }
    }

    fn sample(chan: usize, index: usize, num_samples: usize, count: u64, rate: i32, scale: f64) -> f32 {
        let phase = (2.0 * std::f64::consts::PI) / (chan as f64 + 1.0);
        let percent = (index as f64) / (num_samples as f64);
        let timestep = (count as f64) / (rate as f64 * scale);
        (phase * percent + timestep).sin() as f32
    }
}

impl Op for SinChop {
    fn declared_params(&self) -> Seq<ParamDeclView> {
        unreachable!()
    }

    fn with_params(self, snapshot: ParamInputs) -> Self {
        let mut updated = self;
        updated.update_params(&snapshot);
        updated
    }

    fn error_text(&self) -> Seq<char> {
        unreachable!()
    }

    fn info_chop_len(&self) -> usize {
        self.info_chop_size()
    }

    fn info_chop_entry(&self, _index: usize) -> (Seq<char>, u32) {
        unreachable!()
    }

    fn info_dat_extent(&self) -> Option<(u32, u32)> {
        self.info_dat_size()
    }

    fn info_dat_cell(&self, _row: usize, _col: usize) -> Seq<char> {
        unreachable!()
    }

    fn register_params(&self, manager: &mut ParameterManager) {
        manager.append(ParamDecl {
            name: String::from("Scale"),
            label: String::from("Scale"),
            page: String::from("Custom"),
            kind: ParamKind::Numeric {
                default: 1.0f64.to_bits(),
                min: 0.0f64.to_bits(),
                max: 10.0f64.to_bits(),
            },
        });
    }

    fn with_params_settles(self, _snapshot: ParamInputs) {
    }

    fn update_params(&mut self, snapshot: &ParamInputs) {
        if let Some(bits) = snapshot.number("Scale") {
            self.scale = f64::from_bits(bits);
        }
    }

    fn warning(&self) -> String {
        String::new()
    }

    fn error(&self) -> String {
        self.error.clone()
    }

    fn info(&self) -> String {
        String::new()
    }

    fn info_chop_size(&self) -> usize {
        1
    }

    fn info_chop_channel(&self, _index: usize) -> (String, u32) {
        (String::from("execute_count"), (self.execute_count as f32).to_bits())
    }

    fn info_dat_size(&self) -> Option<(u32, u32)> {
        Some((2, 2))
    }

    fn info_dat_entry(&self, row: usize, col: usize) -> String {
        match (row, col) {
            (0, 0) => String::from("scale"),
            (0, 1) => format!("{}", self.scale),
            (1, 0) => String::from("note"),
            _ => String::new(),
        }
    }

    fn pulsed(self, _name: Seq<char>) -> Self {
        unreachable!()
    }

    fn pulse_pressed(&mut self, name: &str) {
        if name == "Reset" {
            self.execute_count = 0;
        }
    }
}

impl Chop for SinChop {
    fn general_info_of(&self, inputs: &OperatorInputs) -> ChopGeneralInfo {
        self.general_info(inputs)
    }

    fn output_info_of(&self, inputs: &OperatorInputs) -> Option<ChopOutputInfo> {
        self.output_info(inputs)
    }

    fn channel_name_of(&self, _index: usize, _inputs: &OperatorInputs) -> Option<Seq<char>> {
        unreachable!()
    }

    fn general_info(&self, _inputs: &OperatorInputs) -> ChopGeneralInfo {
        ChopGeneralInfo {
            cook_every_frame: false,
            cook_every_frame_if_asked: true,
            timeslice: false,
            input_match_index: 0,
        }
    }

    fn output_info(&self, _inputs: &OperatorInputs) -> Option<ChopOutputInfo> {
        Some(ChopOutputInfo {
            num_channels: 3,
            num_samples: 100,
            sample_rate: 60.0f32.to_bits(),
            start_index: 0,
        })
    }

    fn channel_name(&self, index: usize, _inputs: &OperatorInputs) -> Option<String> {
        Some(format!("chan{}", index))
    }

    fn cooked(self, _output: ChopOutput, _inputs: OperatorInputs) -> (Self, Seq<Seq<u32>>) {
        unreachable!()
    }

    fn execute(&mut self, output: &mut ChopOutput, _inputs: &OperatorInputs) {
        for chan in 0..output.num_channels() {
            for index in 0..output.num_samples() {
                let val = SinChop::sample(
                    chan,
                    index,
                    output.num_samples(),
                    self.execute_count,
                    output.sample_rate(),
                    self.scale,
                );
                output.set(chan, index, val.to_bits());
            }
        }
        self.execute_count += 1;
    }
}

fn inputs_with_scale(scale: f64) -> OperatorInputs {
    let mut params = ParamInputs::new();
    params.set(String::from("Scale"), ParamValue::Number(scale.to_bits()));
    OperatorInputs::new(params, Vec::new())
}

#[test]
fn sine_plugin_end_to_end() {
    let mut adapter = chop_new(SinChop::new());
    let inputs = inputs_with_scale(2.0);

    let mut shape = HostChopOutputInfo { num_channels: 0, num_samples: 0, sample_rate: 0, start_index: 0 };
    assert!(adapter.getOutputInfo(&mut shape, &inputs));
    assert_eq!(shape.num_channels, 3);
    assert_eq!(shape.num_samples, 100);
    assert_eq!(f32::from_bits(shape.sample_rate), 60.0);
    assert_eq!(shape.start_index, 0);
    assert_eq!(adapter.inner().scale, 2.0);

    let negotiated = ChopOutputInfo { num_channels: 3, num_samples: 100, sample_rate: shape.sample_rate, start_index: 0 };
    let mut output = output_for(&negotiated, 60).unwrap();
    adapter.execute(&mut output, &inputs);
    assert_eq!(output.num_channels(), 3);
    assert_eq!(output.num_samples(), 100);
    assert_eq!(f32::from_bits(output.get(0, 0)), SinChop::sample(0, 0, 100, 0, 60, 2.0));
    assert_eq!(f32::from_bits(output.get(0, 0)), 0.0);
    assert_eq!(f32::from_bits(output.get(2, 50)), SinChop::sample(2, 50, 100, 0, 60, 2.0));
    assert_eq!(adapter.inner().execute_count, 1);

    adapter.execute(&mut output, &inputs);
    assert_eq!(f32::from_bits(output.get(1, 99)), SinChop::sample(1, 99, 100, 1, 60, 2.0));
    assert_eq!(adapter.destroy().execute_count, 2);
}

#[test]
fn general_info_is_copied_to_the_host_record() {
    let mut adapter = chop_new(SinChop::new());
    let inputs = inputs_with_scale(4.0);
    let mut info = HostChopGeneralInfo {
        cook_every_frame: true,
        cook_every_frame_if_asked: false,
        timeslice: true,
        input_match_index: 9,
    };
    adapter.getGeneralInfo(&mut info, &inputs);
    assert_eq!(
        info,
        HostChopGeneralInfo {
            cook_every_frame: false,
            cook_every_frame_if_asked: true,
            timeslice: false,
            input_match_index: 0,
        }
    );
    assert_eq!(adapter.inner().scale, 4.0);
    let mut again = info;
    adapter.getGeneralInfo(&mut again, &inputs);
    assert_eq!(again, info);
}

#[test]
fn channel_names_and_diagnostics_reach_the_host() {
    let mut adapter = chop_new(SinChop::new());
    let inputs = inputs_with_scale(1.0);
    let mut name = HostString::new();
    adapter.getChannelName(2, &mut name, &inputs);
    assert_eq!(name.as_bytes().as_slice(), b"chan2\0");
    adapter.getChannelName(-1, &mut name, &inputs);
    assert_eq!(name.as_bytes().as_slice(), b"chan2\0");

    let mut error = HostString::new();
    adapter.getErrorString(&mut error);
    assert_eq!(error.as_bytes().as_slice(), b"\0");
    adapter.innerMut().error = String::from("bad\0input");
    adapter.getErrorString(&mut error);
    assert_eq!(error.as_bytes().as_slice(), b"bad?input\0");
    adapter.innerMut().error = String::new();
    adapter.getErrorString(&mut error);
    assert_eq!(error.as_bytes().as_slice(), b"\0");

    let mut warning = HostString::new();
    adapter.getWarningString(&mut warning);
    assert_eq!(warning.as_bytes().as_slice(), b"\0");
    let mut info = HostString::new();
    adapter.getInfoPopupString(&mut info);
    assert_eq!(info.as_bytes().as_slice(), b"\0");
}

#[test]
fn info_tables_are_asked_inside_their_size_only() {
    let mut adapter = chop_new(SinChop::new());
    assert_eq!(adapter.getNumInfoCHOPChans(), 1);
    let mut name = HostString::new();
    let mut value = 7u32;
    adapter.getInfoCHOPChan(0, &mut name, &mut value);
    assert_eq!(name.as_bytes().as_slice(), b"execute_count\0");
    assert_eq!(f32::from_bits(value), 0.0);
    let mut other = HostString::new();
    let mut untouched = 7u32;
    adapter.getInfoCHOPChan(1, &mut other, &mut untouched);
    adapter.getInfoCHOPChan(-3, &mut other, &mut untouched);
    assert!(other.as_bytes().is_empty());
    assert_eq!(untouched, 7);

    let mut size = HostInfoDatSize { rows: 0, cols: 0, by_column: true };
    assert!(adapter.getInfoDATSize(&mut size));
    assert_eq!((size.rows, size.cols, size.by_column), (2, 2, true));
    let mut cell = HostString::new();
    adapter.getInfoDATEntry(0, 0, &mut cell);
    assert_eq!(cell.as_bytes().as_slice(), b"scale\0");
    adapter.getInfoDATEntry(1, 1, &mut cell);
    assert_eq!(cell.as_bytes().as_slice(), b"\0");
    cell.setString("an older text");
    adapter.getInfoDATEntry(1, 1, &mut cell);
    assert_eq!(cell.as_bytes().as_slice(), b"\0");
    adapter.getInfoDATEntry(0, 0, &mut cell);
    adapter.getInfoDATEntry(2, 0, &mut cell);
    adapter.getInfoDATEntry(0, -1, &mut cell);
    assert_eq!(cell.as_bytes().as_slice(), b"scale\0");
    adapter.getInfoDATEntry(1, 0, &mut cell);
    assert_eq!(cell.as_bytes().as_slice(), b"note\0");
}

#[test]
fn setup_declares_the_parameters_and_pulses_are_passed_on() {
    let mut adapter = chop_new(SinChop::new());
    let mut manager = ParameterManager::new();
    adapter.setupParameters(&mut manager);
    assert_eq!(manager.len(), 1);
    assert_eq!(manager.get(0).name, "Scale");
    adapter.setupParameters(&mut manager);
    assert_eq!(manager.len(), 1);

    let inputs = inputs_with_scale(1.0);
    let mut output = ChopOutput::new(1, 4, 60, 0).unwrap();
    adapter.execute(&mut output, &inputs);
    assert_eq!(adapter.inner().execute_count, 1);
    adapter.pulsePressed("Other");
    assert_eq!(adapter.inner().execute_count, 1);
    adapter.pulsePressed("Reset");
    assert_eq!(adapter.inner().execute_count, 0);
}
