use td_rs::chop::{output_for, ChopOutputInfo};
use td_rs::inputs::OperatorInputs;
use td_rs::params::ParamInputs;
use td_rs::samples::{ChopInput, ChopOutput};

#[test]
fn a_new_block_is_silent_and_reports_its_extents() {
    let block = ChopOutput::new(3, 100, 60, 5).unwrap();
    assert_eq!(block.num_channels(), 3);
    assert_eq!(block.num_samples(), 100);
    assert_eq!(block.sample_rate(), 60);
    assert_eq!(block.start_index(), 5);
    for chan in 0..3 {
        for index in 0..100 {
            assert_eq!(block.get(chan, index), 0);
        }
        assert_eq!(block.channel(chan), vec![0u32; 100].as_slice());
    }
}

#[test]
fn a_block_too_large_to_address_is_not_made() {
    assert!(ChopOutput::new(usize::MAX, 2, 60, 0).is_none());
    assert!(ChopOutput::new(2, usize::MAX, 60, 0).is_none());
    assert!(ChopOutput::new(usize::MAX, 0, 60, 0).is_some());
    let empty = ChopOutput::new(0, 7, 60, 0).unwrap();
    assert_eq!(empty.num_channels(), 0);
    assert_eq!(empty.num_samples(), 7);
    let flat = ChopOutput::new(4, 0, 60, 0).unwrap();
    assert_eq!(flat.channel(3), &[] as &[u32]);
}

#[test]
fn a_written_sample_is_read_back_and_no_other_changes() {
    let mut block = ChopOutput::new(3, 4, 60, 0).unwrap();
    for chan in 0..3 {
        for index in 0..4 {
            let value = (0.5f32 * (chan * 4 + index) as f32).to_bits();
            block.set(chan, index, value);
            assert_eq!(block.get(chan, index), value);
        }
    }
    block.set(1, 2, f32::NAN.to_bits());
    for chan in 0..3 {
        for index in 0..4 {
            let expected =
                if (chan, index) == (1, 2) { f32::NAN.to_bits() } else { (0.5f32 * (chan * 4 + index) as f32).to_bits() };
            assert_eq!(block.get(chan, index), expected);
        }
    }
    assert_eq!(block.num_channels(), 3);
    assert_eq!(block.num_samples(), 4);
    assert_eq!(f32::from_bits(block.get(2, 3)), 5.5);
    assert_eq!(
        block.channel(0).iter().map(|bits| f32::from_bits(*bits)).collect::<Vec<f32>>(),
        vec![0.0, 0.5, 1.0, 1.5]
    );
}

#[test]
fn an_input_view_reads_what_the_output_view_wrote() {
    let mut block = ChopOutput::new(2, 3, 48000, 17).unwrap();
    block.set(0, 0, 11);
    block.set(0, 2, 13);
    block.set(1, 1, 22);
    let input = ChopInput::new(block);
    assert_eq!(input.num_channels(), 2);
    assert_eq!(input.num_samples(), 3);
    assert_eq!(input.sample_rate(), 48000);
    assert_eq!(input.start_index(), 17);
    assert_eq!(input.get(0, 0), 11);
    assert_eq!(input.get(0, 1), 0);
    assert_eq!(input.get(0, 2), 13);
    assert_eq!(input.get(1, 1), 22);
    assert_eq!(input.channel(0), &[11, 0, 13]);
    assert_eq!(input.channel(1), &[0, 22, 0]);
}

#[test]
fn a_block_is_made_for_the_negotiated_shape() {
    let info = ChopOutputInfo { num_channels: 3, num_samples: 100, sample_rate: 60.0f32.to_bits(), start_index: 8 };
    let block = output_for(&info, 60).unwrap();
    assert_eq!(block.num_channels(), 3);
    assert_eq!(block.num_samples(), 100);
    assert_eq!(block.sample_rate(), 60);
    assert_eq!(block.start_index(), 8);
    assert_eq!(block.get(2, 99), 0);
}

#[test]
fn upstream_blocks_are_reached_by_index() {
    let mut first = ChopOutput::new(1, 2, 60, 0).unwrap();
    first.set(0, 1, 5);
    let second = ChopOutput::new(4, 1, 60, 0).unwrap();
    let inputs = OperatorInputs::new(ParamInputs::new(), vec![ChopInput::new(first), ChopInput::new(second)]);
    assert_eq!(inputs.num_inputs(), 2);
    assert_eq!(inputs.input(0).unwrap().get(0, 1), 5);
    assert_eq!(inputs.input(1).unwrap().num_channels(), 4);
    assert!(inputs.input(2).is_none());
    assert!(inputs.params().get("Scale").is_none());
    let none = OperatorInputs::new(ParamInputs::new(), Vec::new());
    assert_eq!(none.num_inputs(), 0);
    assert!(none.input(0).is_none());
}
