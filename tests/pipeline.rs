use std::marker::PhantomData;

use rust_async::filters::{Duplicate, Echo};
use rust_async::narrowing::{U32ToU16Filter, U64ToU32Filter};
use rust_async::pipeline::{PipelineBuilder, DEFAULT_BUDGET};

#[test]
fn narrowing_chain_echoes_65() {
    let pipeline = PipelineBuilder::new(Echo::<u16>(PhantomData))
        .filter(U32ToU16Filter)
        .filter(U64ToU32Filter)
        .build();
    assert_eq!(pipeline.down(65), vec![65u64]);
}

#[test]
fn value_is_cast_through_every_filter_in_order() {
    // 0x1_0002_0003 narrows to 0x0002_0003, then to 0x0003.
    let pipeline = PipelineBuilder::new(Echo::<u16>(PhantomData))
        .filter(U32ToU16Filter)
        .filter(U64ToU32Filter)
        .build();
    assert_eq!(pipeline.down(0x1_0002_0003), vec![3u64]);
}

#[test]
fn reply_passes_each_previous_stage_once() {
    // 70000 as u16 is 4464; the reply is widened by the middle, then by the entry.
    let pipeline = PipelineBuilder::new(Echo::<u16>(PhantomData))
        .filter(U32ToU16Filter)
        .filter(U64ToU32Filter)
        .build();
    assert_eq!(pipeline.down(70000), vec![4464u64]);
    assert_eq!(pipeline.down(u64::MAX), vec![0xffffu64]);
}

#[test]
fn entry_reply_leaves_the_pipeline() {
    let pipeline = PipelineBuilder::new(Echo::<u16>(PhantomData)).build();
    assert_eq!(pipeline.down(5), vec![5u16]);
}

#[test]
fn terminal_down_is_absorbed() {
    let pipeline = PipelineBuilder::new(U64ToU32Filter).build();
    assert_eq!(pipeline.down(7), Vec::<u64>::new());
    let pipeline = PipelineBuilder::new(U32ToU16Filter).filter(U64ToU32Filter).build();
    assert_eq!(pipeline.down(7), Vec::<u64>::new());
}

#[test]
fn fan_out_runs_two_cascades() {
    let pipeline = PipelineBuilder::new(Echo::<u16>(PhantomData))
        .filter(Duplicate::<u16, u16>(PhantomData))
        .build();
    assert_eq!(pipeline.down(9), vec![9u16, 9]);
}

#[test]
fn fan_out_above_a_narrowing_chain() {
    let pipeline = PipelineBuilder::new(Echo::<u16>(PhantomData))
        .filter(U32ToU16Filter)
        .filter(U64ToU32Filter)
        .filter(Duplicate::<u64, u64>(PhantomData))
        .build();
    assert_eq!(pipeline.down(65), vec![65u64, 65]);
}

#[test]
fn nested_fan_out_multiplies() {
    let pipeline = PipelineBuilder::new(Echo::<u8>(PhantomData))
        .filter(Duplicate::<u8, u8>(PhantomData))
        .filter(Duplicate::<u8, u8>(PhantomData))
        .filter(Duplicate::<u8, u8>(PhantomData))
        .build();
    assert_eq!(pipeline.down(1), vec![1u8; 8]);
}

#[test]
fn budget_bounds_the_depth() {
    let shallow = PipelineBuilder::new(Echo::<u16>(PhantomData))
        .filter(U32ToU16Filter)
        .filter(U64ToU32Filter)
        .build_with_budget(1);
    assert_eq!(shallow.down(65), Vec::<u64>::new());
    let enough = PipelineBuilder::new(Echo::<u16>(PhantomData))
        .filter(U32ToU16Filter)
        .filter(U64ToU32Filter)
        .build_with_budget(2);
    assert_eq!(enough.down(65), vec![65u64]);
}

#[test]
fn zero_budget_drops_every_hand_over() {
    let pipeline = PipelineBuilder::new(Echo::<u16>(PhantomData))
        .filter(Duplicate::<u16, u16>(PhantomData))
        .build_with_budget(0);
    assert_eq!(pipeline.down(3), Vec::<u16>::new());
    let single = PipelineBuilder::new(Echo::<u16>(PhantomData)).build_with_budget(0);
    assert_eq!(single.down(3), vec![3u16]);
}

#[test]
fn default_budget_is_ample_for_short_chains() {
    assert_eq!(DEFAULT_BUDGET, 1024);
    let pipeline = PipelineBuilder::new(Echo::<u16>(PhantomData))
        .filter(U32ToU16Filter)
        .filter(U64ToU32Filter)
        .build();
    assert_eq!(pipeline.down(0), vec![0u64]);
}

#[test]
fn pipeline_can_be_used_again() {
    let pipeline = PipelineBuilder::new(Echo::<u16>(PhantomData))
        .filter(U32ToU16Filter)
        .filter(U64ToU32Filter)
        .build();
    assert_eq!(pipeline.down(1), vec![1u64]);
    assert_eq!(pipeline.down(2), vec![2u64]);
}
