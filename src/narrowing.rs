use vstd::prelude::*;

use crate::filters::Echo;
use crate::laws::{lemma_forwarding_stage, lemma_up_leaves_stage};
use crate::pipeline::{AnyDown, Filter, PipelineDown, PipelineStage, Signal};

verus! {

/// Narrows a 64-bit value to 32 bits on the way down and widens a 32-bit
/// reply back to 64 bits on the way up.
pub struct U64ToU32Filter;

impl Filter for U64ToU32Filter {
    type DownIn = u64;
    type DownOut = u32;
    type UpIn = u32;
    type UpOut = u64;

    open spec fn on_down(&self, data: u64) -> Seq<Signal<u32, u64>> {
        seq![Signal::Down(data as u32)]
    }

    open spec fn on_up(&self, data: u32) -> Seq<Signal<u32, u64>> {
        seq![Signal::Up(data as u64)]
    }

    fn down(&self, data: u64) -> (r: Vec<Signal<u32, u64>>) {
        let r = vec![Signal::Down(data as u32)];
        assert(r@ =~= self.on_down(data));
        r
    }

    fn up(&self, data: u32) -> (r: Vec<Signal<u32, u64>>) {
        let r = vec![Signal::Up(data as u64)];
        assert(r@ =~= self.on_up(data));
        r
    }
}

/// Narrows a 32-bit value to 16 bits on the way down and widens a 16-bit
/// reply back to 32 bits on the way up.
pub struct U32ToU16Filter;

impl Filter for U32ToU16Filter {
    type DownIn = u32;
    type DownOut = u16;
    type UpIn = u16;
    type UpOut = u32;

    open spec fn on_down(&self, data: u32) -> Seq<Signal<u16, u32>> {
        seq![Signal::Down(data as u16)]
    }

    open spec fn on_up(&self, data: u16) -> Seq<Signal<u16, u32>> {
        seq![Signal::Up(data as u32)]
    }

    fn down(&self, data: u32) -> (r: Vec<Signal<u16, u32>>) {
        let r = vec![Signal::Down(data as u16)];
        assert(r@ =~= self.on_down(data));
        r
    }

    fn up(&self, data: u16) -> (r: Vec<Signal<u16, u32>>) {
        let r = vec![Signal::Up(data as u32)];
        assert(r@ =~= self.on_up(data));
        r
    }
}

/// The built chain of `U64ToU32Filter`, `U32ToU16Filter` and `Echo<u16>`,
/// entry first.
pub type NarrowingChain = PipelineStage<
    U64ToU32Filter,
    PipelineStage<U32ToU16Filter, PipelineStage<Echo<u16>, AnyDown<(), ()>>>,
>;

/// A value sent into the narrowing chain comes back out of its entry once,
/// narrowed to 16 bits on the way down and widened again on the way up, given
/// the two hand-overs that it takes.
pub proof fn lemma_narrowing_round_trip(chain: NarrowingChain, data: u64, budget: nat)
    requires
        budget >= 2,
    ensures
        chain.flow(data, budget) == seq![(((data as u32) as u16) as u32) as u64],
{
    let narrow32 = |x: u64| x as u32;
    let widen64 = |u: u32| u as u64;
    let narrow16 = |x: u32| x as u16;
    let widen32 = |u: u16| u as u32;
    lemma_forwarding_stage(chain, narrow32, widen64, data, budget);
    lemma_forwarding_stage(chain.next, narrow16, widen32, data as u32, (budget - 1) as nat);
    let low = (data as u32) as u16;
    lemma_up_leaves_stage(chain.next.next, low, low, (budget - 2) as nat);
    assert(seq![low].map_values(widen32) =~= seq![low as u32]);
    assert(seq![low as u32].map_values(widen64) =~= seq![(low as u32) as u64]);
}

} // verus!
