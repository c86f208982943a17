use vstd::prelude::*;

use crate::pipeline::{AnyDown, Filter, PipelineDown, PipelineStage, PipelineUp, Signal, up_values};

verus! {

/// What one signal of a filter comes to in its stage.
proof fn lemma_routed_single<F: Filter, N: PipelineDown<In = F::DownOut, Out = F::UpIn>>(
    stage: PipelineStage<F, N>,
    signal: Signal<F::DownOut, F::UpOut>,
    budget: nat,
)
    ensures
        stage.routed(seq![signal], budget) == match signal {
            Signal::Up(v) => seq![v],
            Signal::Down(d) => stage.cascade(d, budget),
        },
{
    let signals = seq![signal];
    assert(signals.drop_first() =~= Seq::empty());
    assert(stage.routed(Seq::empty(), budget) == Seq::<F::UpOut>::empty());
    assert(stage.routed(signals, budget) =~= match signal {
        Signal::Up(v) => seq![v],
        Signal::Down(d) => stage.cascade(d, budget),
    });
}

/// Replies that come up to a forwarding filter leave its stage one for one,
/// each cast.
proof fn lemma_answered_forwarding<F: Filter, N: PipelineDown<In = F::DownOut, Out = F::UpIn>>(
    stage: PipelineStage<F, N>,
    up_cast: spec_fn(F::UpIn) -> F::UpOut,
    replies: Seq<F::UpIn>,
    budget: nat,
)
    requires
        forall|u: F::UpIn| #[trigger] stage.filter.on_up(u) == seq![Signal::<F::DownOut, F::UpOut>::Up(up_cast(u))],
    ensures
        stage.answered(replies, budget) == replies.map_values(up_cast),
    decreases replies.len(),
{
    if replies.len() > 0 {
        lemma_answered_forwarding(stage, up_cast, replies.drop_first(), budget);
        lemma_routed_single(stage, Signal::Up(up_cast(replies[0])), budget);
        assert(stage.answered(replies, budget) =~= replies.map_values(up_cast));
    } else {
        assert(stage.answered(replies, budget) =~= replies.map_values(up_cast));
    }
}

/// A stage whose filter hands every value down once, cast, and every reply
/// up once, cast, behaves as the chain below it on the cast value, with each
/// reply cast: the value reaches the next stage exactly once. Applied stage by
/// stage, a chain of such filters carries a value to its terminal filter once,
/// cast through every filter in order.
pub proof fn lemma_forwarding_stage<F: Filter, N: PipelineDown<In = F::DownOut, Out = F::UpIn>>(
    stage: PipelineStage<F, N>,
    down_cast: spec_fn(F::DownIn) -> F::DownOut,
    up_cast: spec_fn(F::UpIn) -> F::UpOut,
    data: F::DownIn,
    budget: nat,
)
    requires
        forall|x: F::DownIn| #[trigger] stage.filter.on_down(x) == seq![Signal::<F::DownOut, F::UpOut>::Down(down_cast(x))],
        forall|u: F::UpIn| #[trigger] stage.filter.on_up(u) == seq![Signal::<F::DownOut, F::UpOut>::Up(up_cast(u))],
        budget > 0,
    ensures
        stage.flow(data, budget) == stage.next.flow(down_cast(data), (budget - 1) as nat).map_values(
            up_cast,
        ),
{
    lemma_routed_single(stage, Signal::Down(down_cast(data)), budget);
    lemma_answered_forwarding(
        stage,
        up_cast,
        stage.next.flow(down_cast(data), (budget - 1) as nat),
        (budget - 1) as nat,
    );
}

/// When a filter hands `mid` down and the filter of the stage right below
/// replies with `reply`, that reply enters the up side of the first filter's
/// own stage, and nothing else comes of it.
pub proof fn lemma_reply_reaches_previous_stage<
    F: Filter,
    G: Filter<DownIn = F::DownOut, UpOut = F::UpIn>,
    M: PipelineDown<In = G::DownOut, Out = G::UpIn>,
>(
    stage: PipelineStage<F, PipelineStage<G, M>>,
    data: F::DownIn,
    mid: F::DownOut,
    reply: F::UpIn,
    budget: nat,
)
    requires
        budget > 0,
        stage.filter.on_down(data) == seq![Signal::<F::DownOut, F::UpOut>::Down(mid)],
        stage.next.filter.on_down(mid) == seq![Signal::<G::DownOut, G::UpOut>::Up(reply)],
    ensures
        stage.flow(data, budget) == stage.flow_up(reply, (budget - 1) as nat),
{
    let c = (budget - 1) as nat;
    lemma_routed_single(stage, Signal::Down(mid), budget);
    lemma_routed_single(stage.next, Signal::Up(reply), c);
    assert(seq![reply].drop_first() =~= Seq::<F::UpIn>::empty());
    assert(stage.answered(Seq::empty(), c) == Seq::<F::UpOut>::empty());
    assert(stage.answered(seq![reply], c) =~= stage.routed(stage.filter.on_up(reply), c));
}

/// A value that a filter sends up leaves its stage as it is: it reaches no
/// other handler. For the entry stage it leaves the pipeline.
pub proof fn lemma_up_leaves_stage<F: Filter, N: PipelineDown<In = F::DownOut, Out = F::UpIn>>(
    stage: PipelineStage<F, N>,
    data: F::DownIn,
    reply: F::UpOut,
    budget: nat,
)
    requires
        stage.filter.on_down(data) == seq![Signal::<F::DownOut, F::UpOut>::Up(reply)],
    ensures
        stage.flow(data, budget) == seq![reply],
{
    lemma_routed_single(stage, Signal::Up(reply), budget);
}

/// The stage above the bottom sentinel drops whatever its filter hands down:
/// what leaves it is exactly the filter's `Up` values.
proof fn lemma_terminal_routed<F: Filter>(
    stage: PipelineStage<F, AnyDown<F::DownOut, F::UpIn>>,
    signals: Seq<Signal<F::DownOut, F::UpOut>>,
    budget: nat,
)
    ensures
        stage.routed(signals, budget) == up_values(signals),
    decreases signals.len(),
{
    if signals.len() > 0 {
        lemma_terminal_routed(stage, signals.drop_first(), budget);
        if let Signal::Down(d) = signals[0] {
            if budget > 0 {
                assert(stage.answered(Seq::empty(), (budget - 1) as nat) =~= Seq::empty());
            }
            assert(stage.cascade(d, budget) =~= Seq::empty());
        }
        assert(stage.routed(signals, budget) =~= up_values(signals));
    }
}

/// Values that the terminal filter hands down, in either direction of
/// handling, reach nothing: the sentinel below absorbs them.
pub proof fn lemma_terminal_absorbs<F: Filter>(
    stage: PipelineStage<F, AnyDown<F::DownOut, F::UpIn>>,
    data: F::DownIn,
    reply: F::UpIn,
    budget: nat,
)
    ensures
        stage.flow(data, budget) == up_values(stage.filter.on_down(data)),
        stage.flow_up(reply, budget) == up_values(stage.filter.on_up(reply)),
{
    lemma_terminal_routed(stage, stage.filter.on_down(data), budget);
    lemma_terminal_routed(stage, stage.filter.on_up(reply), budget);
}

/// A filter that hands two values down for one input starts two cascades
/// through the chain below, one after the other, each as if it were alone.
pub proof fn lemma_fan_out<F: Filter, N: PipelineDown<In = F::DownOut, Out = F::UpIn>>(
    stage: PipelineStage<F, N>,
    data: F::DownIn,
    first: F::DownOut,
    second: F::DownOut,
    budget: nat,
)
    requires
        stage.filter.on_down(data) == seq![
            Signal::<F::DownOut, F::UpOut>::Down(first),
            Signal::<F::DownOut, F::UpOut>::Down(second),
        ],
    ensures
        stage.flow(data, budget) == stage.cascade(first, budget) + stage.cascade(second, budget),
{
    let signals = stage.filter.on_down(data);
    assert(signals.drop_first() =~= seq![Signal::<F::DownOut, F::UpOut>::Down(second)]);
    lemma_routed_single(stage, Signal::Down(second), budget);
}

} // verus!
