//! A bidirectional pipeline of typed filters.
//!
//! A pipeline is a chain of stages, each owning one filter and the rest of the
//! chain below it. Values flow down from the entry stage towards the terminal
//! one, and replies flow back up. A filter does not call its neighbours: for
//! each value it hands it returns the signals it wants sent, in order, and its
//! stage carries them out. A `Down` signal runs a full cascade through the chain
//! below before the next signal is looked at; every reply that comes back up
//! from that cascade re-enters the filter's up side. So the way up from a stage
//! is the way its call came in, and no stage needs a reference to the one above.
//!
//! Adjacent filters must agree on their types: the down output of a filter is
//! the down input of the one below, and the up input of a filter is the up
//! output of the one below. `PipelineBuilder` holds the filters in a nested
//! type, so a chain that breaks this does not type-check.
//!
//! Forwarding is bounded. A pipeline has a budget: each hand-over from a stage
//! to the one below costs one unit, and a value that would be handed over with
//! nothing left is dropped. This keeps filters that keep pushing values back
//! down (in reply to their own replies) from running for ever.
//!
//! Below the terminal filter sits a sentinel that absorbs whatever reaches it.
//! Above the entry there is no stage: what the entry filter sends up is handed
//! back to the caller of `Pipeline::down`.
//!
//! Stages hold no mutable state, so a pipeline can be shared freely.

use vstd::prelude::*;

verus! {

/// A request that a filter makes while handling one value: hand a value to
/// the stage below (`Down`) or to the stage above (`Up`).
pub enum Signal<D, U> {
    Down(D),
    Up(U),
}

/// The `Up` values among `signals`, in order.
pub open spec fn up_values<D, U>(signals: Seq<Signal<D, U>>) -> Seq<U>
    decreases signals.len(),
{
    if signals.len() == 0 {
        Seq::empty()
    } else {
        let rest = up_values(signals.drop_first());
        match signals[0] {
            Signal::Up(v) => seq![v] + rest,
            Signal::Down(_) => rest,
        }
    }
}

/// A transformation unit of a pipeline.
///
/// A filter may answer a value with any number of signals: one for a plain
/// transcoder, none to swallow it, several to fan out.
pub trait Filter {
    /// What the filter receives from the stage above.
    type DownIn;

    /// What the filter hands to the stage below.
    type DownOut;

    /// What the filter receives from the stage below.
    type UpIn;

    /// What the filter hands to the stage above.
    type UpOut;

    /// The signals that the filter sends, in order, for a value from above.
    spec fn on_down(&self, data: Self::DownIn) -> Seq<Signal<Self::DownOut, Self::UpOut>>;

    /// The signals that the filter sends, in order, for a value from below.
    spec fn on_up(&self, data: Self::UpIn) -> Seq<Signal<Self::DownOut, Self::UpOut>>;

    fn down(&self, data: Self::DownIn) -> (r: Vec<Signal<Self::DownOut, Self::UpOut>>)
        ensures
            r@ == self.on_down(data),
    ;

    fn up(&self, data: Self::UpIn) -> (r: Vec<Signal<Self::DownOut, Self::UpOut>>)
        ensures
            r@ == self.on_up(data),
    ;
}

/// The down-flowing side of a chain: whatever a stage hands values down to.
///
/// `flow(data, budget)` is the sequence of values that the chain hands up to
/// whatever is above it, in order, when `data` comes in from above. `budget`
/// bounds how deep a value may travel: each hand-over from one stage to the
/// next costs one unit, and a value that would be handed over with nothing left
/// is dropped.
pub trait PipelineDown {
    type In;
    type Out;

    spec fn flow(&self, data: Self::In, budget: nat) -> Seq<Self::Out>;

    fn down(&self, data: Self::In, budget: u64) -> (r: Vec<Self::Out>)
        ensures
            r@ == self.flow(data, budget as nat),
    ;
}

/// The up-flowing side of a stage: re-enters the stage's filter with a value
/// that came up from below.
///
/// `flow_up(data, budget)` is the sequence of values that the stage then hands
/// up to whatever is above it.
pub trait PipelineUp {
    type UpIn;
    type UpOut;

    spec fn flow_up(&self, data: Self::UpIn, budget: nat) -> Seq<Self::UpOut>;

    fn up(&self, data: Self::UpIn, budget: u64) -> (r: Vec<Self::UpOut>)
        ensures
            r@ == self.flow_up(data, budget as nat),
    ;
}

/// The sentinel past the innermost stage: it absorbs every value.
pub struct AnyDown<D, U> {
    pub absorbs: core::marker::PhantomData<(D, U)>,
}

impl<D, U> PipelineDown for AnyDown<D, U> {
    type In = D;
    type Out = U;

    open spec fn flow(&self, data: D, budget: nat) -> Seq<U> {
        Seq::empty()
    }

    fn down(&self, data: D, budget: u64) -> (r: Vec<U>) {
        Vec::new()
    }
}

/// One link of a built chain: a filter and the chain below it.
pub struct PipelineStage<F, N> {
    pub filter: F,
    pub next: N,
}

impl<F: Filter, N: PipelineDown<In = F::DownOut, Out = F::UpIn>> PipelineStage<F, N> {
    /// What the stage hands up when its filter asks for `signals`, in order:
    /// an `Up` value goes up as it is; a `Down` value starts a cascade below.
    pub open spec fn routed(&self, signals: Seq<Signal<F::DownOut, F::UpOut>>, budget: nat) -> Seq<
        F::UpOut,
    >
        decreases budget, 0nat, signals.len(),
    {
        if signals.len() == 0 {
            Seq::empty()
        } else {
            let first = match signals[0] {
                Signal::Up(v) => seq![v],
                Signal::Down(d) => self.cascade(d, budget),
            };
            first + self.routed(signals.drop_first(), budget)
        }
    }

    /// What the stage hands up after handing `data` to the chain below: the
    /// chain's replies, each re-entering this stage's filter in turn. With no
    /// budget left, `data` is dropped.
    pub open spec fn cascade(&self, data: F::DownOut, budget: nat) -> Seq<F::UpOut>
        decreases budget, 0nat, 0nat,
    {
        if budget == 0 {
            Seq::empty()
        } else {
            self.answered(self.next.flow(data, (budget - 1) as nat), (budget - 1) as nat)
        }
    }

    /// What the stage hands up when `replies` come up from the chain below,
    /// each re-entering the filter in turn.
    pub open spec fn answered(&self, replies: Seq<F::UpIn>, budget: nat) -> Seq<F::UpOut>
        decreases budget, 1nat, replies.len(),
    {
        if replies.len() == 0 {
            Seq::empty()
        } else {
            self.routed(self.filter.on_up(replies[0]), budget) + self.answered(
                replies.drop_first(),
                budget,
            )
        }
    }
}

impl<F: Filter, N: PipelineDown<In = F::DownOut, Out = F::UpIn>> PipelineStage<F, N> {
    /// Carries out the filter's `signals` in order.
    fn route(&self, signals: Vec<Signal<F::DownOut, F::UpOut>>, budget: u64) -> (r: Vec<F::UpOut>)
        ensures
            r@ == self.routed(signals@, budget as nat),
        decreases budget, 2nat,
    {
        let ghost all = signals@;
        let mut signals = signals;
        let mut out: Vec<F::UpOut> = Vec::new();
        while signals.len() > 0
            invariant
                out@ + self.routed(signals@, budget as nat) == self.routed(all, budget as nat),
            decreases signals.len(),
        {
            let ghost before = signals@;
            let signal = signals.remove(0);
            assert(signals@ =~= before.drop_first());
            match signal {
                Signal::Up(v) => {
                    out.push(v);
                },
                Signal::Down(d) => {
                    let mut more = self.hand_down(d, budget);
                    out.append(&mut more);
                },
            }
            assert(out@ + self.routed(signals@, budget as nat) =~= self.routed(all, budget as nat));
        }
        assert(out@ =~= self.routed(all, budget as nat));
        out
    }

    /// Hands `data` to the chain below, then each reply to this stage's up side.
    fn hand_down(&self, data: F::DownOut, budget: u64) -> (r: Vec<F::UpOut>)
        ensures
            r@ == self.cascade(data, budget as nat),
        decreases budget, 1nat,
    {
        if budget == 0 {
            Vec::new()
        } else {
            let replies = self.next.down(data, budget - 1);
            self.answer(replies, budget - 1)
        }
    }

    /// Hands each of `replies` to the stage's up side in turn.
    fn answer(&self, replies: Vec<F::UpIn>, budget: u64) -> (r: Vec<F::UpOut>)
        ensures
            r@ == self.answered(replies@, budget as nat),
        decreases budget, 4nat,
    {
        let ghost all = replies@;
        let mut replies = replies;
        let mut out: Vec<F::UpOut> = Vec::new();
        while replies.len() > 0
            invariant
                out@ + self.answered(replies@, budget as nat) == self.answered(all, budget as nat),
            decreases replies.len(),
        {
            let ghost before = replies@;
            let reply = replies.remove(0);
            assert(replies@ =~= before.drop_first());
            let mut more = self.up(reply, budget);
            out.append(&mut more);
            assert(out@ + self.answered(replies@, budget as nat) =~= self.answered(all, budget as nat));
        }
        assert(out@ =~= self.answered(all, budget as nat));
        out
    }
}

impl<F: Filter, N: PipelineDown<In = F::DownOut, Out = F::UpIn>> PipelineDown for PipelineStage<F, N> {
    type In = F::DownIn;
    type Out = F::UpOut;

    open spec fn flow(&self, data: F::DownIn, budget: nat) -> Seq<F::UpOut> {
        self.routed(self.filter.on_down(data), budget)
    }

    fn down(&self, data: F::DownIn, budget: u64) -> (r: Vec<F::UpOut>) {
        let signals = self.filter.down(data);
        self.route(signals, budget)
    }
}

impl<F: Filter, N: PipelineDown<In = F::DownOut, Out = F::UpIn>> PipelineUp for PipelineStage<F, N> {
    type UpIn = F::UpIn;
    type UpOut = F::UpOut;

    open spec fn flow_up(&self, data: F::UpIn, budget: nat) -> Seq<F::UpOut> {
        self.routed(self.filter.on_up(data), budget)
    }

    fn up(&self, data: F::UpIn, budget: u64) -> (r: Vec<F::UpOut>)
        decreases budget, 3nat,
    {
        let signals = self.filter.up(data);
        self.route(signals, budget)
    }
}

/// The forwarding budget that `PipelineBuilder::build` gives a pipeline.
pub const DEFAULT_BUDGET: u64 = 1024;

/// An assembled chain, entry stage first; the only object that a caller
/// of the pipeline holds.
pub struct Pipeline<S> {
    entry: S,
    budget: u64,
}

impl<S: PipelineDown> Pipeline<S> {
    /// The entry stage, which owns every other stage.
    pub closed spec fn entry(&self) -> S {
        self.entry
    }

    /// How deep a value may travel while the pipeline handles one input.
    pub closed spec fn budget(&self) -> nat {
        self.budget as nat
    }

    /// Sends `data` into the entry stage. The result holds the values that the
    /// entry stage handed up, in order: nothing inside the pipeline receives
    /// them.
    pub fn down(&self, data: S::In) -> (r: Vec<S::Out>)
        ensures
            r@ == self.entry().flow(data, self.budget()),
    {
        self.entry.down(data, self.budget)
    }
}

/// The end of a builder's list: stands for the sentinel below the terminal
/// filter.
pub struct PipelineTerm<D, U> {
    pub absorbs: core::marker::PhantomData<(D, U)>,
}

/// A filter list that can be materialized into a chain of stages.
pub trait BuildStage {
    type Stage: PipelineDown;

    /// `stage` holds this list's filters, in the same order.
    spec fn builds(&self, stage: Self::Stage) -> bool;

    fn build_stage(self) -> (r: Self::Stage)
        ensures
            self.builds(r),
    ;
}

impl<D, U> BuildStage for PipelineTerm<D, U> {
    type Stage = AnyDown<D, U>;

    open spec fn builds(&self, stage: AnyDown<D, U>) -> bool {
        true
    }

    fn build_stage(self) -> (r: AnyDown<D, U>) {
        AnyDown { absorbs: core::marker::PhantomData }
    }
}

/// Assembles a pipeline from the terminal filter towards the entry: `filter`
/// is the entry-most filter so far and `next` the filters below it.
pub struct PipelineBuilder<F, N> {
    filter: F,
    next: N,
}

impl<F, N> PipelineBuilder<F, N> {
    /// The entry-most filter so far.
    pub closed spec fn head(&self) -> F {
        self.filter
    }

    /// The filters below the entry-most one.
    pub closed spec fn rest(&self) -> N {
        self.next
    }
}

impl<F: Filter> PipelineBuilder<F, PipelineTerm<F::DownOut, F::UpIn>> {
    /// Starts a pipeline with its terminal filter.
    pub fn new(filter: F) -> (r: Self)
        ensures
            r.head() == filter,
    {
        PipelineBuilder { filter, next: PipelineTerm { absorbs: core::marker::PhantomData } }
    }
}

impl<F: Filter, N> PipelineBuilder<F, N> {
    /// Puts `filter` above the filters so far; it becomes the entry. Its down
    /// output and up input must be the current entry's down input and up output.
    pub fn filter<G: Filter<DownOut = F::DownIn, UpIn = F::UpOut>>(self, filter: G) -> (r:
        PipelineBuilder<G, Self>)
        ensures
            r.head() == filter,
            r.rest() == self,
    {
        PipelineBuilder { filter, next: self }
    }
}

impl<F: Filter, N: BuildStage> BuildStage for PipelineBuilder<F, N> where
    N::Stage: PipelineDown<In = F::DownOut, Out = F::UpIn>,
 {
    type Stage = PipelineStage<F, N::Stage>;

    open spec fn builds(&self, stage: PipelineStage<F, N::Stage>) -> bool {
        stage.filter == self.head() && self.rest().builds(stage.next)
    }

    fn build_stage(self) -> (r: PipelineStage<F, N::Stage>) {
        let PipelineBuilder { filter, next } = self;
        PipelineStage { filter, next: next.build_stage() }
    }
}

impl<F: Filter, N: BuildStage> PipelineBuilder<F, N> where
    N::Stage: PipelineDown<In = F::DownOut, Out = F::UpIn>,
 {
    /// Materializes the chain, entry stage first, with the default budget.
    pub fn build(self) -> (r: Pipeline<PipelineStage<F, N::Stage>>)
        ensures
            self.builds(r.entry()),
            r.budget() == DEFAULT_BUDGET,
    {
        self.build_with_budget(DEFAULT_BUDGET)
    }

    /// Materializes the chain, entry stage first, with the given budget.
    pub fn build_with_budget(self, budget: u64) -> (r: Pipeline<PipelineStage<F, N::Stage>>)
        ensures
            self.builds(r.entry()),
            r.budget() == budget,
    {
        Pipeline { entry: self.build_stage(), budget }
    }
}

} // verus!
