use vstd::prelude::*;

use crate::pipeline::{Filter, Signal};

verus! {

/// A terminal filter: replies to every value with the value itself and ignores
/// whatever comes up from below.
pub struct Echo<T>(pub core::marker::PhantomData<T>);

impl<T> Filter for Echo<T> {
    type DownIn = T;
    type DownOut = ();
    type UpIn = ();
    type UpOut = T;

    open spec fn on_down(&self, data: T) -> Seq<Signal<(), T>> {
        seq![Signal::Up(data)]
    }

    open spec fn on_up(&self, data: ()) -> Seq<Signal<(), T>> {
        Seq::empty()
    }

    fn down(&self, data: T) -> (r: Vec<Signal<(), T>>) {
        let r = vec![Signal::Up(data)];
        assert(r@ =~= self.on_down(data));
        r
    }

    fn up(&self, data: ()) -> (r: Vec<Signal<(), T>>) {
        let r = Vec::new();
        assert(r@ =~= self.on_up(data));
        r
    }
}

/// Hands every value down twice and passes replies up unchanged.
pub struct Duplicate<T, U>(pub core::marker::PhantomData<(T, U)>);

impl<T: Copy, U> Filter for Duplicate<T, U> {
    type DownIn = T;
    type DownOut = T;
    type UpIn = U;
    type UpOut = U;

    open spec fn on_down(&self, data: T) -> Seq<Signal<T, U>> {
        seq![Signal::Down(data), Signal::Down(data)]
    }

    open spec fn on_up(&self, data: U) -> Seq<Signal<T, U>> {
        seq![Signal::Up(data)]
    }

    fn down(&self, data: T) -> (r: Vec<Signal<T, U>>) {
        let r = vec![Signal::Down(data), Signal::Down(data)];
        assert(r@ =~= self.on_down(data));
        r
    }

    fn up(&self, data: U) -> (r: Vec<Signal<T, U>>) {
        let r = vec![Signal::Up(data)];
        assert(r@ =~= self.on_up(data));
        r
    }
}

} // verus!
