//! The `Filter` capability: a stateful single-sample transform with an
//! explicit input/output type pair, and the chain combinator that
//! composes two filters into one.
//!
//! Every filter names the inputs it accepts (`in_ok`) and the outputs it
//! can produce (`out_ok`); a chain is well formed when every output of
//! its first stage is an acceptable input of its second.
use vstd::prelude::*;

verus! {

pub trait Filter: Sized {
    type In;

    type Out;

    /// The invariant the filter keeps between samples.
    spec fn inv(&self) -> bool;

    /// The inputs this filter accepts.
    spec fn in_ok(x: Self::In) -> bool;

    /// The outputs this filter can produce.
    spec fn out_ok(y: Self::Out) -> bool;

    /// The functional model of one sample: what this filter, in its
    /// current state, returns for the input `x`.
    spec fn model_out(&self, x: Self::In) -> Self::Out;

    /// The transition relation of one sample: how the state after the
    /// sample relates to the state before it.
    spec fn models(&self, x: Self::In, next: &Self) -> bool;

    /// Transform one sample, updating the internal state.
    fn filter(&mut self, x: Self::In) -> (r: Self::Out)
        requires
            old(self).inv(),
            Self::in_ok(x),
        ensures
            final(self).inv(),
            Self::out_ok(r),
            r == old(self).model_out(x),
            old(self).models(x, final(self)),
    ;
}

/// Compose two filters into a chain; the canonical `chain` body.
pub fn chain_filters<F1: Filter, F2: Filter<In = F1::Out>>(f1: F1, f2: F2) -> (r: ChainFilter<
    F1,
    F2,
>)
    ensures
        r.first() == f1,
        r.second() == f2,
{
    ChainFilter { f1, f2 }
}

/// A value that can be pushed through any filter accepting its type.
pub trait Filterable: Sized {
    fn apply<F: Filter<In = Self>>(self, filter: &mut F) -> (r: F::Out)
        requires
            old(filter).inv(),
            F::in_ok(self),
        ensures
            final(filter).inv(),
            F::out_ok(r),
            r == old(filter).model_out(self),
            old(filter).models(self, final(filter)),
    {
        filter.filter(self)
    }
}

impl Filterable for u16 {

}

impl Filterable for i64 {

}

/// Two filters in sequence, itself a filter: the output type of the
/// first stage is the input type of the second.
pub struct ChainFilter<F1: Filter, F2: Filter<In = F1::Out>> {
    f1: F1,
    f2: F2,
}

impl<F1: Filter, F2: Filter<In = F1::Out>> ChainFilter<F1, F2> {
    pub closed spec fn first(&self) -> F1 {
        self.f1
    }

    pub closed spec fn second(&self) -> F2 {
        self.f2
    }
}

impl<F1: Filter, F2: Filter<In = F1::Out>> Filter for ChainFilter<F1, F2> {
    type In = F1::In;

    type Out = F2::Out;

    open spec fn inv(&self) -> bool {
        &&& self.first().inv()
        &&& self.second().inv()
        &&& forall|m: F1::Out| #[trigger] F1::out_ok(m) ==> F2::in_ok(m)
    }

    open spec fn in_ok(x: F1::In) -> bool {
        F1::in_ok(x)
    }

    open spec fn out_ok(y: F2::Out) -> bool {
        F2::out_ok(y)
    }

    /// Left-to-right composition: the second stage's output for the
    /// first stage's output.
    open spec fn model_out(&self, x: F1::In) -> F2::Out {
        self.second().model_out(self.first().model_out(x))
    }

    open spec fn models(&self, x: F1::In, next: &Self) -> bool {
        &&& self.first().models(x, &next.first())
        &&& self.second().models(self.first().model_out(x), &next.second())
    }

    fn filter(&mut self, x: F1::In) -> (r: F2::Out)
        ensures
            final(self).first().inv(),
            final(self).second().inv(),
    {
        let m = self.f1.filter(x);
        self.f2.filter(m)
    }
}

} // verus!
