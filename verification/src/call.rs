//! The calls of user callbacks that an event asks for.

use vstd::prelude::*;

verus! {

/// One call of a user's callback.
#[derive(Debug, PartialEq)]
pub struct Call<C, T> {
    pub callback: C,
    pub argument: T,
}

/// Each of `callbacks` once, in order, with `argument`.
pub open spec fn calls_all<C: Clone, T: DeepView>(
    calls: Seq<Call<C, T>>,
    callbacks: Seq<C>,
    argument: T::V,
) -> bool {
    &&& calls.len() == callbacks.len()
    &&& forall|i: int|
        #![trigger calls[i]]
        0 <= i < calls.len() ==> cloned(callbacks[i], calls[i].callback)
            && calls[i].argument.deep_view() == argument
}

/// A call of each callback with a copy of `argument` of its own.
pub(crate) fn fan_out<C: Clone, T: Clone>(callbacks: &Vec<C>, argument: &T) -> (calls: Vec<
    Call<C, T>,
>)
    ensures
        calls@.len() == callbacks@.len(),
        forall|i: int|
            #![trigger calls@[i]]
            0 <= i < calls@.len() ==> cloned(callbacks@[i], calls@[i].callback) && cloned(
                *argument,
                calls@[i].argument,
            ),
{
    let mut calls: Vec<Call<C, T>> = Vec::new();
    for i in 0..callbacks.len()
        invariant
            calls@.len() == i,
            forall|j: int|
                #![trigger calls@[j]]
                0 <= j < i ==> cloned(callbacks@[j], calls@[j].callback) && cloned(
                    *argument,
                    calls@[j].argument,
                ),
    {
        calls.push(Call { callback: callbacks[i].clone(), argument: argument.clone() });
    }
    calls
}

} // verus!
