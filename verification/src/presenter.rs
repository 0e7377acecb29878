//! Turning domain values into the shapes a page or an API shows.
use vstd::prelude::*;

verus! {

/// Presents values of type `T` as values of type `O`.
pub trait Presenter<T, O> {
    /// The presentation of one value.
    fn present(&self, entity: &T) -> O;

    /// The presentation of each value, in order.
    fn present_collection(&self, entities: &[T]) -> (r: Vec<O>)
        ensures
            r@.len() == entities@.len(),
            forall|i: int|
                0 <= i < entities@.len() ==> call_ensures(Self::present, (self, &entities@[i]), #[trigger] r@[i]),
    {
        let mut r: Vec<O> = Vec::new();
        let mut i: usize = 0;
        while i < entities.len()
            invariant
                i <= entities@.len(),
                r@.len() == i,
                forall|k: int| 0 <= k < i ==> call_ensures(Self::present, (self, &entities@[k]), #[trigger] r@[k]),
            decreases entities@.len() - i,
        {
            let o = self.present(&entities[i]);
            r.push(o);
            i = i + 1;
        }
        r
    }
}

} // verus!
