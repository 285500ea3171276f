use vstd::prelude::*;

verus! {

/// An untagged "one value or the other" document shape.
#[derive(Debug)]
pub enum Or<T, U> {
    First(T),
    Second(U),
}

/// A single value or a list of values of the same type.
pub type OrVec<T> = Or<T, Vec<T>>;

impl<T> Or<T, Vec<T>> {
    /// Normalize to a sequence: a single value becomes a singleton list.
    pub fn into_vec(self) -> (r: Vec<T>)
        ensures
            self matches Or::First(t) ==> r@ == seq![t],
            self matches Or::Second(v) ==> r@ == v@,
    {
        match self {
            Or::First(t) => {
                let mut v: Vec<T> = Vec::new();
                v.push(t);
                v
            },
            Or::Second(v) => v,
        }
    }
}

} // verus!
