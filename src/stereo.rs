use vstd::prelude::*;

verus! {

/// A pair of two values that stand for one output channel each.
#[derive(Clone, Copy, Debug, Default, PartialEq, Eq, Structural)]
pub struct Stereo<T> {
    /// The value for channel A.
    pub a: T,
    /// The value for channel B.
    pub b: T,
}

impl<T: Copy> Stereo<T> {
    /// Create a value pair where both values are the same.
    pub fn symmetric(v: T) -> (r: Self)
        ensures
            r.a == v,
            r.b == v,
    {
        Self { a: v, b: v }
    }
}

impl<T> From<(T, T)> for Stereo<T> {
    /// The first value for channel A, the second for channel B.
    fn from(p: (T, T)) -> (r: Self) {
        Stereo { a: p.0, b: p.1 }
    }
}

impl<T> vstd::std_specs::convert::FromSpecImpl<(T, T)> for Stereo<T> {
    open spec fn obeys_from_spec() -> bool {
        true
    }

    open spec fn from_spec(p: (T, T)) -> Self {
        Stereo { a: p.0, b: p.1 }
    }
}

} // verus!
