use vstd::prelude::*;

verus! {

/// A three-way result: a value, nothing (but fine), or an error.
#[derive(Clone, Copy, Debug)]
pub enum Trio<T, E> {
    /// Some value `T`
    Value(T),
    /// No value but ok
    Empty,
    /// error
    Error(E),
}

impl<T, E> Trio<T, E> {
    /// The value held by `Value`, if this is one.
    pub open spec fn spec_ok(self) -> Option<T> {
        match self {
            Trio::Value(t) => Some(t),
            _ => None,
        }
    }

    /// Keeps the value of `Value` and forgets the other two cases.
    pub fn ok(self) -> (res: Option<T>)
        ensures
            res == self.spec_ok(),
            res is Some <==> self is Value,
    {
        match self {
            Trio::Value(t) => Some(t),
            _ => None,
        }
    }
}

} // verus!
