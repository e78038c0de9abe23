use vstd::prelude::*;

verus! {

/// Wrapper over the data of a request query that passed validation.
#[derive(Debug, Clone, Copy, Default)]
pub struct Query<T>(pub T);

impl<T> Query<T> {
    /// The wrapped data.
    pub fn into_inner(self) -> (data: T)
        ensures
            data == self.0,
    {
        self.0
    }
}

impl<T> std::ops::Deref for Query<T> {
    type Target = T;

    fn deref(&self) -> (data: &Self::Target)
        ensures
            *data == self.0,
    {
        &self.0
    }
}

impl<T> From<T> for Query<T> {
    fn from(data: T) -> (query: Self) {
        Query(data)
    }
}

impl<T> vstd::std_specs::convert::FromSpecImpl<T> for Query<T> {
    open spec fn obeys_from_spec() -> bool {
        true
    }

    open spec fn from_spec(data: T) -> Self {
        Query(data)
    }
}

} // verus!
