//! A builder for work that runs elsewhere: it pairs a piece of work with what
//! is to be made of its result, either of which may still be missing.

use vstd::prelude::*;

verus! {

/// A piece of work and the mapping of its result, as far as they are set.
pub struct TaskBuider<C, M> {
    closure: Option<C>,
    mapping: Option<M>,
}

impl Default for TaskBuider<(), ()> {
    /// A builder with nothing set.
    fn default() -> (builder: Self)
        ensures
            builder.closure() is None,
            builder.mapping() is None,
    {
        Self { closure: None, mapping: None }
    }
}

impl<C, M> TaskBuider<C, M> {
    /// The work, if it is set.
    pub closed spec fn closure(&self) -> Option<C> {
        self.closure
    }

    /// The mapping, if it is set.
    pub closed spec fn mapping(&self) -> Option<M> {
        self.mapping
    }

    /// Sets the work, in place of any that was set; the mapping stays.
    pub fn set_closure<S>(self, closure: S) -> (builder: TaskBuider<S, M>)
        ensures
            builder.closure() == Some(closure),
            builder.mapping() == self.mapping(),
    {
        self.set_closure_option(Some(closure))
    }

    /// Sets the work, or unsets it; the mapping stays.
    pub fn set_closure_option<S>(self, closure: Option<S>) -> (builder: TaskBuider<S, M>)
        ensures
            builder.closure() == closure,
            builder.mapping() == self.mapping(),
    {
        TaskBuider { closure, mapping: self.mapping }
    }

    /// Sets the mapping, in place of any that was set; the work stays.
    pub fn set_mapping<S, A, T>(self, mapping: S) -> (builder: TaskBuider<C, S>) where
        S: Fn(A) -> T,

        ensures
            builder.closure() == self.closure(),
            builder.mapping() == Some(mapping),
    {
        TaskBuider { closure: self.closure, mapping: Some(mapping) }
    }

    /// A builder of the given work and mapping.
    pub fn from_parts(closure: Option<C>, mapping: Option<M>) -> (builder: Self)
        ensures
            builder.closure() == closure,
            builder.mapping() == mapping,
    {
        TaskBuider { closure, mapping }
    }

    /// Hands out the work and the mapping.
    pub fn into_parts(self) -> (parts: (Option<C>, Option<M>))
        ensures
            parts.0 == self.closure(),
            parts.1 == self.mapping(),
    {
        (self.closure, self.mapping)
    }
}

} // verus!
