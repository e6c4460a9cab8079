//! The factory of a pool, held behind a trait object.
use vstd::prelude::*;

verus! {

/// Something that builds objects of type `T` on request, from any thread.
///
/// A pool holds its factory as a trait object of this trait, so that the
/// type of a pool does not depend on the type of its factory. Every function
/// or closure that takes no argument and can be shared between threads is a
/// factory.
pub trait Factory<T>: Sync + Send {
    /// Whether the factory may be called.
    spec fn ready(&self) -> bool;

    /// Whether the factory may return `object`.
    spec fn builds(&self, object: T) -> bool;

    /// Builds an object.
    fn build(&self) -> (object: T)
        requires
            self.ready(),
        ensures
            self.builds(object),
    ;
}

impl<T, F: Fn() -> T + Sync + Send> Factory<T> for F {
    open spec fn ready(&self) -> bool {
        call_requires(*self, ())
    }

    open spec fn builds(&self, object: T) -> bool {
        call_ensures(*self, (), object)
    }

    fn build(&self) -> (object: T) {
        self()
    }
}

} // verus!
