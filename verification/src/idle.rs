//! Objects at rest.
use crate::reset::Resettable;
use vstd::prelude::*;

verus! {

/// An object that is ready to be handed out: one in its baseline state.
///
/// Every object in a pool's idle container is wrapped in this type, so that
/// whatever the container gives back is known to be ready for reuse.
pub struct Idle<T: Resettable> {
    object: T,
}

impl<T: Resettable> Idle<T> {
    /// The object is in its baseline state for as long as it is wrapped.
    #[verifier::type_invariant]
    spec fn rested(&self) -> bool {
        self.object.is_baseline()
    }

    /// The object at rest.
    pub closed spec fn view(&self) -> T {
        self.object
    }

    /// Wraps an object that is in its baseline state already, such as one
    /// that was just built.
    pub fn fresh(object: T) -> (idle: Self)
        requires
            object.is_baseline(),
        ensures
            idle@ == object,
    {
        Idle { object }
    }

    /// Resets a used object and wraps what the reset leaves behind.
    pub fn recycle(object: T) -> (idle: Self)
        ensures
            object.resets_to(&idle@),
            idle@.is_baseline(),
    {
        let mut object = object;
        object.reset();
        Idle { object }
    }

    /// Turns the answer to an offer into what the one who offered gets back:
    /// nothing where the object was kept, the object itself where it was
    /// refused.
    pub fn refused(answer: Result<(), Self>) -> (kept: Result<(), T>)
        ensures
            match answer {
                Ok(()) => kept is Ok,
                Err(back) => kept == Err::<(), T>(back@) && back@.is_baseline(),
            },
    {
        match answer {
            Ok(()) => Ok(()),
            Err(back) => Err(back.into_inner()),
        }
    }

    /// Unwraps the object, which is in its baseline state.
    pub fn into_inner(self) -> (object: T)
        ensures
            object == self@,
            object.is_baseline(),
    {
        proof {
            use_type_invariant(&self);
        }
        self.object
    }
}

} // verus!
