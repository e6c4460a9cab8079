//! Restoring pooled objects to a reusable state.
use vstd::prelude::*;

verus! {

/// A type whose values can be brought back to a reusable baseline state.
///
/// An implementation describes its reset with two predicates. `is_baseline`
/// says which states count as ready for reuse: the state a freshly built
/// object is in and the state `reset` leaves behind. `resets_to` relates the
/// state before a reset to the state after it, so that an implementation can
/// say what a reset keeps and what it clears. Both default to `true`, which
/// claims nothing.
pub trait Resettable {
    /// Whether this value is ready to be handed out again.
    open spec fn is_baseline(&self) -> bool {
        true
    }

    /// Whether a reset of this value may leave `after` behind.
    open spec fn resets_to(&self, after: &Self) -> bool {
        true
    }

    /// Restores the value to its baseline state.
    fn reset(&mut self)
        ensures
            old(self).resets_to(final(self)),
            final(self).is_baseline(),
    ;
}

/// An optional part is reset when it is present; an absent part stays absent.
impl<T: Resettable> Resettable for Option<T> {
    open spec fn is_baseline(&self) -> bool {
        match self {
            Some(part) => part.is_baseline(),
            None => true,
        }
    }

    open spec fn resets_to(&self, after: &Self) -> bool {
        match (self, after) {
            (Some(part), Some(clean)) => part.resets_to(clean),
            (None, None) => true,
            _ => false,
        }
    }

    fn reset(&mut self) {
        if let Some(part) = self {
            part.reset();
        }
    }
}

/// A pair is reset part by part.
impl<T1: Resettable, T2: Resettable> Resettable for (T1, T2) {
    open spec fn is_baseline(&self) -> bool {
        self.0.is_baseline() && self.1.is_baseline()
    }

    open spec fn resets_to(&self, after: &Self) -> bool {
        self.0.resets_to(&after.0) && self.1.resets_to(&after.1)
    }

    fn reset(&mut self) {
        self.0.reset();
        self.1.reset();
    }
}

} // verus!
