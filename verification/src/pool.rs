//! The pool handle and the items it hands out.
use crate::factory::Factory;
use crate::idle::Idle;
use crate::link::back_ref;
use crate::link::back_refs;
use crate::link::revive;
use crate::link::BackRef;
use crate::queue::bounded;
use crate::queue::occupied;
use crate::queue::offer;
use crate::queue::poll;
use crate::reset::Resettable;
use crossbeam_queue::ArrayQueue;
use std::ops::Deref;
use std::ops::DerefMut;
use std::sync::Arc;
use vstd::prelude::*;

verus! {

/// The state that all handles of one pool share: the idle objects, the
/// factory that builds new ones, the number of idle objects the pool keeps
/// at most, and a record of the objects it was stocked with when it was
/// made.
///
/// The idle container cannot be made without a place, so a pool that keeps
/// no idle object has a container with one place that nothing is ever put
/// into.
#[verifier::reject_recursive_types(T)]
pub struct PoolData<T: Resettable> {
    items: ArrayQueue<Idle<T>>,
    create: Box<dyn Factory<T>>,
    maximum: usize,
    stocked: Ghost<Seq<T>>,
}

impl<T: Resettable> PoolData<T> {
    /// The factory may be called at any time, and what it builds is in its
    /// baseline state.
    #[verifier::type_invariant]
    spec fn sound(&self) -> bool {
        &&& self.create.ready()
        &&& forall|object: T| self.create.builds(object) ==> object.is_baseline()
    }

    /// The number of idle objects that the pool keeps at most.
    pub closed spec fn limit(&self) -> nat {
        self.maximum as nat
    }
}

/// A handle to a pool of reusable objects.
///
/// A pool keeps up to a fixed number of idle objects. Taking an object never
/// waits: when no idle object is there, `take` builds one with the factory
/// and `try_take` returns `None`. Handles are cheap to clone and share one
/// state; every method may be called from any thread.
#[verifier::reject_recursive_types(T)]
pub struct BundledPool<T: Resettable> {
    data: Arc<PoolData<T>>,
}

/// An object checked out of a pool, with a reference back to the pool that
/// does not keep the pool alive.
///
/// The holder has the object to itself and reaches it by dereferencing the
/// item. `release` resets the object and offers it back to the pool; `detach`
/// keeps the object and cuts the tie. An item that is dropped without either
/// takes its object with it.
#[verifier::reject_recursive_types(T)]
pub struct BundledPoolItem<T: Resettable> {
    data: BackRef<PoolData<T>>,
    object: T,
}

/// The number of idle objects to report when the idle container says that it
/// holds `reported` and the pool keeps at most `limit`.
pub fn idle_within(reported: usize, limit: usize) -> (count: usize)
    ensures
        count == if reported <= limit { reported } else { limit },
{
    if reported <= limit {
        reported
    } else {
        limit
    }
}

impl<T: Resettable> BundledPool<T> {
    /// The number of idle objects that the pool keeps at most.
    pub closed spec fn limit(&self) -> nat {
        self.data.limit()
    }

    /// The objects that were built for the idle container when the pool was
    /// made, in the order in which they were built.
    pub closed spec fn stocked(&self) -> Seq<T> {
        self.data.stocked@
    }

    /// Whether the factory of the pool may build `object` when none is
    /// idle.
    pub closed spec fn builds(&self, object: T) -> bool {
        self.data.create.builds(object)
    }

    /// Creates a pool that keeps at most `maximum_capacity` idle objects and
    /// starts with `initial_capacity` objects built by `create`.
    ///
    /// The pool must have room for the initial objects, and for no more than
    /// `isize::MAX` objects. A pool may have no room at all: it then keeps
    /// no idle object, and every object that is taken from it is a new one.
    pub fn new<F: Fn() -> T + Sync + Send + 'static>(
        initial_capacity: usize,
        maximum_capacity: usize,
        create: F,
    ) -> (pool: Self)
        requires
            initial_capacity <= maximum_capacity,
            maximum_capacity <= isize::MAX,
            call_requires(create, ()),
            forall|object: T| call_ensures(create, (), object) ==> object.is_baseline(),
        ensures
            pool.limit() == maximum_capacity,
            forall|object: T| pool.builds(object) == call_ensures(create, (), object),
            pool.stocked().len() == initial_capacity,
            forall|i: int|
                0 <= i < pool.stocked().len() ==> call_ensures(
                    create,
                    (),
                    #[trigger] pool.stocked()[i],
                ),
    {
        let slots: usize = if maximum_capacity == 0 {
            1
        } else {
            maximum_capacity
        };
        let items: ArrayQueue<Idle<T>> = bounded(slots);
        let mut stocked: Ghost<Seq<T>> = Ghost(Seq::empty());
        let mut built: usize = 0;
        while built < initial_capacity
            invariant
                built <= initial_capacity,
                call_requires(create, ()),
                forall|object: T| call_ensures(create, (), object) ==> object.is_baseline(),
                stocked@.len() == built,
                forall|i: int|
                    0 <= i < stocked@.len() ==> call_ensures(create, (), #[trigger] stocked@[i]),
            decreases initial_capacity - built,
        {
            let object = create();
            proof {
                stocked@ = stocked@.push(object);
            }
            let _ = offer(&items, Idle::fresh(object));
            built = built + 1;
        }
        let create: Box<dyn Factory<T>> = Box::new(create);
        BundledPool {
            data: Arc::new(PoolData { items, create, maximum: maximum_capacity, stocked }),
        }
    }

    /// Creates a pool as `new` does where the capacities allow it. Where
    /// there are more initial objects than room, or more room than
    /// `isize::MAX` objects, it returns `None` before anything is built.
    pub fn try_new<F: Fn() -> T + Sync + Send + 'static>(
        initial_capacity: usize,
        maximum_capacity: usize,
        create: F,
    ) -> (pool: Option<Self>)
        requires
            call_requires(create, ()),
            forall|object: T| call_ensures(create, (), object) ==> object.is_baseline(),
        ensures
            pool is Some <==> initial_capacity <= maximum_capacity <= isize::MAX,
            pool matches Some(made) ==> {
                &&& made.limit() == maximum_capacity
                &&& forall|object: T| made.builds(object) == call_ensures(create, (), object)
                &&& made.stocked().len() == initial_capacity
                &&& forall|i: int|
                    0 <= i < made.stocked().len() ==> call_ensures(
                        create,
                        (),
                        #[trigger] made.stocked()[i],
                    )
            },
    {
        if initial_capacity <= maximum_capacity && maximum_capacity <= isize::MAX as usize {
            Some(Self::new(initial_capacity, maximum_capacity, create))
        } else {
            None
        }
    }

    /// Checks out an object: an idle one if there is any, else a new one
    /// from the factory. Either way the object is in its baseline state.
    #[inline]
    pub fn take(&self) -> (item: BundledPoolItem<T>)
        ensures
            item@.is_baseline(),
    {
        let idle = poll(&self.data.items);
        self.check_out(idle)
    }

    /// Checks out an idle object, or returns `None` when there is none. The
    /// factory is not called.
    #[inline]
    pub fn try_take(&self) -> (item: Option<BundledPoolItem<T>>)
        ensures
            item matches Some(taken) ==> taken@.is_baseline(),
    {
        let idle = poll(&self.data.items);
        self.check_out_idle(idle)
    }

    /// Turns what the idle container gave into a checked-out item: the idle
    /// object itself, or a new object from the factory where the container
    /// had none.
    pub fn check_out(&self, idle: Option<Idle<T>>) -> (item: BundledPoolItem<T>)
        ensures
            idle matches Some(rested) ==> item@ == rested@,
            idle is None ==> self.builds(item@),
            item@.is_baseline(),
    {
        proof {
            use_type_invariant(&*self.data);
        }
        let object = match idle {
            Some(rested) => rested.into_inner(),
            None => self.data.create.build(),
        };
        BundledPoolItem { data: back_ref(&self.data), object }
    }

    /// Turns what the idle container gave into a checked-out item where it
    /// gave an object, and into `None` where it had none.
    pub fn check_out_idle(&self, idle: Option<Idle<T>>) -> (item: Option<BundledPoolItem<T>>)
        ensures
            match idle {
                Some(rested) => item matches Some(taken) && taken@ == rested@
                    && taken@.is_baseline(),
                None => item is None,
            },
    {
        match idle {
            Some(rested) => Some(
                BundledPoolItem { data: back_ref(&self.data), object: rested.into_inner() },
            ),
            None => None,
        }
    }

    /// The number of idle objects, which never exceeds the capacity.
    #[inline]
    pub fn available(&self) -> (count: usize)
        ensures
            count <= self.limit(),
    {
        idle_within(occupied(&self.data.items), self.data.maximum)
    }

    /// The number of items that are checked out and not yet released,
    /// detached or dropped.
    #[inline]
    pub fn used(&self) -> (count: usize) {
        back_refs(&self.data)
    }

    /// The number of idle objects that the pool keeps at most, as fixed at
    /// construction.
    #[inline]
    pub fn capacity(&self) -> (count: usize)
        ensures
            count == self.limit(),
    {
        self.data.maximum
    }
}

impl<T: Resettable> Clone for BundledPool<T> {
    /// Another handle to the same pool. No object is built or moved.
    #[inline]
    fn clone(&self) -> (handle: Self)
        ensures
            handle == *self,
    {
        BundledPool { data: self.data.clone() }
    }
}

impl<T: Resettable> BundledPoolItem<T> {
    /// The object that the item holds.
    pub closed spec fn view(&self) -> T {
        self.object
    }

    /// Whether two items refer back to their pool through the same
    /// reference.
    pub closed spec fn same_back_ref(&self, other: &Self) -> bool {
        self.data == other.data
    }

    /// Moves the item into shared ownership.
    #[inline]
    pub fn into_arc(self) -> (shared: Arc<Self>)
        ensures
            *shared == self,
    {
        Arc::new(self)
    }

    /// Gives up the tie to the pool and returns the object as it is, with
    /// every change made while it was checked out. The object will not come
    /// back to the pool.
    #[inline]
    pub fn detach(self) -> (object: T)
        ensures
            object == self@,
    {
        self.object
    }

    /// Resets the object and offers it back to the pool. The pool keeps it
    /// if the pool still exists and has room; else the object is discarded.
    /// Nothing tells the caller which of the two happened.
    pub fn release(self) {
        let _ = self.try_release();
    }

    /// Resets the object and offers it back to the pool, as `release` does,
    /// but hands the reset object to the caller where the pool is gone or
    /// has no room for it.
    pub fn try_release(self) -> (kept: Result<(), T>)
        ensures
            kept matches Err(object) ==> self@.resets_to(&object) && object.is_baseline(),
    {
        let BundledPoolItem { data, object } = self;
        let rested = Idle::recycle(object);
        Self::hand_back(revive(&data), rested)
    }

    /// Offers a reset object to the shared state that the back-reference of
    /// its item led to, if it led to any.
    ///
    /// The object comes back where the state is gone and where the pool
    /// keeps no idle object; nothing is offered then. Else the idle
    /// container decides, and the object comes back where it has no room.
    pub fn hand_back(home: Option<Arc<PoolData<T>>>, rested: Idle<T>) -> (kept: Result<(), T>)
        ensures
            home is None ==> kept == Err::<(), T>(rested@),
            home matches Some(shared) && shared.limit() == 0 ==> kept == Err::<(), T>(rested@),
            kept matches Err(object) ==> object == rested@ && object.is_baseline(),
    {
        let answer = match home {
            Some(shared) => {
                if shared.maximum == 0 {
                    Err(rested)
                } else {
                    offer(&shared.items, rested)
                }
            },
            None => Err(rested),
        };
        Idle::refused(answer)
    }
}

impl<T: Resettable> AsRef<T> for BundledPoolItem<T> {
    #[inline]
    fn as_ref(&self) -> (object: &T)
        ensures
            *object == self@,
    {
        &self.object
    }
}

impl<T: Resettable> Deref for BundledPoolItem<T> {
    type Target = T;

    #[inline]
    fn deref(&self) -> (object: &T)
        ensures
            *object == self@,
    {
        &self.object
    }
}

impl<T: Resettable> DerefMut for BundledPoolItem<T> {
    #[inline]
    fn deref_mut(&mut self) -> (object: &mut T)
        ensures
            *object == old(self)@,
            final(self)@ == *final(object),
            final(self).same_back_ref(old(self)),
    {
        &mut self.object
    }
}

} // verus!
