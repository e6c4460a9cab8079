//! A bounded, thread-safe pool of reusable objects.
//!
//! A [`BundledPool`] keeps up to a fixed number of idle objects in a
//! lock-free queue. Checking an object out never waits: `take` builds a new
//! object when none is idle, `try_take` returns `None`. What is checked out
//! is a [`BundledPoolItem`], which gives exclusive access to the object and
//! refers back to the pool without keeping it alive. Releasing an item
//! resets its object (see [`Resettable`]) and offers it back to the pool;
//! the pool keeps it if it still exists and has room. Detaching an item
//! keeps the object and cuts the tie to the pool.
//!
//! The idle objects and the counts of a pool are shared between threads and
//! change under every caller. The contracts therefore speak of what stays
//! fixed (the capacity, the factory), of what holds of every outcome (an
//! object that is handed out is in its baseline state; the idle count never
//! exceeds the capacity), and, exactly, of what each function does with an
//! answer of the shared state once it has it.
mod factory;
pub mod idle;
mod link;
pub mod pool;
mod queue;
pub mod reset;

pub use idle::Idle;
pub use pool::idle_within;
pub use pool::BundledPool;
pub use pool::BundledPoolItem;
pub use reset::Resettable;
