//! Frame data for Street Fighter 6, scraped from the SuperCombo wiki:
//! a fixed roster of characters, per-character page parsing into move
//! records, and a queryable in-memory catalog.

use vstd::prelude::*;

pub mod character;
pub mod dom;
pub mod framedata;
pub mod parser;
pub mod pattern;

verus! {

/// A deferred computation: holds an initializer until it is forced.
pub struct LazyLock<T, F> {
    init: F,
    marker: core::marker::PhantomData<T>,
}

impl<T, F: FnOnce() -> T> LazyLock<T, F> {
    /// The initializer this lazy value was created with.
    pub closed spec fn spec_init(&self) -> F {
        self.init
    }

    /// Creates a lazy value that will run `f` when forced.
    pub fn new(f: F) -> (r: LazyLock<T, F>)
        ensures
            r.spec_init() == f,
    {
        LazyLock { init: f, marker: core::marker::PhantomData }
    }

    /// Runs the initializer and returns what it computed.
    pub fn force(self) -> (r: T)
        requires
            call_requires(self.spec_init(), ()),
        ensures
            call_ensures(self.spec_init(), (), r),
    {
        (self.init)()
    }
}

} // verus!
