//! The registry: an append-only collection of trial factories, populated
//! before the harness entry point runs.  Registration cannot fail and cannot
//! be undone; the order of factories is their registration order, so repeated
//! materialization from equally built registries is repeatable.

use vstd::prelude::*;

verus! {

/// The process-wide collection of trial factories.  `P` is the type of a
/// plain-test factory (yields exactly one trial when invoked), `Q` of a
/// parameterized-test factory (yields zero or more trials); the registry only
/// stores factories, it never invokes one.
pub struct Registry<P, Q> {
    plain: Vec<P>,
    parameterized: Vec<Q>,
}

impl<P, Q> Registry<P, Q> {
    /// The plain-test factories, in registration order.
    pub closed spec fn plain_factories(&self) -> Seq<P> {
        self.plain@
    }

    /// The parameterized-test factories, in registration order.
    pub closed spec fn parameterized_factories(&self) -> Seq<Q> {
        self.parameterized@
    }

    /// An empty registry.
    pub fn new() -> (r: Self)
        ensures
            r.plain_factories() == Seq::<P>::empty(),
            r.parameterized_factories() == Seq::<Q>::empty(),
    {
        Registry { plain: Vec::new(), parameterized: Vec::new() }
    }

    /// Registers the factory of a plain test: appended after every factory
    /// registered so far, touching no other entry.
    pub fn register(&mut self, factory: P)
        ensures
            final (self).plain_factories() == old(self).plain_factories().push(factory),
            final (self).parameterized_factories() == old(self).parameterized_factories(),
    {
        self.plain.push(factory);
    }

    /// Registers the factory of a parameterized test.
    pub fn register_parameterized(&mut self, factory: Q)
        ensures
            final (self).parameterized_factories() == old(self).parameterized_factories().push(
                factory,
            ),
            final (self).plain_factories() == old(self).plain_factories(),
    {
        self.parameterized.push(factory);
    }

    /// Hands the factories out for materialization, plain ones first, each
    /// list in registration order.
    pub fn take_factories(self) -> (r: (Vec<P>, Vec<Q>))
        ensures
            r.0@ == self.plain_factories(),
            r.1@ == self.parameterized_factories(),
    {
        let Registry { plain, parameterized } = self;
        (plain, parameterized)
    }
}

} // verus!
