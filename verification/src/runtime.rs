use vstd::prelude::*;

verus! {

/// What the runtime that hosts the pallet provides: the currency from which
/// the price of each kitty is reserved, the current block, and randomness.
/// Nothing is assumed of what its methods return.
pub trait Trait {
    /// Reserves `value` from the free balance of `who`; whether it could.
    fn reserve(&mut self, who: u64, value: u64) -> bool;

    /// Releases up to `value` of the reserved balance of `who`.
    fn unreserve(&mut self, who: u64, value: u64);

    /// The current block number.
    fn block_number(&self) -> u64;

    /// The random seed of the current block.
    fn random_seed(&self) -> [u8; 32];

    /// The index of the extrinsic being applied, if any.
    fn extrinsic_index(&self) -> Option<u32>;
}

/// One request the pallet made of its runtime, with the runtime's answer.
pub enum RuntimeCall {
    /// `(who, value, reserved)`: `reserve(who, value)` answered `reserved`.
    Reserve(u64, u64, bool),
    /// `(who, value)`: `unreserve(who, value)`.
    Unreserve(u64, u64),
    /// `block_number()` answered this.
    BlockNumber(u64),
    /// `random_seed()` answered this.
    RandomSeed([u8; 32]),
    /// `extrinsic_index()` answered this.
    ExtrinsicIndex(Option<u32>),
}

/// The pallet's handle on its runtime: every request goes through it, and it
/// records each one, with its answer, in [`Runtime::calls`].
pub struct Runtime<T: Trait> {
    host: T,
    calls: Ghost<Seq<RuntimeCall>>,
}

impl<T: Trait> Runtime<T> {
    /// The requests made through this handle so far, oldest first.
    pub closed spec fn calls(&self) -> Seq<RuntimeCall> {
        self.calls@
    }

    /// A handle on `host` through which nothing was requested yet.
    pub fn new(host: T) -> (r: Runtime<T>)
        ensures
            r.calls() == Seq::<RuntimeCall>::empty(),
    {
        Runtime { host, calls: Ghost(Seq::empty()) }
    }

    /// The runtime, to read.
    pub fn host(&self) -> &T {
        &self.host
    }

    /// Gives the runtime back.
    pub fn into_host(self) -> T {
        self.host
    }

    /// Asks the runtime to reserve `value` from `who`.
    pub fn reserve(&mut self, who: u64, value: u64) -> (reserved: bool)
        ensures
            final(self).calls() == old(self).calls().push(RuntimeCall::Reserve(who, value, reserved)),
    {
        let reserved = self.host.reserve(who, value);
        self.calls = Ghost(self.calls@.push(RuntimeCall::Reserve(who, value, reserved)));
        reserved
    }

    /// Asks the runtime to release `value` to `who`.
    pub fn unreserve(&mut self, who: u64, value: u64)
        ensures
            final(self).calls() == old(self).calls().push(RuntimeCall::Unreserve(who, value)),
    {
        self.host.unreserve(who, value);
        self.calls = Ghost(self.calls@.push(RuntimeCall::Unreserve(who, value)));
    }

    /// Asks the runtime for the block number.
    pub fn block_number(&mut self) -> (now: u64)
        ensures
            final(self).calls() == old(self).calls().push(RuntimeCall::BlockNumber(now)),
    {
        let now = self.host.block_number();
        self.calls = Ghost(self.calls@.push(RuntimeCall::BlockNumber(now)));
        now
    }

    /// Asks the runtime for the random seed.
    pub fn random_seed(&mut self) -> (seed: [u8; 32])
        ensures
            final(self).calls() == old(self).calls().push(RuntimeCall::RandomSeed(seed)),
    {
        let seed = self.host.random_seed();
        self.calls = Ghost(self.calls@.push(RuntimeCall::RandomSeed(seed)));
        seed
    }

    /// Asks the runtime for the extrinsic index.
    pub fn extrinsic_index(&mut self) -> (index: Option<u32>)
        ensures
            final(self).calls() == old(self).calls().push(RuntimeCall::ExtrinsicIndex(index)),
    {
        let index = self.host.extrinsic_index();
        self.calls = Ghost(self.calls@.push(RuntimeCall::ExtrinsicIndex(index)));
        index
    }
}

} // verus!
