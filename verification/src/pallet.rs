use std::collections::HashMap;
use vstd::prelude::*;
use crate::dna::{spec_breed_dna, spec_combie_dna, breed_dna, Kitty};
use crate::hashing::{blake2_128, blake2_128_of, encode_seed_payload, seed_payload};
use crate::origin::{ensure_signed, DispatchError, Error, Origin};
use crate::runtime::{Runtime, RuntimeCall, Trait};
use crate::consistency::{
    lemma_create_wf, lemma_do_breed_wf, lemma_finish_breed_wf, lemma_transfer_wf, lemma_with_event_wf,
    lemma_with_parents_wf,
};

verus! {

/// The events that the kitties pallet deposits.
#[derive(Clone, Copy, PartialEq, Eq, Debug)]
pub enum Event {
    /// `(owner, kitty)`: a kitty was created or bred.
    NewKitty(u64, u32),
    /// `(from, to, kitty)`: a kitty changed owner.
    Transfered(u64, u64, u32),
    /// `(who, amount, block)`: the price of a kitty was reserved from `who`.
    LockFunds(u64, u64, u64),
    /// `(who, amount, block)`: the price of a kitty was released to `who`.
    UnlockFunds(u64, u64, u64),
}

/// The abstract state of the pallet: its storage items, the events it has
/// deposited, and the price of a kitty it was configured with.
#[verifier::ext_equal]
pub struct KittiesState {
    /// Each kitty's DNA, by kitty index.
    pub kitties: Map<u32, Seq<u8>>,
    /// How many kitties exist; also the index the next one gets.
    pub kitties_count: u32,
    /// Each kitty's owner.
    pub kitty_owners: Map<u32, u64>,
    /// The kitties of each account, in the order they were received.
    pub someone_kitties: Map<u64, Seq<u32>>,
    /// The partners each kitty was bred with, once per breeding.
    pub lovers: Map<u32, Seq<u32>>,
    /// The two kitties each bred kitty came from.
    pub parents: Map<u32, (u32, u32)>,
    /// The kitties bred from each ordered pair of parents.
    pub children: Map<(u32, u32), Seq<u32>>,
    /// The events deposited so far, oldest first.
    pub events: Seq<Event>,
    /// The amount reserved from the owner of each kitty.
    pub one_kitty_price: u64,
}

/// A sequence stored under `k`, or the empty sequence where none is.
pub open spec fn list_of<K>(m: Map<K, Seq<u32>>, k: K) -> Seq<u32> {
    if m.contains_key(k) {
        m[k]
    } else {
        Seq::empty()
    }
}

impl KittiesState {
    /// The state of a freshly configured pallet.
    pub open spec fn genesis(one_kitty_price: u64) -> KittiesState {
        KittiesState {
            kitties: Map::empty(),
            kitties_count: 0,
            kitty_owners: Map::empty(),
            someone_kitties: Map::empty(),
            lovers: Map::empty(),
            parents: Map::empty(),
            children: Map::empty(),
            events: Seq::empty(),
            one_kitty_price,
        }
    }

    /// The kitties listed for `who` (empty when nothing is stored for `who`).
    pub open spec fn owned_by(self, who: u64) -> Seq<u32> {
        list_of(self.someone_kitties, who)
    }

    /// The partners listed for kitty `k`.
    pub open spec fn lovers_of(self, k: u32) -> Seq<u32> {
        list_of(self.lovers, k)
    }

    /// The children listed for the ordered pair of parents `p`.
    pub open spec fn children_of(self, p: (u32, u32)) -> Seq<u32> {
        list_of(self.children, p)
    }

    /// The state with `e` deposited.
    pub open spec fn with_event(self, e: Event) -> KittiesState {
        KittiesState { events: self.events.push(e), ..self }
    }

    /// The state with `list` stored as the kitties of `who`.
    pub open spec fn with_owned(self, who: u64, list: Seq<u32>) -> KittiesState {
        KittiesState { someone_kitties: self.someone_kitties.insert(who, list), ..self }
    }

    /// The state with `who` recorded as the owner of kitty `id`.
    pub open spec fn with_owner(self, id: u32, who: u64) -> KittiesState {
        KittiesState { kitty_owners: self.kitty_owners.insert(id, who), ..self }
    }

    /// The state with `list` stored as the partners of kitty `k`.
    pub open spec fn with_lovers(self, k: u32, list: Seq<u32>) -> KittiesState {
        KittiesState { lovers: self.lovers.insert(k, list), ..self }
    }

    /// The state with `p` recorded as the parents of kitty `c`.
    pub open spec fn with_parents(self, c: u32, p: (u32, u32)) -> KittiesState {
        KittiesState { parents: self.parents.insert(c, p), ..self }
    }

    /// The state with `list` stored as the children of the pair `p`.
    pub open spec fn with_children(self, p: (u32, u32), list: Seq<u32>) -> KittiesState {
        KittiesState { children: self.children.insert(p, list), ..self }
    }

    /// Stores kitty `id` with `dna` for `sender` and counts it.
    pub open spec fn insert_new_kitty(self, sender: u64, id: u32, dna: Seq<u8>) -> KittiesState {
        let s = KittiesState {
            kitties: self.kitties.insert(id, dna),
            kitties_count: (id + 1) as u32,
            ..self
        };
        s.with_owner(id, sender).add_owned(sender, id)
    }

    /// The outcome of `create` by `sender`, given whether the price of a
    /// kitty could be reserved from `sender` and the DNA the new kitty gets.
    pub open spec fn create_step(self, sender: u64, reserved: bool, now: u64, dna: Seq<u8>) -> (
        KittiesState,
        Result<(), DispatchError>,
    ) {
        if !reserved {
            (self, Err(DispatchError::Module(Error::CreateKittyNeedDotsAsReserved)))
        } else {
            let locked = self.with_event(Event::LockFunds(sender, self.one_kitty_price, now));
            if self.kitties_count == u32::MAX {
                (locked, Err(DispatchError::Module(Error::KittyCountOverflow)))
            } else {
                let id = self.kitties_count;
                (
                    locked.insert_new_kitty(sender, id, dna).with_event(Event::NewKitty(sender, id)),
                    Ok(()),
                )
            }
        }
    }

    /// Whether `sender` may transfer kitty `id`.
    pub open spec fn transfer_check(self, sender: u64, id: u32) -> Result<(), DispatchError> {
        if !self.kitties.contains_key(id) {
            Err(DispatchError::Module(Error::InvalidKityyId))
        } else if self.kitty_owners[id] != sender {
            Err(DispatchError::Module(Error::NotKittyOwner))
        } else {
            Ok(())
        }
    }

    /// The outcome of `transfer` of kitty `id` from `sender` to `to`, given
    /// whether the price of a kitty could be reserved from `to`.
    pub open spec fn transfer_step(self, sender: u64, to: u64, id: u32, reserved: bool, now: u64) -> (
        KittiesState,
        Result<(), DispatchError>,
    ) {
        match self.transfer_check(sender, id) {
            Err(e) => (self, Err(e)),
            Ok(_) => if !reserved {
                (self, Err(DispatchError::Module(Error::CreateKittyNeedDotsAsReserved)))
            } else {
                let price = self.one_kitty_price;
                let s1 = self.with_event(Event::UnlockFunds(sender, price, now)).with_event(
                    Event::LockFunds(to, price, now),
                ).with_owner(id, to);
                let s3 = s1.remove_owned(sender, id).add_owned(to, id);
                (s3.with_event(Event::Transfered(sender, to, id)), Ok(()))
            },
        }
    }

    /// Whether kitties `k1` and `k2` can be bred: two distinct existing
    /// kitties, with an index left for their child.
    pub open spec fn breed_check(self, k1: u32, k2: u32) -> Result<(), DispatchError> {
        if k1 == k2 {
            Err(DispatchError::Module(Error::RequireTwoDifferentCat))
        } else if !self.kitties.contains_key(k1) || !self.kitties.contains_key(k2) {
            Err(DispatchError::Module(Error::InvalidKityyId))
        } else if self.kitties_count == u32::MAX {
            Err(DispatchError::Module(Error::KittyCountOverflow))
        } else {
            Ok(())
        }
    }

    /// Records `k2` as a partner of `k1`, then `k1` as a partner of `k2`.
    pub open spec fn add_lovers(self, k1: u32, k2: u32) -> KittiesState {
        let s1 = self.with_lovers(k1, self.lovers_of(k1).push(k2));
        s1.with_lovers(k2, s1.lovers_of(k2).push(k1))
    }

    /// Appends kitty `id` to the list of `who`.
    pub open spec fn add_owned(self, who: u64, id: u32) -> KittiesState {
        self.with_owned(who, self.owned_by(who).push(id))
    }

    /// Removes every occurrence of kitty `id` from the list of `who`.
    pub open spec fn remove_owned(self, who: u64, id: u32) -> KittiesState {
        self.with_owned(who, self.owned_by(who).filter(other_than(id)))
    }

    /// The outcome of breeding kitties `k1` and `k2` for `sender`, given the
    /// selector that mixes their DNA.
    pub open spec fn do_breed_step(self, sender: u64, k1: u32, k2: u32, selector: Seq<u8>) -> (
        KittiesState,
        Result<u32, DispatchError>,
    ) {
        match self.breed_check(k1, k2) {
            Err(e) => (self, Err(e)),
            Ok(_) => {
                let id = self.kitties_count;
                let dna = spec_breed_dna(self.kitties[k1], self.kitties[k2], selector);
                let s1 = self.with_children((k1, k2), self.children_of((k1, k2)).push(id));
                let s3 = s1.add_lovers(k1, k2);
                let s4 = s3.with_parents(id, (k1, k2));
                (s4.insert_new_kitty(sender, id, dna), Ok(id))
            },
        }
    }

    /// The outcome of the rest of `breed` once kitty `new_kitty` was bred for
    /// `sender`, given whether the price of a kitty could be reserved from
    /// `sender`.
    pub open spec fn finish_breed_step(self, sender: u64, new_kitty: u32, reserved: bool, now: u64) -> (
        KittiesState,
        Result<(), DispatchError>,
    ) {
        if !reserved {
            (self, Err(DispatchError::Module(Error::CreateKittyNeedDotsAsReserved)))
        } else {
            (
                self.with_event(Event::LockFunds(sender, self.one_kitty_price, now)).with_event(
                    Event::NewKitty(sender, new_kitty),
                ),
                Ok(()),
            )
        }
    }

    /// The outcome of the whole `breed` call: breeding under `selector`,
    /// then, when that succeeded, the rest given whether the price could be
    /// reserved.
    pub open spec fn breed_step(
        self,
        sender: u64,
        k1: u32,
        k2: u32,
        selector: Seq<u8>,
        reserved: bool,
        now: u64,
    ) -> (KittiesState, Result<(), DispatchError>) {
        let (bred, r) = self.do_breed_step(sender, k1, k2, selector);
        match r {
            Err(e) => (bred, Err(e)),
            Ok(new_kitty) => bred.finish_breed_step(sender, new_kitty, reserved, now),
        }
    }

    /// The ownership records are consistent: kitty indices are
    /// `0 .. kitties_count`, each kitty has 16 bytes of DNA and one owner,
    /// and an account's list holds each kitty it owns once and nothing else.
    pub open spec fn wf(self) -> bool {
        &&& forall|id: u32| #[trigger] self.kitties.contains_key(id) <==> id < self.kitties_count
        &&& forall|id: u32| #[trigger] self.kitties.contains_key(id) ==> self.kitties[id].len() == 16
        &&& forall|id: u32| #[trigger] self.kitty_owners.contains_key(id) <==> self.kitties.contains_key(id)
        &&& forall|id: u32| #[trigger]
            self.kitty_owners.contains_key(id) ==> self.owned_by(self.kitty_owners[id]).contains(id)
        &&& forall|who: u64, id: u32| #[trigger]
            self.owned_by(who).contains(id) ==> self.kitty_owners.contains_key(id)
                && self.kitty_owners[id] == who
        &&& forall|who: u64| #[trigger] self.owned_by(who).no_duplicates()
    }

    /// The family records are consistent: a bred kitty's parents are two
    /// distinct older kitties, a pair lists as children exactly the kitties
    /// it is recorded as the parents of, and a kitty lists a partner once for
    /// every kitty bred from the two of them.
    pub open spec fn family_wf(self) -> bool {
        &&& forall|c: u32| #[trigger]
            self.parents.contains_key(c) ==> {
                &&& self.kitties.contains_key(c)
                &&& self.parents[c].0 < c
                &&& self.parents[c].1 < c
                &&& self.parents[c].0 != self.parents[c].1
            }
        &&& forall|p: (u32, u32), c: u32| #[trigger]
            self.children_of(p).contains(c) ==> self.parents.contains_key(c) && self.parents[c] == p
        &&& forall|c: u32| #[trigger]
            self.parents.contains_key(c) ==> self.children_of(self.parents[c]).contains(c)
        &&& forall|a: u32, b: u32| #[trigger]
            self.lovers_of(a).to_multiset().count(b) == self.children_of((a, b)).len()
                + self.children_of((b, a)).len()
    }

    /// Every partner list counts each partner as often as the partner's list
    /// counts it.
    pub open spec fn lovers_symmetric(self) -> bool {
        forall|a: u32, b: u32| #[trigger]
            self.lovers_of(a).to_multiset().count(b) == self.lovers_of(b).to_multiset().count(a)
    }

    /// The runtime requests of a `create` by `sender`, given the runtime's
    /// answers: the reservation of the price from `sender`, then, once it was
    /// reserved, the block number, then, when an index is left, the random
    /// seed and the extrinsic index.
    pub open spec fn create_calls(
        self,
        sender: u64,
        reserved: bool,
        now: u64,
        random_seed: [u8; 32],
        extrinsic_index: Option<u32>,
    ) -> Seq<RuntimeCall> {
        let price = self.one_kitty_price;
        if !reserved {
            seq![RuntimeCall::Reserve(sender, price, false)]
        } else if self.kitties_count == u32::MAX {
            seq![RuntimeCall::Reserve(sender, price, true), RuntimeCall::BlockNumber(now)]
        } else {
            seq![
                RuntimeCall::Reserve(sender, price, true),
                RuntimeCall::BlockNumber(now),
                RuntimeCall::RandomSeed(random_seed),
                RuntimeCall::ExtrinsicIndex(extrinsic_index),
            ]
        }
    }

    /// The runtime requests of a `transfer` of kitty `id` from `sender` to
    /// `to`: none when the checks fail; otherwise the release of the price
    /// to `sender`, its reservation from `to`, then, once it was reserved,
    /// the block number.
    pub open spec fn transfer_calls(self, sender: u64, to: u64, id: u32, reserved: bool, now: u64) -> Seq<
        RuntimeCall,
    > {
        let price = self.one_kitty_price;
        match self.transfer_check(sender, id) {
            Err(_) => Seq::empty(),
            Ok(_) => if !reserved {
                seq![RuntimeCall::Unreserve(sender, price), RuntimeCall::Reserve(to, price, false)]
            } else {
                seq![
                    RuntimeCall::Unreserve(sender, price),
                    RuntimeCall::Reserve(to, price, true),
                    RuntimeCall::BlockNumber(now),
                ]
            },
        }
    }

    /// The runtime requests of a `breed` of kitties `k1` and `k2` by
    /// `sender`: none when the checks fail; otherwise the random seed and the
    /// extrinsic index, the reservation of the price from `sender`, then,
    /// once it was reserved, the block number.
    pub open spec fn breed_calls(
        self,
        sender: u64,
        k1: u32,
        k2: u32,
        random_seed: [u8; 32],
        extrinsic_index: Option<u32>,
        reserved: bool,
        now: u64,
    ) -> Seq<RuntimeCall> {
        let price = self.one_kitty_price;
        match self.breed_check(k1, k2) {
            Err(_) => Seq::empty(),
            Ok(_) => {
                let drawn = seq![
                    RuntimeCall::RandomSeed(random_seed),
                    RuntimeCall::ExtrinsicIndex(extrinsic_index),
                    RuntimeCall::Reserve(sender, price, reserved),
                ];
                if reserved {
                    drawn.push(RuntimeCall::BlockNumber(now))
                } else {
                    drawn
                }
            },
        }
    }
}

/// Keeps every index but `id`.
pub open spec fn other_than(id: u32) -> spec_fn(u32) -> bool {
    |k: u32| k != id
}

/// The key under which the children of the ordered pair `(a, b)` are stored.
pub open spec fn pair_key(a: u32, b: u32) -> u64 {
    (a * 0x1_0000_0000 + b) as u64
}

fn pair_key_exec(a: u32, b: u32) -> (k: u64)
    ensures
        k == pair_key(a, b),
{
    (a as u64) * 0x1_0000_0000 + (b as u64)
}

proof fn lemma_pair_key_injective(a: u32, b: u32, c: u32, d: u32)
    requires
        pair_key(a, b) == pair_key(c, d),
    ensures
        a == c && b == d,
{
    assert(a * 0x1_0000_0000 + b == c * 0x1_0000_0000 + d);
}

/// The pallet's storage and the events it deposited.
pub struct Module {
    one_kitty_price: u64,
    kitties: HashMap<u32, Kitty>,
    kitties_count: u32,
    kitty_owners: HashMap<u32, u64>,
    someone_kitties: HashMap<u64, Vec<u32>>,
    lovers: HashMap<u32, Vec<u32>>,
    parents: HashMap<u32, (u32, u32)>,
    children: HashMap<u64, Vec<u32>>,
    events: Vec<Event>,
}

impl View for Module {
    type V = KittiesState;

    closed spec fn view(&self) -> KittiesState {
        KittiesState {
            kitties: self.kitties@.map_values(|k: Kitty| k.0@),
            kitties_count: self.kitties_count,
            kitty_owners: self.kitty_owners@,
            someone_kitties: self.someone_kitties@.map_values(|v: Vec<u32>| v@),
            lovers: self.lovers@.map_values(|v: Vec<u32>| v@),
            parents: self.parents@,
            children: Map::new(
                |p: (u32, u32)| self.children@.contains_key(pair_key(p.0, p.1)),
                |p: (u32, u32)| self.children@[pair_key(p.0, p.1)]@,
            ),
            events: self.events@,
            one_kitty_price: self.one_kitty_price,
        }
    }
}

impl Module {
    /// The storage is consistent (see [`KittiesState::wf`]).
    pub open spec fn wf(&self) -> bool {
        self@.wf()
    }

    /// A pallet with empty storage that reserves `one_kitty_price` for each
    /// kitty.
    pub fn new(one_kitty_price: u64) -> (m: Module)
        ensures
            m@ == KittiesState::genesis(one_kitty_price),
            m.wf(),
            m@.family_wf(),
    {
        let m = Module {
            one_kitty_price,
            kitties: HashMap::new(),
            kitties_count: 0,
            kitty_owners: HashMap::new(),
            someone_kitties: HashMap::new(),
            lovers: HashMap::new(),
            parents: HashMap::new(),
            children: HashMap::new(),
            events: Vec::new(),
        };
        assert(m@.kitties =~= Map::empty());
        assert(m@.someone_kitties =~= Map::empty());
        assert(m@.lovers =~= Map::empty());
        assert(m@.children =~= Map::empty());
        assert forall|a: u32, b: u32| #[trigger] m@.lovers_of(a).to_multiset().count(b) == 0 by {
            broadcast use vstd::seq_lib::group_seq_properties;
            assert(m@.lovers_of(a) =~= Seq::<u32>::empty());
        }
        m
    }

    fn deposit_event(&mut self, e: Event)
        ensures
            final(self)@ == old(self)@.with_event(e),
    {
        self.events.push(e);
    }

    fn get_vec_u32(v: &Vec<u32>) -> (r: Vec<u32>)
        ensures
            r@ == v@,
    {
        let r = v.clone();
        assert(r@ =~= v@);
        r
    }

    fn insert_someone_kitty(&mut self, sender: u64, kitty_id: u32)
        ensures
            final(self)@ == old(self)@.add_owned(sender, kitty_id),
    {
        let mut kitties: Vec<u32> = match self.someone_kitties.get(&sender) {
            None => Vec::new(),
            Some(kitties) => Self::get_vec_u32(kitties),
        };
        kitties.push(kitty_id);
        self.someone_kitties.insert(sender, kitties);
        assert(self@.someone_kitties =~= old(self)@.someone_kitties.insert(
            sender,
            old(self)@.owned_by(sender).push(kitty_id),
        ));
    }

    fn insert_new_kitty(&mut self, sender: u64, kitty_id: u32, kitty: Kitty)
        requires
            kitty_id < u32::MAX,
        ensures
            final(self)@ == old(self)@.insert_new_kitty(sender, kitty_id, kitty.0@),
    {
        self.kitties.insert(kitty_id, kitty);
        self.kitties_count = kitty_id + 1;
        self.kitty_owners.insert(kitty_id, sender);
        assert(self@.kitties =~= old(self)@.kitties.insert(kitty_id, kitty.0@));
        self.insert_someone_kitty(sender, kitty_id);
    }

    /// Records that kitty `kitty` was bred from `kitty1` and `kitty2`.  Only
    /// the parents record changes: the ownership records stay consistent,
    /// while the family records stay consistent only when the other family
    /// records are brought in line, as `do_breed` does.
    pub fn insert_parents(&mut self, kitty: u32, kitty1: u32, kitty2: u32)
        ensures
            final(self)@ == old(self)@.with_parents(kitty, (kitty1, kitty2)),
            old(self).wf() ==> final(self).wf(),
    {
        proof {
            if old(self).wf() {
                lemma_with_parents_wf(old(self)@, kitty, (kitty1, kitty2));
            }
        }
        self.parents.insert(kitty, (kitty1, kitty2));
    }

    fn remove_a_kitty(&mut self, sender: u64, kittyid: u32)
        requires
            old(self)@.someone_kitties.contains_key(sender),
        ensures
            final(self)@ == old(self)@.remove_owned(sender, kittyid),
    {
        let mut new: Vec<u32> = Vec::new();
        let list = self.someone_kitties.get(&sender).unwrap();
        let n: usize = list.len();
        for idx in 0..n
            invariant
                n == list@.len(),
                list@ == old(self)@.owned_by(sender),
                new@ == list@.take(idx as int).filter(other_than(kittyid)),
        {
            let i: u32 = list[idx];
            if i != kittyid {
                new.push(i);
            }
            proof {
                reveal_with_fuel(Seq::<_>::filter, 1);
                assert(list@.take(idx + 1).drop_last() =~= list@.take(idx as int));
            }
        }
        assert(list@.take(n as int) =~= list@);
        self.someone_kitties.insert(sender, new);
        assert(self@.someone_kitties =~= old(self)@.someone_kitties.insert(
            sender,
            old(self)@.owned_by(sender).filter(other_than(kittyid)),
        ));
    }

    fn insert_lovers(&mut self, kitty1: u32, kitty2: u32)
        ensures
            final(self)@ == old(self)@.add_lovers(kitty1, kitty2),
    {
        let ghost s1 = old(self)@.with_lovers(kitty1, old(self)@.lovers_of(kitty1).push(kitty2));
        let mut tmp1: Vec<u32> = match self.lovers.get(&kitty1) {
            None => Vec::new(),
            Some(kitties) => Self::get_vec_u32(kitties),
        };
        tmp1.push(kitty2);
        self.lovers.insert(kitty1, tmp1);
        assert(self@.lovers =~= s1.lovers);
        let mut tmp2: Vec<u32> = match self.lovers.get(&kitty2) {
            None => Vec::new(),
            Some(kitties) => Self::get_vec_u32(kitties),
        };
        tmp2.push(kitty1);
        self.lovers.insert(kitty2, tmp2);
        assert(self@.lovers =~= s1.lovers.insert(kitty2, s1.lovers_of(kitty2).push(kitty1)));
    }

    fn insert_children(&mut self, kitty1: u32, kitty2: u32, child: u32)
        ensures
            final(self)@ == old(self)@.with_children(
                (kitty1, kitty2),
                old(self)@.children_of((kitty1, kitty2)).push(child),
            ),
    {
        let key = pair_key_exec(kitty1, kitty2);
        let mut tmp: Vec<u32> = match self.children.get(&key) {
            None => Vec::new(),
            Some(kitties) => Self::get_vec_u32(kitties),
        };
        tmp.push(child);
        self.children.insert(key, tmp);
        let ghost expected = old(self)@.children.insert(
            (kitty1, kitty2),
            old(self)@.children_of((kitty1, kitty2)).push(child),
        );
        assert forall|p: (u32, u32)| #[trigger] self@.children.contains_key(p) == expected.contains_key(p)
            && (self@.children.contains_key(p) ==> self@.children[p] == expected[p]) by {
            if pair_key(p.0, p.1) == key {
                lemma_pair_key_injective(p.0, p.1, kitty1, kitty2);
            }
        }
        assert(self@.children =~= expected);
    }

    /// The index the next kitty gets, unless every index has been used.
    pub fn next_kitty_id(&self) -> (r: Result<u32, DispatchError>)
        ensures
            r == if self@.kitties_count == u32::MAX {
                Err::<u32, DispatchError>(DispatchError::Module(Error::KittyCountOverflow))
            } else {
                Ok::<u32, DispatchError>(self@.kitties_count)
            },
    {
        if self.kitties_count == u32::MAX {
            return Err(DispatchError::Module(Error::KittyCountOverflow));
        }
        Ok(self.kitties_count)
    }

    /// The random bytes for `sender`: the Blake2-128 digest of the SCALE
    /// encoding of `(random_seed, sender, extrinsic_index)`.
    pub fn rand_value(sender: u64, random_seed: [u8; 32], extrinsic_index: Option<u32>) -> (r: [u8; 16])
        ensures
            r@ == blake2_128_of(seed_payload(random_seed@, sender, extrinsic_index)),
    {
        let payload = encode_seed_payload(random_seed, sender, extrinsic_index);
        blake2_128(payload.as_slice())
    }

    /// `create` for `sender`, once the runtime has tried to reserve the price
    /// of a kitty from `sender`: `reserved` says whether it could, `now` is
    /// the block number and `dna` the random bytes the new kitty gets.
    pub fn create_with_dna(&mut self, sender: u64, reserved: bool, now: u64, dna: [u8; 16]) -> (r:
        Result<(), DispatchError>)
        requires
            old(self).wf(),
        ensures
            final(self)@ == old(self)@.create_step(sender, reserved, now, dna@).0,
            r == old(self)@.create_step(sender, reserved, now, dna@).1,
            r is Ok <==> (reserved && old(self)@.kitties_count < u32::MAX),
            r is Ok ==> final(self)@.kitties[old(self)@.kitties_count] == dna@
                && final(self)@.kitty_owners[old(self)@.kitties_count] == sender,
            final(self).wf(),
            old(self)@.family_wf() ==> final(self)@.family_wf(),
    {
        proof {
            lemma_create_wf(old(self)@, sender, reserved, now, dna@);
        }
        if !reserved {
            return Err(DispatchError::Module(Error::CreateKittyNeedDotsAsReserved));
        }
        let price = self.one_kitty_price;
        self.deposit_event(Event::LockFunds(sender, price, now));
        let kitty_id = self.next_kitty_id()?;
        self.insert_new_kitty(sender, kitty_id, Kitty(dna));
        self.deposit_event(Event::NewKitty(sender, kitty_id));
        Ok(())
    }

    /// The `create` call of `sender`, once the runtime has tried to reserve
    /// the price of a kitty from `sender` (`reserved` says whether it could);
    /// `now` is the block number, and the new kitty's DNA is drawn from
    /// `random_seed` and `extrinsic_index` by [`Module::rand_value`].
    pub fn create_reserved(
        &mut self,
        sender: u64,
        reserved: bool,
        now: u64,
        random_seed: [u8; 32],
        extrinsic_index: Option<u32>,
    ) -> (r: Result<(), DispatchError>)
        requires
            old(self).wf(),
        ensures
            final(self)@ == old(self)@.create_step(
                sender,
                reserved,
                now,
                blake2_128_of(seed_payload(random_seed@, sender, extrinsic_index)),
            ).0,
            r == old(self)@.create_step(
                sender,
                reserved,
                now,
                blake2_128_of(seed_payload(random_seed@, sender, extrinsic_index)),
            ).1,
            r is Ok <==> (reserved && old(self)@.kitties_count < u32::MAX),
            r is Ok ==> final(self)@.kitties[old(self)@.kitties_count] == blake2_128_of(
                seed_payload(random_seed@, sender, extrinsic_index),
            ) && final(self)@.kitty_owners[old(self)@.kitties_count] == sender,
            final(self).wf(),
            old(self)@.family_wf() ==> final(self)@.family_wf(),
    {
        let dna = Self::rand_value(sender, random_seed, extrinsic_index);
        self.create_with_dna(sender, reserved, now, dna)
    }

    /// The owner of kitty `kitty`, if it exists.
    pub fn kitty_owner(&self, kitty: u32) -> (r: Option<u64>)
        ensures
            r == (if self@.kitty_owners.contains_key(kitty) {
                Some(self@.kitty_owners[kitty])
            } else {
                None
            }),
    {
        match self.kitty_owners.get(&kitty) {
            Some(who) => Some(*who),
            None => None,
        }
    }

    /// The checks `transfer` makes before the runtime moves the reserved
    /// funds: kitty `kittyid` exists and `sender` owns it.
    pub fn ensure_transferable(&self, sender: u64, kittyid: u32) -> (r: Result<(), DispatchError>)
        requires
            self.wf(),
        ensures
            r == self@.transfer_check(sender, kittyid),
            r is Ok <==> (self@.kitties.contains_key(kittyid) && self@.kitty_owners[kittyid] == sender),
            r == Err::<(), DispatchError>(DispatchError::Module(Error::InvalidKityyId)) <==> !self@.kitties.contains_key(kittyid),
    {
        if !self.kitties.contains_key(&kittyid) {
            return Err(DispatchError::Module(Error::InvalidKityyId));
        }
        assert(self@.kitties.contains_key(kittyid));
        assert(self@.kitty_owners.contains_key(kittyid));
        match self.kitty_owner(kittyid) {
            Some(owner) => {
                if owner != sender {
                    return Err(DispatchError::Module(Error::NotKittyOwner));
                }
                Ok(())
            },
            None => Err(DispatchError::Module(Error::InvalidKityyId)),
        }
    }

    /// The `transfer` call of kitty `kittyid` from `sender` to `to`, once the
    /// runtime has released the price of a kitty to `sender` and tried to
    /// reserve it from `to` (`reserved` says whether it could); `now` is the
    /// block number.
    pub fn transfer_reserved(&mut self, sender: u64, to: u64, kittyid: u32, reserved: bool, now: u64) -> (r:
        Result<(), DispatchError>)
        requires
            old(self).wf(),
        ensures
            final(self)@ == old(self)@.transfer_step(sender, to, kittyid, reserved, now).0,
            r == old(self)@.transfer_step(sender, to, kittyid, reserved, now).1,
            r is Ok <==> (old(self)@.kitties.contains_key(kittyid) && old(self)@.kitty_owners[kittyid]
                == sender && reserved),
            r is Ok ==> final(self)@.kitty_owners[kittyid] == to && final(self)@.owned_by(to).contains(kittyid),
            final(self).wf(),
            old(self)@.family_wf() ==> final(self)@.family_wf(),
    {
        proof {
            lemma_transfer_wf(old(self)@, sender, to, kittyid, reserved, now);
        }
        self.ensure_transferable(sender, kittyid)?;
        if !reserved {
            return Err(DispatchError::Module(Error::CreateKittyNeedDotsAsReserved));
        }
        assert(self@.kitty_owners.contains_key(kittyid));
        assert(self@.owned_by(sender).contains(kittyid));
        let price = self.one_kitty_price;
        self.deposit_event(Event::UnlockFunds(sender, price, now));
        self.deposit_event(Event::LockFunds(to, price, now));
        self.kitty_owners.insert(kittyid, to);
        self.remove_a_kitty(sender, kittyid);
        self.insert_someone_kitty(to, kittyid);
        assert(self@.owned_by(to).last() == kittyid);
        self.deposit_event(Event::Transfered(sender, to, kittyid));
        Ok(())
    }

    /// Kitty `kitty`, if it exists.
    pub fn kitties(&self, kitty: u32) -> (r: Option<Kitty>)
        ensures
            match r {
                Some(k) => self@.kitties.contains_key(kitty) && k.0@ == self@.kitties[kitty],
                None => !self@.kitties.contains_key(kitty),
            },
    {
        match self.kitties.get(&kitty) {
            Some(k) => Some(*k),
            None => None,
        }
    }

    /// `do_breed` with the random selector already drawn: breeds kitties
    /// `kitty1` and `kitty2` into a new kitty of `sender` whose DNA takes,
    /// bit by bit, `kitty1`'s where `selector` is set and `kitty2`'s where it
    /// is clear.  Returns the new kitty's index.
    pub fn do_breed_with_selector(&mut self, sender: u64, kitty1: u32, kitty2: u32, selector: [u8; 16]) -> (r:
        Result<u32, DispatchError>)
        requires
            old(self).wf(),
        ensures
            final(self)@ == old(self)@.do_breed_step(sender, kitty1, kitty2, selector@).0,
            r == old(self)@.do_breed_step(sender, kitty1, kitty2, selector@).1,
            r is Ok <==> (kitty1 != kitty2 && old(self)@.kitties.contains_key(kitty1)
                && old(self)@.kitties.contains_key(kitty2) && old(self)@.kitties_count < u32::MAX),
            r is Ok ==> {
                let id = old(self)@.kitties_count;
                &&& r == Ok::<u32, DispatchError>(id)
                &&& final(self)@.kitty_owners[id] == sender
                &&& final(self)@.parents[id] == (kitty1, kitty2)
                &&& forall|i: int| 0 <= i < 16 ==> #[trigger] final(self)@.kitties[id][i] == spec_combie_dna(
                    old(self)@.kitties[kitty1][i],
                    old(self)@.kitties[kitty2][i],
                    selector@[i],
                )
            },
            final(self).wf(),
            old(self)@.family_wf() ==> final(self)@.family_wf(),
    {
        proof {
            lemma_do_breed_wf(old(self)@, sender, kitty1, kitty2, selector@);
        }
        if kitty1 == kitty2 {
            return Err(DispatchError::Module(Error::RequireTwoDifferentCat));
        }
        let kitty_1 = match self.kitties(kitty1) {
            Some(k) => k,
            None => {
                return Err(DispatchError::Module(Error::InvalidKityyId));
            },
        };
        let kitty_2 = match self.kitties(kitty2) {
            Some(k) => k,
            None => {
                return Err(DispatchError::Module(Error::InvalidKityyId));
            },
        };
        let new_kitty_id = self.next_kitty_id()?;
        let dna = breed_dna(kitty_1.0, kitty_2.0, selector);
        self.insert_children(kitty1, kitty2, new_kitty_id);
        self.insert_lovers(kitty1, kitty2);
        self.insert_parents(new_kitty_id, kitty1, kitty2);
        self.insert_new_kitty(sender, new_kitty_id, Kitty(dna));
        Ok(new_kitty_id)
    }

    /// Breeds kitties `kitty1` and `kitty2` into a new kitty of `sender`,
    /// mixing their DNA under the selector drawn from `random_seed` and
    /// `extrinsic_index` by [`Module::rand_value`].  Returns the new kitty's
    /// index.
    pub fn do_breed(
        &mut self,
        sender: u64,
        kitty1: u32,
        kitty2: u32,
        random_seed: [u8; 32],
        extrinsic_index: Option<u32>,
    ) -> (r: Result<u32, DispatchError>)
        requires
            old(self).wf(),
        ensures
            final(self)@ == old(self)@.do_breed_step(
                sender,
                kitty1,
                kitty2,
                blake2_128_of(seed_payload(random_seed@, sender, extrinsic_index)),
            ).0,
            r == old(self)@.do_breed_step(
                sender,
                kitty1,
                kitty2,
                blake2_128_of(seed_payload(random_seed@, sender, extrinsic_index)),
            ).1,
            r is Ok <==> (kitty1 != kitty2 && old(self)@.kitties.contains_key(kitty1)
                && old(self)@.kitties.contains_key(kitty2) && old(self)@.kitties_count < u32::MAX),
            r is Ok ==> {
                let id = old(self)@.kitties_count;
                &&& r == Ok::<u32, DispatchError>(id)
                &&& final(self)@.kitty_owners[id] == sender
                &&& final(self)@.parents[id] == (kitty1, kitty2)
                &&& forall|i: int| 0 <= i < 16 ==> #[trigger] final(self)@.kitties[id][i] == spec_combie_dna(
                    old(self)@.kitties[kitty1][i],
                    old(self)@.kitties[kitty2][i],
                    blake2_128_of(seed_payload(random_seed@, sender, extrinsic_index))[i],
                )
            },
            final(self).wf(),
            old(self)@.family_wf() ==> final(self)@.family_wf(),
    {
        let selector = Self::rand_value(sender, random_seed, extrinsic_index);
        self.do_breed_with_selector(sender, kitty1, kitty2, selector)
    }

    /// The rest of the `breed` call of `sender` once `do_breed` has bred kitty
    /// `new_kitty`: the runtime has tried to reserve the price of a kitty from
    /// `sender` (`reserved` says whether it could); `now` is the block number.
    pub fn finish_breed(&mut self, sender: u64, new_kitty: u32, reserved: bool, now: u64) -> (r:
        Result<(), DispatchError>)
        requires
            old(self).wf(),
        ensures
            final(self)@ == old(self)@.finish_breed_step(sender, new_kitty, reserved, now).0,
            r == old(self)@.finish_breed_step(sender, new_kitty, reserved, now).1,
            final(self).wf(),
            old(self)@.family_wf() ==> final(self)@.family_wf(),
    {
        proof {
            lemma_finish_breed_wf(old(self)@, sender, new_kitty, reserved, now);
        }
        if !reserved {
            return Err(DispatchError::Module(Error::CreateKittyNeedDotsAsReserved));
        }
        let price = self.one_kitty_price;
        self.deposit_event(Event::LockFunds(sender, price, now));
        self.deposit_event(Event::NewKitty(sender, new_kitty));
        Ok(())
    }

    /// How many kitties exist.
    pub fn kitties_count(&self) -> (c: u32)
        ensures
            c == self@.kitties_count,
    {
        self.kitties_count
    }

    /// The price of a kitty the pallet was configured with.
    pub fn one_kitty_price(&self) -> (p: u64)
        ensures
            p == self@.one_kitty_price,
    {
        self.one_kitty_price
    }

    /// The kitties of `who`, if a list is stored for `who`.
    pub fn get_someone_kitties(&self, who: u64) -> (r: Option<Vec<u32>>)
        ensures
            match r {
                Some(v) => self@.someone_kitties.contains_key(who) && v@ == self@.someone_kitties[who],
                None => !self@.someone_kitties.contains_key(who),
            },
    {
        match self.someone_kitties.get(&who) {
            Some(v) => Some(Self::get_vec_u32(v)),
            None => None,
        }
    }

    /// The partners kitty `kitty` was bred with, if any were stored.
    pub fn get_all_lovers(&self, kitty: u32) -> (r: Option<Vec<u32>>)
        ensures
            match r {
                Some(v) => self@.lovers.contains_key(kitty) && v@ == self@.lovers[kitty],
                None => !self@.lovers.contains_key(kitty),
            },
    {
        match self.lovers.get(&kitty) {
            Some(v) => Some(Self::get_vec_u32(v)),
            None => None,
        }
    }

    /// The parents of kitty `kitty`, if it was bred.
    pub fn get_parents(&self, kitty: u32) -> (r: Option<(u32, u32)>)
        ensures
            r == (if self@.parents.contains_key(kitty) {
                Some(self@.parents[kitty])
            } else {
                None
            }),
    {
        match self.parents.get(&kitty) {
            Some(p) => Some(*p),
            None => None,
        }
    }

    /// The kitties bred from the ordered pair `parents`, if any were stored.
    pub fn get_all_children(&self, parents: (u32, u32)) -> (r: Option<Vec<u32>>)
        ensures
            match r {
                Some(v) => self@.children.contains_key(parents) && v@ == self@.children[parents],
                None => !self@.children.contains_key(parents),
            },
    {
        let key = pair_key_exec(parents.0, parents.1);
        match self.children.get(&key) {
            Some(v) => Some(Self::get_vec_u32(v)),
            None => None,
        }
    }

    /// The events deposited so far, oldest first.
    pub fn events(&self) -> (e: &Vec<Event>)
        ensures
            e@ == self@.events,
    {
        &self.events
    }

    /// The checks `do_breed` makes before drawing randomness.
    fn check_breed(&self, kitty1: u32, kitty2: u32) -> (r: Result<(), DispatchError>)
        ensures
            r == self@.breed_check(kitty1, kitty2),
            r is Ok <==> (kitty1 != kitty2 && self@.kitties.contains_key(kitty1) && self@.kitties.contains_key(
                kitty2,
            ) && self@.kitties_count < u32::MAX),
    {
        if kitty1 == kitty2 {
            return Err(DispatchError::Module(Error::RequireTwoDifferentCat));
        }
        if !self.kitties.contains_key(&kitty1) || !self.kitties.contains_key(&kitty2) {
            return Err(DispatchError::Module(Error::InvalidKityyId));
        }
        self.next_kitty_id()?;
        Ok(())
    }

    /// The `create` call: reserves the price of a kitty from the signer and
    /// gives the signer a new kitty with random DNA.  The requests made of
    /// the runtime, with its answers, are exactly
    /// [`KittiesState::create_calls`], and the outcome is
    /// [`KittiesState::create_step`] for those answers.
    pub fn create<T: Trait>(&mut self, runtime: &mut Runtime<T>, origin: Origin) -> (r: Result<
        (),
        DispatchError,
    >)
        requires
            old(self).wf(),
        ensures
            final(self).wf(),
            old(self)@.family_wf() ==> final(self)@.family_wf(),
            match origin {
                Origin::Signed(sender) => exists|
                    reserved: bool,
                    now: u64,
                    random_seed: [u8; 32],
                    extrinsic_index: Option<u32>,
                |
                    #![trigger old(self)@.create_calls(sender, reserved, now, random_seed, extrinsic_index)]
                    {
                        let step = old(self)@.create_step(
                            sender,
                            reserved,
                            now,
                            blake2_128_of(seed_payload(random_seed@, sender, extrinsic_index)),
                        );
                        &&& final(runtime).calls() == old(runtime).calls() + old(self)@.create_calls(
                            sender,
                            reserved,
                            now,
                            random_seed,
                            extrinsic_index,
                        )
                        &&& final(self)@ == step.0
                        &&& r == step.1
                    },
                _ => final(self)@ == old(self)@ && final(runtime).calls() == old(runtime).calls() && r
                    == Err::<(), DispatchError>(DispatchError::BadOrigin),
            },
            r is Ok ==> ({
                let c = final(runtime).calls();
                let n = old(runtime).calls().len() as int;
                let id = old(self)@.kitties_count;
                &&& origin matches Origin::Signed(sender)
                &&& c.len() == n + 4
                &&& c[n] == RuntimeCall::Reserve(sender, old(self)@.one_kitty_price, true)
                &&& c[n + 2] matches RuntimeCall::RandomSeed(seed)
                &&& c[n + 3] matches RuntimeCall::ExtrinsicIndex(index)
                &&& final(self)@.kitties[id] == blake2_128_of(seed_payload(seed@, sender, index))
                &&& final(self)@.kitty_owners[id] == sender
            }),
    {
        let sender = ensure_signed(origin)?;
        let ghost s0 = self@;
        let ghost c0 = runtime.calls();
        let ghost no_seed: [u8; 32] = arbitrary();
        let price = self.one_kitty_price;
        let reserved = runtime.reserve(sender, price);
        if !reserved {
            assert(runtime.calls() =~= c0 + s0.create_calls(sender, false, 0, no_seed, None));
            return Err(DispatchError::Module(Error::CreateKittyNeedDotsAsReserved));
        }
        let now = runtime.block_number();
        if self.kitties_count == u32::MAX {
            self.deposit_event(Event::LockFunds(sender, price, now));
            proof {
                lemma_with_event_wf(s0, Event::LockFunds(sender, price, now));
            }
            assert(runtime.calls() =~= c0 + s0.create_calls(sender, true, now, no_seed, None));
            return Err(DispatchError::Module(Error::KittyCountOverflow));
        }
        let random_seed = runtime.random_seed();
        let extrinsic_index = runtime.extrinsic_index();
        let dna = Self::rand_value(sender, random_seed, extrinsic_index);
        let r = self.create_with_dna(sender, true, now, dna);
        assert(runtime.calls() =~= c0 + s0.create_calls(sender, true, now, random_seed, extrinsic_index));
        assert(runtime.calls()[c0.len() + 2int] == RuntimeCall::RandomSeed(random_seed));
        assert(runtime.calls()[c0.len() + 3int] == RuntimeCall::ExtrinsicIndex(extrinsic_index));
        r
    }

    /// The `transfer` call: the signer gives kitty `kittyid` to `to`.  When
    /// the checks of [`Module::ensure_transferable`] pass, the price of a
    /// kitty is released to the signer and reserved from `to`.  The requests
    /// made of the runtime, with its answers, are exactly
    /// [`KittiesState::transfer_calls`], and the outcome is
    /// [`KittiesState::transfer_step`] for those answers.
    pub fn transfer<T: Trait>(&mut self, runtime: &mut Runtime<T>, origin: Origin, to: u64, kittyid: u32) -> (r:
        Result<(), DispatchError>)
        requires
            old(self).wf(),
        ensures
            final(self).wf(),
            old(self)@.family_wf() ==> final(self)@.family_wf(),
            match origin {
                Origin::Signed(sender) => exists|reserved: bool, now: u64|
                    #![trigger old(self)@.transfer_calls(sender, to, kittyid, reserved, now)]
                    {
                        let step = old(self)@.transfer_step(sender, to, kittyid, reserved, now);
                        &&& final(runtime).calls() == old(runtime).calls() + old(self)@.transfer_calls(
                            sender,
                            to,
                            kittyid,
                            reserved,
                            now,
                        )
                        &&& final(self)@ == step.0
                        &&& r == step.1
                    },
                _ => final(self)@ == old(self)@ && final(runtime).calls() == old(runtime).calls() && r
                    == Err::<(), DispatchError>(DispatchError::BadOrigin),
            },
            r is Ok ==> ({
                let c = final(runtime).calls();
                let n = old(runtime).calls().len() as int;
                let price = old(self)@.one_kitty_price;
                &&& origin matches Origin::Signed(sender)
                &&& c.len() == n + 3
                &&& c[n] == RuntimeCall::Unreserve(sender, price)
                &&& c[n + 1] == RuntimeCall::Reserve(to, price, true)
                &&& old(self)@.kitty_owners[kittyid] == sender
                &&& final(self)@.kitty_owners[kittyid] == to
            }),
    {
        let sender = ensure_signed(origin)?;
        let ghost s0 = self@;
        let ghost c0 = runtime.calls();
        let checked = self.ensure_transferable(sender, kittyid);
        if checked.is_err() {
            assert(runtime.calls() =~= c0 + s0.transfer_calls(sender, to, kittyid, false, 0));
            return checked;
        }
        let price = self.one_kitty_price;
        runtime.unreserve(sender, price);
        let reserved = runtime.reserve(to, price);
        if !reserved {
            assert(runtime.calls() =~= c0 + s0.transfer_calls(sender, to, kittyid, false, 0));
            return Err(DispatchError::Module(Error::CreateKittyNeedDotsAsReserved));
        }
        let now = runtime.block_number();
        let r = self.transfer_reserved(sender, to, kittyid, true, now);
        assert(runtime.calls() =~= c0 + s0.transfer_calls(sender, to, kittyid, true, now));
        assert(runtime.calls()[c0.len() + 0int] == RuntimeCall::Unreserve(sender, price));
        assert(runtime.calls()[c0.len() + 1int] == RuntimeCall::Reserve(to, price, true));
        r
    }

    /// The `breed` call: when the checks of `do_breed` pass, breeds kitties
    /// `kitty1` and `kitty2` into a new kitty of the signer, then reserves
    /// the price of a kitty from the signer.  The requests made of the
    /// runtime, with its answers, are exactly [`KittiesState::breed_calls`],
    /// and the outcome is [`KittiesState::breed_step`] for those answers.
    pub fn breed<T: Trait>(&mut self, runtime: &mut Runtime<T>, origin: Origin, kitty1: u32, kitty2: u32) -> (r:
        Result<(), DispatchError>)
        requires
            old(self).wf(),
        ensures
            final(self).wf(),
            old(self)@.family_wf() ==> final(self)@.family_wf(),
            match origin {
                Origin::Signed(sender) => exists|
                    random_seed: [u8; 32],
                    extrinsic_index: Option<u32>,
                    reserved: bool,
                    now: u64,
                |
                    #![trigger old(self)@.breed_calls(sender, kitty1, kitty2, random_seed, extrinsic_index, reserved, now)]
                    {
                        let step = old(self)@.breed_step(
                            sender,
                            kitty1,
                            kitty2,
                            blake2_128_of(seed_payload(random_seed@, sender, extrinsic_index)),
                            reserved,
                            now,
                        );
                        &&& final(runtime).calls() == old(runtime).calls() + old(self)@.breed_calls(
                            sender,
                            kitty1,
                            kitty2,
                            random_seed,
                            extrinsic_index,
                            reserved,
                            now,
                        )
                        &&& final(self)@ == step.0
                        &&& r == step.1
                    },
                _ => final(self)@ == old(self)@ && final(runtime).calls() == old(runtime).calls() && r
                    == Err::<(), DispatchError>(DispatchError::BadOrigin),
            },
            r is Ok ==> ({
                let c = final(runtime).calls();
                let n = old(runtime).calls().len() as int;
                let id = old(self)@.kitties_count;
                &&& origin matches Origin::Signed(sender)
                &&& c.len() == n + 4
                &&& c[n] matches RuntimeCall::RandomSeed(seed)
                &&& c[n + 1] matches RuntimeCall::ExtrinsicIndex(index)
                &&& c[n + 2] == RuntimeCall::Reserve(sender, old(self)@.one_kitty_price, true)
                &&& final(self)@.kitty_owners[id] == sender
                &&& final(self)@.parents[id] == (kitty1, kitty2)
                &&& forall|i: int| 0 <= i < 16 ==> #[trigger] final(self)@.kitties[id][i] == spec_combie_dna(
                    old(self)@.kitties[kitty1][i],
                    old(self)@.kitties[kitty2][i],
                    blake2_128_of(seed_payload(seed@, sender, index))[i],
                )
            }),
    {
        let sender = ensure_signed(origin)?;
        let ghost s0 = self@;
        let ghost c0 = runtime.calls();
        let ghost no_seed: [u8; 32] = arbitrary();
        let checked = self.check_breed(kitty1, kitty2);
        if checked.is_err() {
            assert(runtime.calls() =~= c0 + s0.breed_calls(sender, kitty1, kitty2, no_seed, None, false, 0));
            return checked;
        }
        let random_seed = runtime.random_seed();
        let extrinsic_index = runtime.extrinsic_index();
        let ghost selector = blake2_128_of(seed_payload(random_seed@, sender, extrinsic_index));
        let new_kitty = self.do_breed(sender, kitty1, kitty2, random_seed, extrinsic_index)?;
        let ghost s2 = self@;
        let price = self.one_kitty_price;
        let reserved = runtime.reserve(sender, price);
        if !reserved {
            assert(runtime.calls() =~= c0 + s0.breed_calls(
                sender,
                kitty1,
                kitty2,
                random_seed,
                extrinsic_index,
                false,
                0,
            ));
            assert(s0.breed_step(sender, kitty1, kitty2, selector, false, 0).0 == self@);
            return Err(DispatchError::Module(Error::CreateKittyNeedDotsAsReserved));
        }
        let now = runtime.block_number();
        let r = self.finish_breed(sender, new_kitty, true, now);
        assert(self@.kitties == s2.kitties && self@.kitty_owners == s2.kitty_owners && self@.parents
            == s2.parents);
        assert(runtime.calls() =~= c0 + s0.breed_calls(
            sender,
            kitty1,
            kitty2,
            random_seed,
            extrinsic_index,
            true,
            now,
        ));
        assert(runtime.calls()[c0.len() + 0int] == RuntimeCall::RandomSeed(random_seed));
        assert(runtime.calls()[c0.len() + 1int] == RuntimeCall::ExtrinsicIndex(extrinsic_index));
        assert(runtime.calls()[c0.len() + 2int] == RuntimeCall::Reserve(sender, price, true));
        r
    }
}

} // verus!
