// A mock runtime around the kitties pallet: balances with reservations,
// a system event log that is cleared when a block starts, and the block
// number and random seed the pallet's calls are given.

use std::collections::HashMap;

use pallet_kitties::{DispatchError, Error, Event, Module, Origin, Runtime, Trait};

const NEW_KITTY_RESERVE: u64 = 5_000;

#[derive(Clone, Copy, Debug, PartialEq, Eq)]
enum BalancesEvent {
    Reserved(u64, u64),
    Unreserved(u64, u64),
}

#[derive(Clone, Copy, Debug, PartialEq, Eq)]
enum TestEvent {
    Balances(BalancesEvent),
    Kittiesevent(Event),
}

struct EventRecord {
    event: TestEvent,
}

struct MockRuntime {
    free: HashMap<u64, u64>,
    reserved: HashMap<u64, u64>,
    events: Vec<EventRecord>,
    block_number: u64,
}

impl MockRuntime {
    fn empty() -> MockRuntime {
        MockRuntime { free: HashMap::new(), reserved: HashMap::new(), events: Vec::new(), block_number: 0 }
    }

    fn free_balance(&self, who: u64) -> u64 {
        *self.free.get(&who).unwrap_or(&0)
    }

    fn reserved_balance(&self, who: u64) -> u64 {
        *self.reserved.get(&who).unwrap_or(&0)
    }
}

impl Trait for MockRuntime {
    fn reserve(&mut self, who: u64, value: u64) -> bool {
        let free = self.free_balance(who);
        if free < value {
            return false;
        }
        self.free.insert(who, free - value);
        let reserved = self.reserved_balance(who);
        self.reserved.insert(who, reserved + value);
        self.events.push(EventRecord { event: TestEvent::Balances(BalancesEvent::Reserved(who, value)) });
        true
    }

    fn unreserve(&mut self, who: u64, value: u64) {
        let reserved = self.reserved_balance(who);
        let actual = if value < reserved { value } else { reserved };
        self.reserved.insert(who, reserved - actual);
        let free = self.free_balance(who);
        self.free.insert(who, free + actual);
        self.events.push(EventRecord { event: TestEvent::Balances(BalancesEvent::Unreserved(who, actual)) });
    }

    fn block_number(&self) -> u64 {
        self.block_number
    }

    fn random_seed(&self) -> [u8; 32] {
        let mut seed = [0u8; 32];
        seed[..8].copy_from_slice(&self.block_number.to_le_bytes());
        seed
    }

    fn extrinsic_index(&self) -> Option<u32> {
        None
    }
}

#[derive(Debug, PartialEq, Eq)]
struct Snapshot {
    kitties_count: u32,
    owners: Vec<Option<u64>>,
    lists: Vec<Option<Vec<u32>>>,
    lovers: Vec<Option<Vec<u32>>>,
    parents: Vec<Option<(u32, u32)>>,
    kitty_events: usize,
    system_events: usize,
    balances: Vec<(u64, u64)>,
}

struct Test {
    kitties: Module,
    system: MockRuntime,
    seen_kitty_events: usize,
}

impl Test {
    fn new_test_ext() -> Test {
        let mut free = HashMap::new();
        free.insert(1, 20000);
        free.insert(2, 10000);
        free.insert(3, 100);
        Test {
            kitties: Module::new(NEW_KITTY_RESERVE),
            system: MockRuntime { free, reserved: HashMap::new(), events: Vec::new(), block_number: 1 },
            seen_kitty_events: 0,
        }
    }

    fn run_to_block(&mut self, n: u64) {
        while self.system.block_number < n {
            self.system.block_number += 1;
            self.system.events.clear();
        }
    }

    fn events(&self) -> &Vec<EventRecord> {
        &self.system.events
    }

    fn free_balance(&self, who: u64) -> u64 {
        self.system.free_balance(who)
    }

    fn reserved_balance(&self, who: u64) -> u64 {
        self.system.reserved_balance(who)
    }

    fn collect_kitty_events(&mut self) {
        let all = self.kitties.events();
        for e in &all[self.seen_kitty_events..] {
            self.system.events.push(EventRecord { event: TestEvent::Kittiesevent(*e) });
        }
        self.seen_kitty_events = all.len();
    }

    fn with_runtime<R>(&mut self, call: impl FnOnce(&mut Module, &mut Runtime<MockRuntime>) -> R) -> R {
        let host = std::mem::replace(&mut self.system, MockRuntime::empty());
        let mut runtime = Runtime::new(host);
        let r = call(&mut self.kitties, &mut runtime);
        self.system = runtime.into_host();
        self.collect_kitty_events();
        r
    }

    fn create(&mut self, origin: Origin) -> Result<(), DispatchError> {
        self.with_runtime(|kitties, runtime| kitties.create(runtime, origin))
    }

    fn transfer(&mut self, origin: Origin, to: u64, kittyid: u32) -> Result<(), DispatchError> {
        self.with_runtime(|kitties, runtime| kitties.transfer(runtime, origin, to, kittyid))
    }

    fn breed(&mut self, origin: Origin, kitty1: u32, kitty2: u32) -> Result<(), DispatchError> {
        self.with_runtime(|kitties, runtime| kitties.breed(runtime, origin, kitty1, kitty2))
    }

    fn snapshot(&self) -> Snapshot {
        let ids: Vec<u32> = (0..8).collect();
        let accounts: Vec<u64> = (0..8).collect();
        Snapshot {
            kitties_count: self.kitties.kitties_count(),
            owners: ids.iter().map(|i| self.kitties.kitty_owner(*i)).collect(),
            lists: accounts.iter().map(|a| self.kitties.get_someone_kitties(*a)).collect(),
            lovers: ids.iter().map(|i| self.kitties.get_all_lovers(*i)).collect(),
            parents: ids.iter().map(|i| self.kitties.get_parents(*i)).collect(),
            kitty_events: self.kitties.events().len(),
            system_events: self.system.events.len(),
            balances: accounts.iter().map(|a| (self.free_balance(*a), self.reserved_balance(*a))).collect(),
        }
    }
}

fn assert_noop(t: &mut Test, call: impl FnOnce(&mut Test) -> Result<(), DispatchError>, err: Error) {
    let before = t.snapshot();
    assert_eq!(call(t), Err(DispatchError::Module(err)));
    assert_eq!(t.snapshot(), before);
}

#[test]
fn create_worked() {
    let mut t = Test::new_test_ext();
    t.run_to_block(100);
    assert_eq!(t.create(Origin::signed(1)), Ok(()));
    let kittyevent = TestEvent::Kittiesevent(Event::NewKitty(1, 0));
    let lockevent = TestEvent::Kittiesevent(Event::LockFunds(1, 5000, 100));
    assert_eq!(t.events()[2].event, kittyevent);
    assert_eq!(t.events()[1].event, lockevent);
    assert_eq!(t.kitties.kitty_owner(0), Some(1));
    assert_eq!(t.free_balance(1), 15000);
    assert_eq!(t.reserved_balance(1), 5000);
}

#[test]
fn create_without_enough_money() {
    let mut t = Test::new_test_ext();
    t.run_to_block(100);
    assert_noop(&mut t, |t| t.create(Origin::signed(5)), Error::CreateKittyNeedDotsAsReserved);
}

#[test]
fn transfer_worked() {
    let mut t = Test::new_test_ext();
    t.run_to_block(10);
    assert_eq!(t.create(Origin::signed(1)), Ok(()));
    assert_eq!(t.transfer(Origin::signed(1), 2, 0), Ok(()));
    let kittyevent = TestEvent::Kittiesevent(Event::Transfered(1, 2, 0));
    let unlockevent = TestEvent::Kittiesevent(Event::UnlockFunds(1, 5000, 10));
    let lockevent = TestEvent::Kittiesevent(Event::LockFunds(2, 5000, 10));
    assert_eq!(t.events()[7].event, kittyevent);
    assert_eq!(t.events()[6].event, lockevent);
    assert_eq!(t.events()[5].event, unlockevent);
    assert_eq!(t.kitties.kitty_owner(0), Some(2));
    assert!(t.kitties.get_someone_kitties(1).unwrap().len() == 0);
}

#[test]
fn transfer_failed_notowner() {
    let mut t = Test::new_test_ext();
    t.run_to_block(10);
    assert_eq!(t.create(Origin::signed(1)), Ok(()));
    assert_noop(&mut t, |t| t.transfer(Origin::signed(2), 3, 0), Error::NotKittyOwner);
}

#[test]
fn transfer_failed_invalid_kittyindex() {
    let mut t = Test::new_test_ext();
    t.run_to_block(10);
    assert_eq!(t.create(Origin::signed(1)), Ok(()));
    assert_noop(&mut t, |t| t.transfer(Origin::signed(2), 3, 1), Error::InvalidKityyId);
}

#[test]
fn breed_worked() {
    let mut t = Test::new_test_ext();
    t.run_to_block(10);
    assert_eq!(t.create(Origin::signed(1)), Ok(()));
    t.run_to_block(10);
    assert_eq!(t.create(Origin::signed(1)), Ok(()));
    assert!(t.kitties.kitties_count() == 2);
    assert_eq!(t.breed(Origin::signed(1), 0, 1), Ok(()));
    let kittyevent = TestEvent::Kittiesevent(Event::NewKitty(1, 2));
    let lockevent = TestEvent::Kittiesevent(Event::LockFunds(1, 5000, 10));
    assert_eq!(t.events()[8].event, kittyevent);
    assert_eq!(t.events()[7].event, lockevent);
    assert_eq!(t.kitties.kitty_owner(2), Some(1));
    assert_eq!(t.kitties.get_all_lovers(0), Some(vec![1]));
    assert_eq!(t.kitties.get_all_lovers(1), Some(vec![0]));
    assert_eq!(t.kitties.get_parents(2), Some((0, 1)));
    assert_eq!(t.kitties.get_all_children((0, 1)), Some(vec![2]));
}

#[test]
fn breed_with_invalid_kitty() {
    let mut t = Test::new_test_ext();
    t.run_to_block(10);
    assert_eq!(t.create(Origin::signed(1)), Ok(()));
    t.run_to_block(20);
    assert_eq!(t.create(Origin::signed(1)), Ok(()));
    assert_noop(&mut t, |t| t.breed(Origin::signed(1), 0, 2), Error::InvalidKityyId);
}

#[test]
fn breed_with_same_kitty() {
    let mut t = Test::new_test_ext();
    t.run_to_block(10);
    assert_eq!(t.create(Origin::signed(1)), Ok(()));
    t.run_to_block(20);
    assert_eq!(t.create(Origin::signed(1)), Ok(()));
    assert_noop(&mut t, |t| t.breed(Origin::signed(1), 0, 0), Error::RequireTwoDifferentCat);
}

#[test]
fn calls_need_a_signed_origin() {
    let mut t = Test::new_test_ext();
    t.run_to_block(10);
    let before = t.snapshot();
    assert_eq!(t.create(Origin::Root), Err(DispatchError::BadOrigin));
    assert_eq!(t.transfer(Origin::Unsigned, 2, 0), Err(DispatchError::BadOrigin));
    assert_eq!(t.breed(Origin::Root, 0, 1), Err(DispatchError::BadOrigin));
    assert_eq!(t.snapshot(), before);
}

#[test]
fn transfer_to_account_without_funds_fails_after_releasing_sender() {
    let mut t = Test::new_test_ext();
    t.run_to_block(10);
    assert_eq!(t.create(Origin::signed(1)), Ok(()));
    assert_eq!(
        t.transfer(Origin::signed(1), 3, 0),
        Err(DispatchError::Module(Error::CreateKittyNeedDotsAsReserved))
    );
    assert_eq!(t.kitties.kitty_owner(0), Some(1));
    assert_eq!(t.reserved_balance(1), 0);
    assert_eq!(t.free_balance(1), 20000);
    assert_eq!(t.reserved_balance(3), 0);
}

#[test]
fn breed_without_funds_keeps_the_bred_kitty() {
    let mut t = Test::new_test_ext();
    t.run_to_block(10);
    assert_eq!(t.create(Origin::signed(1)), Ok(()));
    assert_eq!(t.create(Origin::signed(1)), Ok(()));
    assert_eq!(
        t.breed(Origin::signed(3), 0, 1),
        Err(DispatchError::Module(Error::CreateKittyNeedDotsAsReserved))
    );
    assert_eq!(t.kitties.kitty_owner(2), Some(3));
    assert_eq!(t.kitties.get_parents(2), Some((0, 1)));
    assert_eq!(t.free_balance(3), 100);
}

#[test]
fn created_dna_comes_from_the_block_seed() {
    let mut t = Test::new_test_ext();
    t.run_to_block(10);
    assert_eq!(t.create(Origin::signed(1)), Ok(()));
    let seed = t.system.random_seed();
    assert_eq!(t.kitties.kitties(0).unwrap().0, Module::rand_value(1, seed, None));
}
