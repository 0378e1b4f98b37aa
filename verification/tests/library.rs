use pallet_kitties::{
    breed_dna, combie_dna, ensure_signed, DispatchError, Error, Event, Module, Origin, Runtime, Trait,
};

fn module_with_two_kitties() -> Module {
    let mut m = Module::new(5000);
    assert_eq!(m.create_with_dna(1, true, 10, [0xAA; 16]), Ok(()));
    assert_eq!(m.create_with_dna(1, true, 10, [0x55; 16]), Ok(()));
    m
}

#[test]
fn combie_dna_takes_bits_by_selector() {
    assert_eq!(combie_dna(0b1010_1010, 0b0101_0101, 0b1111_0000), 0b1010_0101);
    assert_eq!(combie_dna(0x12, 0x34, 0xff), 0x12);
    assert_eq!(combie_dna(0x12, 0x34, 0x00), 0x34);
    assert_eq!(combie_dna(0x9c, 0x9c, 0x5a), 0x9c);
}

#[test]
fn breed_dna_mixes_each_byte() {
    let mut selector = [0u8; 16];
    selector[0] = 0xff;
    selector[15] = 0x0f;
    let dna = breed_dna([0xAA; 16], [0x55; 16], selector);
    assert_eq!(dna[0], 0xAA);
    assert_eq!(dna[1], 0x55);
    assert_eq!(dna[15], 0x5A);
}

#[test]
fn rand_value_is_blake2_of_scale_payload() {
    assert_eq!(
        Module::rand_value(1, [0u8; 32], None),
        [94, 85, 93, 3, 146, 178, 228, 254, 65, 171, 235, 35, 69, 153, 176, 209]
    );
    assert_eq!(
        Module::rand_value(1, [0u8; 32], Some(2)),
        [228, 214, 85, 169, 132, 215, 21, 172, 171, 117, 145, 143, 200, 147, 0, 88]
    );
    let mut seed = [0u8; 32];
    for (i, b) in seed.iter_mut().enumerate() {
        *b = i as u8;
    }
    assert_eq!(
        Module::rand_value(7, seed, None),
        [70, 96, 28, 2, 19, 162, 112, 224, 78, 2, 63, 49, 89, 188, 116, 58]
    );
}

#[test]
fn ensure_signed_accepts_only_signed_origins() {
    assert_eq!(ensure_signed(Origin::signed(7)), Ok(7));
    assert_eq!(ensure_signed(Origin::Root), Err(DispatchError::BadOrigin));
    assert_eq!(ensure_signed(Origin::Unsigned), Err(DispatchError::BadOrigin));
}

#[test]
fn create_stores_the_random_dna() {
    let mut m = Module::new(5000);
    assert_eq!(m.create_reserved(1, true, 3, [0u8; 32], None), Ok(()));
    assert_eq!(
        m.kitties(0).unwrap().0,
        [94, 85, 93, 3, 146, 178, 228, 254, 65, 171, 235, 35, 69, 153, 176, 209]
    );
    assert_eq!(m.kitties_count(), 1);
    assert_eq!(m.get_someone_kitties(1), Some(vec![0]));
    assert_eq!(m.events().clone(), vec![Event::LockFunds(1, 5000, 3), Event::NewKitty(1, 0)]);
}

#[test]
fn create_without_reservation_changes_nothing() {
    let mut m = Module::new(5000);
    assert_eq!(
        m.create_with_dna(1, false, 3, [1; 16]),
        Err(DispatchError::Module(Error::CreateKittyNeedDotsAsReserved))
    );
    assert_eq!(m.kitties_count(), 0);
    assert!(m.kitties(0).is_none());
    assert!(m.events().is_empty());
    assert_eq!(m.get_someone_kitties(1), None);
}

#[test]
fn kitty_indices_are_sequential() {
    let mut m = module_with_two_kitties();
    assert_eq!(m.next_kitty_id(), Ok(2));
    assert_eq!(m.do_breed_with_selector(2, 0, 1, [0; 16]), Ok(2));
    assert_eq!(m.next_kitty_id(), Ok(3));
    assert_eq!(m.kitties_count(), 3);
}

#[test]
fn bred_dna_follows_the_selector() {
    let mut m = module_with_two_kitties();
    assert_eq!(m.do_breed_with_selector(1, 0, 1, [0xff; 16]), Ok(2));
    assert_eq!(m.kitties(2).unwrap().0, [0xAA; 16]);
    assert_eq!(m.do_breed_with_selector(1, 0, 1, [0x00; 16]), Ok(3));
    assert_eq!(m.kitties(3).unwrap().0, [0x55; 16]);
    assert_eq!(m.do_breed_with_selector(1, 0, 1, [0xf0; 16]), Ok(4));
    assert_eq!(m.kitties(4).unwrap().0, [0xA5; 16]);
}

#[test]
fn breeding_same_dna_keeps_it() {
    let mut m = Module::new(5000);
    assert_eq!(m.create_with_dna(1, true, 10, [0x3c; 16]), Ok(()));
    assert_eq!(m.create_with_dna(2, true, 10, [0x3c; 16]), Ok(()));
    assert_eq!(m.do_breed_with_selector(3, 0, 1, [0x5a; 16]), Ok(2));
    assert_eq!(m.kitties(2).unwrap().0, [0x3c; 16]);
}

#[test]
fn do_breed_uses_the_random_selector() {
    let mut m = Module::new(5000);
    assert_eq!(m.create_with_dna(1, true, 10, [0xff; 16]), Ok(()));
    assert_eq!(m.create_with_dna(1, true, 10, [0x00; 16]), Ok(()));
    assert_eq!(m.do_breed(1, 0, 1, [0u8; 32], None), Ok(2));
    assert_eq!(
        m.kitties(2).unwrap().0,
        [94, 85, 93, 3, 146, 178, 228, 254, 65, 171, 235, 35, 69, 153, 176, 209]
    );
}

#[test]
fn lovers_are_symmetric_and_counted_per_breeding() {
    let mut m = module_with_two_kitties();
    assert_eq!(m.do_breed_with_selector(1, 0, 1, [0; 16]), Ok(2));
    assert_eq!(m.do_breed_with_selector(1, 1, 0, [0; 16]), Ok(3));
    assert_eq!(m.get_all_lovers(0), Some(vec![1, 1]));
    assert_eq!(m.get_all_lovers(1), Some(vec![0, 0]));
    assert_eq!(m.get_all_lovers(2), None);
    assert_eq!(m.get_all_children((0, 1)), Some(vec![2]));
    assert_eq!(m.get_all_children((1, 0)), Some(vec![3]));
    assert_eq!(m.get_parents(3), Some((1, 0)));
    assert_eq!(m.get_parents(0), None);
}

#[test]
fn anyone_may_breed_and_owns_the_child() {
    let mut m = module_with_two_kitties();
    assert_eq!(m.do_breed_with_selector(9, 0, 1, [0; 16]), Ok(2));
    assert_eq!(m.kitty_owner(2), Some(9));
    assert_eq!(m.get_someone_kitties(9), Some(vec![2]));
}

#[test]
fn breed_errors_change_nothing() {
    let mut m = module_with_two_kitties();
    assert_eq!(
        m.do_breed_with_selector(1, 1, 1, [0; 16]),
        Err(DispatchError::Module(Error::RequireTwoDifferentCat))
    );
    assert_eq!(
        m.do_breed_with_selector(1, 0, 5, [0; 16]),
        Err(DispatchError::Module(Error::InvalidKityyId))
    );
    assert_eq!(
        m.do_breed_with_selector(1, 5, 0, [0; 16]),
        Err(DispatchError::Module(Error::InvalidKityyId))
    );
    assert_eq!(m.kitties_count(), 2);
    assert_eq!(m.get_all_lovers(0), None);
    assert_eq!(m.events().len(), 4);
}

#[test]
fn finish_breed_without_reservation_keeps_the_child() {
    let mut m = module_with_two_kitties();
    assert_eq!(m.do_breed_with_selector(1, 0, 1, [0; 16]), Ok(2));
    assert_eq!(
        m.finish_breed(1, 2, false, 10),
        Err(DispatchError::Module(Error::CreateKittyNeedDotsAsReserved))
    );
    assert_eq!(m.kitty_owner(2), Some(1));
    assert_eq!(m.events().len(), 4);
    assert_eq!(m.finish_breed(1, 2, true, 11), Ok(()));
    assert_eq!(m.events()[4], Event::LockFunds(1, 5000, 11));
    assert_eq!(m.events()[5], Event::NewKitty(1, 2));
}

#[test]
fn transfer_moves_ownership_and_lists() {
    let mut m = module_with_two_kitties();
    assert_eq!(m.ensure_transferable(1, 0), Ok(()));
    assert_eq!(m.transfer_reserved(1, 2, 0, true, 7), Ok(()));
    assert_eq!(m.kitty_owner(0), Some(2));
    assert_eq!(m.get_someone_kitties(1), Some(vec![1]));
    assert_eq!(m.get_someone_kitties(2), Some(vec![0]));
    assert_eq!(m.events()[4], Event::UnlockFunds(1, 5000, 7));
    assert_eq!(m.events()[5], Event::LockFunds(2, 5000, 7));
    assert_eq!(m.events()[6], Event::Transfered(1, 2, 0));
}

#[test]
fn transfer_errors() {
    let mut m = module_with_two_kitties();
    assert_eq!(m.ensure_transferable(1, 9), Err(DispatchError::Module(Error::InvalidKityyId)));
    assert_eq!(m.ensure_transferable(2, 0), Err(DispatchError::Module(Error::NotKittyOwner)));
    assert_eq!(m.transfer_reserved(1, 2, 9, true, 7), Err(DispatchError::Module(Error::InvalidKityyId)));
    assert_eq!(m.transfer_reserved(2, 3, 0, true, 7), Err(DispatchError::Module(Error::NotKittyOwner)));
    assert_eq!(
        m.transfer_reserved(1, 2, 0, false, 7),
        Err(DispatchError::Module(Error::CreateKittyNeedDotsAsReserved))
    );
    assert_eq!(m.kitty_owner(0), Some(1));
    assert_eq!(m.get_someone_kitties(1), Some(vec![0, 1]));
    assert_eq!(m.events().len(), 4);
}

#[test]
fn transfer_to_self_moves_kitty_to_end_of_list() {
    let mut m = module_with_two_kitties();
    assert_eq!(m.transfer_reserved(1, 1, 0, true, 7), Ok(()));
    assert_eq!(m.kitty_owner(0), Some(1));
    assert_eq!(m.get_someone_kitties(1), Some(vec![1, 0]));
}

#[test]
fn transfer_round_trip_restores_owners() {
    let mut m = module_with_two_kitties();
    assert_eq!(m.transfer_reserved(1, 2, 0, true, 7), Ok(()));
    assert_eq!(m.transfer_reserved(2, 1, 0, true, 8), Ok(()));
    assert_eq!(m.kitty_owner(0), Some(1));
    assert_eq!(m.kitty_owner(1), Some(1));
    assert_eq!(m.get_someone_kitties(1), Some(vec![1, 0]));
    assert_eq!(m.get_someone_kitties(2), Some(vec![]));
}

#[test]
fn insert_parents_records_the_pair() {
    let mut m = Module::new(1);
    m.insert_parents(4, 1, 2);
    assert_eq!(m.get_parents(4), Some((1, 2)));
    assert_eq!(m.get_parents(1), None);
}

#[test]
fn new_module_is_empty() {
    let m = Module::new(42);
    assert_eq!(m.one_kitty_price(), 42);
    assert_eq!(m.kitties_count(), 0);
    assert_eq!(m.kitty_owner(0), None);
    assert_eq!(m.get_someone_kitties(1), None);
    assert_eq!(m.get_all_children((0, 1)), None);
    assert!(m.events().is_empty());
}

/// A runtime that records what it is asked and answers from fixed values.
struct Recorder {
    requests: Vec<String>,
    reserve_ok: bool,
}

impl Trait for Recorder {
    fn reserve(&mut self, who: u64, value: u64) -> bool {
        self.requests.push(format!("reserve {} {}", who, value));
        self.reserve_ok
    }

    fn unreserve(&mut self, who: u64, value: u64) {
        self.requests.push(format!("unreserve {} {}", who, value));
    }

    fn block_number(&self) -> u64 {
        42
    }

    fn random_seed(&self) -> [u8; 32] {
        [0u8; 32]
    }

    fn extrinsic_index(&self) -> Option<u32> {
        None
    }
}

#[test]
fn calls_ask_the_runtime_for_the_price() {
    let mut m = Module::new(5000);
    let mut rt = Runtime::new(Recorder { requests: Vec::new(), reserve_ok: true });
    assert_eq!(m.create(&mut rt, Origin::signed(1)), Ok(()));
    assert_eq!(m.create(&mut rt, Origin::signed(1)), Ok(()));
    assert_eq!(m.transfer(&mut rt, Origin::signed(1), 2, 0), Ok(()));
    assert_eq!(m.breed(&mut rt, Origin::signed(3), 0, 1), Ok(()));
    assert_eq!(
        rt.host().requests,
        vec!["reserve 1 5000", "reserve 1 5000", "unreserve 1 5000", "reserve 2 5000", "reserve 3 5000"]
    );
    assert_eq!(
        m.kitties(0).unwrap().0,
        [94, 85, 93, 3, 146, 178, 228, 254, 65, 171, 235, 35, 69, 153, 176, 209]
    );
    assert_eq!(m.events()[0], Event::LockFunds(1, 5000, 42));
}

#[test]
fn refused_calls_ask_the_runtime_nothing_more() {
    let mut m = Module::new(5000);
    let mut rt = Runtime::new(Recorder { requests: Vec::new(), reserve_ok: false });
    assert_eq!(
        m.create(&mut rt, Origin::signed(1)),
        Err(DispatchError::Module(Error::CreateKittyNeedDotsAsReserved))
    );
    assert_eq!(m.transfer(&mut rt, Origin::signed(1), 2, 0), Err(DispatchError::Module(Error::InvalidKityyId)));
    assert_eq!(m.breed(&mut rt, Origin::signed(1), 0, 0), Err(DispatchError::Module(Error::RequireTwoDifferentCat)));
    assert_eq!(m.create(&mut rt, Origin::Root), Err(DispatchError::BadOrigin));
    assert_eq!(rt.into_host().requests, vec!["reserve 1 5000"]);
    assert_eq!(m.kitties_count(), 0);
}

#[test]
fn insert_parents_leaves_calls_possible() {
    let mut m = module_with_two_kitties();
    m.insert_parents(5, 0, 1);
    assert_eq!(m.get_parents(5), Some((0, 1)));
    assert_eq!(m.create_with_dna(2, true, 3, [9; 16]), Ok(()));
    assert_eq!(m.transfer_reserved(1, 2, 0, true, 4), Ok(()));
    assert_eq!(m.kitty_owner(0), Some(2));
}
