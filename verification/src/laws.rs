use vstd::prelude::*;
use crate::consistency::{
    lemma_add_lovers_count, lemma_filter_identity, lemma_filter_other_than, lemma_transfer_wf,
};
use crate::dna::{lemma_breed_same_dna, lemma_combie_dna_bitwise, spec_breed_dna, spec_combie_dna};
use crate::origin::{DispatchError, Error};
use crate::pallet::{other_than, Event, KittiesState};
use crate::hashing::{blake2_128_of, seed_payload};
use crate::runtime::RuntimeCall;

verus! {

broadcast use vstd::seq_lib::group_seq_properties;

/// `t` keeps what `s` had: no kitty disappears or changes its DNA, no owner
/// record disappears, the count does not go down, and the events of `s` come
/// first in `t`.
pub open spec fn keeps_history(s: KittiesState, t: KittiesState) -> bool {
    &&& s.kitties.submap_of(t.kitties)
    &&& s.kitties_count <= t.kitties_count
    &&& forall|k: u32| #[trigger] s.kitty_owners.contains_key(k) ==> t.kitty_owners.contains_key(k)
    &&& t.events.len() >= s.events.len()
    &&& t.events.subrange(0, s.events.len() as int) == s.events
}

/// The kitties are exactly those with an index below `kitties_count`, and
/// each carries 16 bytes of DNA.
pub proof fn law_kitty_indices(s: KittiesState, id: u32)
    requires
        s.wf(),
    ensures
        s.kitties.contains_key(id) <==> id < s.kitties_count,
        s.kitties.contains_key(id) ==> s.kitties[id].len() == 16,
{
}

/// Every kitty has exactly one owner, and an account's list holds exactly the
/// kitties it owns.
pub proof fn law_ownership(s: KittiesState, id: u32, who: u64)
    requires
        s.wf(),
    ensures
        s.kitties.contains_key(id) <==> s.kitty_owners.contains_key(id),
        (s.kitty_owners.contains_key(id) && s.kitty_owners[id] == who) <==> s.owned_by(who).contains(id),
{
    if s.kitty_owners.contains_key(id) {
        assert(s.owned_by(s.kitty_owners[id]).contains(id));
    }
}

/// A kitty lists another as a partner once for every kitty bred from the
/// two of them (in either order).
pub proof fn law_lovers_count(s: KittiesState, a: u32, b: u32)
    requires
        s.family_wf(),
    ensures
        s.lovers_of(a).to_multiset().count(b) == s.children_of((a, b)).len() + s.children_of((b, a)).len(),
{
}

/// A kitty lists another as a partner exactly as often as the other lists
/// it.
pub proof fn law_lovers_symmetric(s: KittiesState, a: u32, b: u32)
    requires
        s.family_wf(),
    ensures
        s.lovers_of(a).to_multiset().count(b) == s.lovers_of(b).to_multiset().count(a),
        s.lovers_of(a).contains(b) <==> s.lovers_of(b).contains(a),
{
    law_lovers_count(s, a, b);
    law_lovers_count(s, b, a);
}

/// Recording two kitties as each other's partners keeps the partner
/// relation symmetric.
pub proof fn law_add_lovers_symmetric(s: KittiesState, k1: u32, k2: u32)
    requires
        s.lovers_symmetric(),
    ensures
        s.add_lovers(k1, k2).lovers_symmetric(),
{
    let t = s.add_lovers(k1, k2);
    assert forall|a: u32, b: u32| #[trigger] t.lovers_of(a).to_multiset().count(b)
        == t.lovers_of(b).to_multiset().count(a) by {
        lemma_add_lovers_count(s, k1, k2, a, b);
        lemma_add_lovers_count(s, k1, k2, b, a);
        assert(s.lovers_of(a).to_multiset().count(b) == s.lovers_of(b).to_multiset().count(a));
    }
}

/// Appending a kitty to an account's list and removing it again restores
/// the state, when the list was stored and did not hold that kitty.
pub proof fn law_add_then_remove_owned(s: KittiesState, who: u64, id: u32)
    requires
        s.someone_kitties.contains_key(who),
        !s.owned_by(who).contains(id),
    ensures
        s.add_owned(who, id).remove_owned(who, id) == s,
{
    let l = s.owned_by(who);
    reveal_with_fuel(Seq::<_>::filter, 1);
    assert(l.push(id).drop_last() =~= l);
    lemma_filter_identity(l, id);
    assert(s.add_owned(who, id).remove_owned(who, id).someone_kitties =~= s.someone_kitties);
    assert(s.add_owned(who, id).remove_owned(who, id) =~= s);
}

/// Removing a kitty from an account's list twice is removing it once.
pub proof fn law_remove_owned_idempotent(s: KittiesState, who: u64, id: u32)
    ensures
        s.remove_owned(who, id).remove_owned(who, id) == s.remove_owned(who, id),
{
    let l = s.owned_by(who).filter(other_than(id));
    lemma_filter_other_than(s.owned_by(who), id, id);
    lemma_filter_identity(l, id);
    assert(s.remove_owned(who, id).remove_owned(who, id).someone_kitties =~= s.remove_owned(
        who,
        id,
    ).someone_kitties);
    assert(s.remove_owned(who, id).remove_owned(who, id) =~= s.remove_owned(who, id));
}

/// The family tree has no cycles: a bred kitty's two parents are distinct
/// kitties with smaller indices, and it is listed among their children.
pub proof fn law_family_tree(s: KittiesState, c: u32)
    requires
        s.wf(),
        s.family_wf(),
        s.parents.contains_key(c),
    ensures
        s.parents[c].0 < c,
        s.parents[c].1 < c,
        s.parents[c].0 != s.parents[c].1,
        s.kitties.contains_key(s.parents[c].0),
        s.kitties.contains_key(s.parents[c].1),
        s.children_of(s.parents[c]).contains(c),
{
    assert(s.kitties.contains_key(c));
    assert(s.kitties.contains_key(s.parents[c].0));
    assert(s.kitties.contains_key(s.parents[c].1));
}

/// A kitty is listed among the children of a pair exactly when that pair is
/// its parents.
pub proof fn law_children_match_parents(s: KittiesState, p: (u32, u32), c: u32)
    requires
        s.family_wf(),
    ensures
        s.children_of(p).contains(c) <==> (s.parents.contains_key(c) && s.parents[c] == p),
{
    if s.parents.contains_key(c) && s.parents[c] == p {
        assert(s.children_of(s.parents[c]).contains(c));
    }
}

/// No call loses anything: every kitty, its DNA and its owner record stay,
/// and events are only appended.
pub proof fn law_calls_keep_history(
    s: KittiesState,
    sender: u64,
    to: u64,
    id: u32,
    k1: u32,
    k2: u32,
    reserved: bool,
    now: u64,
    dna: Seq<u8>,
    selector: Seq<u8>,
)
    requires
        s.wf(),
    ensures
        keeps_history(s, s.create_step(sender, reserved, now, dna).0),
        keeps_history(s, s.transfer_step(sender, to, id, reserved, now).0),
        keeps_history(s, s.do_breed_step(sender, k1, k2, selector).0),
        keeps_history(s, s.finish_breed_step(sender, id, reserved, now).0),
{
    let c = s.create_step(sender, reserved, now, dna).0;
    let t = s.transfer_step(sender, to, id, reserved, now).0;
    let b = s.do_breed_step(sender, k1, k2, selector).0;
    let f = s.finish_breed_step(sender, id, reserved, now).0;
    assert(!s.kitties.contains_key(s.kitties_count));
    assert(c.events.subrange(0, s.events.len() as int) =~= s.events);
    assert(t.events.subrange(0, s.events.len() as int) =~= s.events);
    assert(b.events.subrange(0, s.events.len() as int) =~= s.events);
    assert(f.events.subrange(0, s.events.len() as int) =~= s.events);
}

/// A call the pallet refuses leaves its storage as it was.  Only `create`
/// refused because every kitty index is used has changed something: the
/// price was reserved first, so its `LockFunds` event stands.
pub proof fn law_refused_calls_change_nothing(
    s: KittiesState,
    sender: u64,
    to: u64,
    id: u32,
    k1: u32,
    k2: u32,
    reserved: bool,
    now: u64,
    dna: Seq<u8>,
    selector: Seq<u8>,
)
    ensures
        s.create_step(sender, reserved, now, dna).1 == Err::<(), DispatchError>(
            DispatchError::Module(Error::KittyCountOverflow),
        ) ==> s.create_step(sender, reserved, now, dna).0 == s.with_event(
            Event::LockFunds(sender, s.one_kitty_price, now),
        ),
        s.create_step(sender, reserved, now, dna).1 == Err::<(), DispatchError>(
            DispatchError::Module(Error::CreateKittyNeedDotsAsReserved),
        ) ==> s.create_step(sender, reserved, now, dna).0 == s,
        s.transfer_step(sender, to, id, reserved, now).1 is Err ==> s.transfer_step(
            sender,
            to,
            id,
            reserved,
            now,
        ).0 == s,
        s.do_breed_step(sender, k1, k2, selector).1 is Err ==> s.do_breed_step(
            sender,
            k1,
            k2,
            selector,
        ).0 == s,
        s.finish_breed_step(sender, id, reserved, now).1 is Err ==> s.finish_breed_step(
            sender,
            id,
            reserved,
            now,
        ).0 == s,
{
}

/// A successful `create` gives `sender` a new kitty with the next index and
/// the given DNA, appended to `sender`'s list, and changes no other kitty.
pub proof fn law_create_gives_next_kitty(s: KittiesState, sender: u64, now: u64, dna: Seq<u8>)
    requires
        s.wf(),
        s.kitties_count < u32::MAX,
    ensures
        ({
            let (t, r) = s.create_step(sender, true, now, dna);
            let id = s.kitties_count;
            &&& r is Ok
            &&& !s.kitties.contains_key(id)
            &&& t.kitties == s.kitties.insert(id, dna)
            &&& t.kitties_count == id + 1
            &&& t.kitty_owners == s.kitty_owners.insert(id, sender)
            &&& t.owned_by(sender) == s.owned_by(sender).push(id)
            &&& t.events == s.events.push(Event::LockFunds(sender, s.one_kitty_price, now)).push(
                Event::NewKitty(sender, id),
            )
        }),
{
}

/// A successful breeding gives `sender` a new kitty with the next index,
/// records both kitties as its parents and each as the other's partner, and
/// leaves both parents as they were.
pub proof fn law_breed_gives_next_kitty(s: KittiesState, sender: u64, k1: u32, k2: u32, selector: Seq<u8>)
    requires
        s.wf(),
        s.do_breed_step(sender, k1, k2, selector).1 is Ok,
    ensures
        ({
            let (t, r) = s.do_breed_step(sender, k1, k2, selector);
            let id = s.kitties_count;
            &&& r == Ok::<u32, DispatchError>(id)
            &&& k1 != k2
            &&& !s.kitties.contains_key(id)
            &&& t.kitties == s.kitties.insert(id, spec_breed_dna(s.kitties[k1], s.kitties[k2], selector))
            &&& t.kitties_count == id + 1
            &&& t.kitty_owners[id] == sender
            &&& t.parents[id] == (k1, k2)
            &&& t.children_of((k1, k2)) == s.children_of((k1, k2)).push(id)
            &&& t.lovers_of(k1).contains(k2)
            &&& t.lovers_of(k2).contains(k1)
            &&& t.kitties[k1] == s.kitties[k1]
            &&& t.kitties[k2] == s.kitties[k2]
        }),
{
    assert(!s.kitties.contains_key(s.kitties_count));
}

/// Breeding two kitties with the same DNA gives a kitty with that DNA,
/// whatever the selector.
pub proof fn law_breed_same_dna(s: KittiesState, sender: u64, k1: u32, k2: u32, selector: Seq<u8>)
    requires
        s.wf(),
        s.do_breed_step(sender, k1, k2, selector).1 is Ok,
        s.kitties[k1] == s.kitties[k2],
    ensures
        s.do_breed_step(sender, k1, k2, selector).0.kitties[s.kitties_count] == s.kitties[k1],
{
    assert(s.kitties[k1].len() == 16);
    lemma_breed_same_dna(s.kitties[k1], selector);
}

/// A transfer by the owner, with the price reserved from the receiver,
/// succeeds and makes `to` the owner of the kitty, listed for `to` and no
/// longer for `sender`; every other kitty keeps its owner.
pub proof fn law_transfer_moves_kitty(s: KittiesState, sender: u64, to: u64, id: u32, now: u64)
    requires
        s.wf(),
        s.transfer_check(sender, id) is Ok,
    ensures
        ({
            let (t, r) = s.transfer_step(sender, to, id, true, now);
            &&& r is Ok
            &&& t.kitty_owners == s.kitty_owners.insert(id, to)
            &&& t.owned_by(to).contains(id)
            &&& sender != to ==> !t.owned_by(sender).contains(id)
            &&& t.kitties == s.kitties
        }),
{
    lemma_filter_other_than(s.owned_by(sender), id, id);
}

/// Transferring a kitty and transferring it back restores every owner.
pub proof fn law_transfer_round_trip(s: KittiesState, a: u64, b: u64, id: u32, n1: u64, n2: u64)
    requires
        s.wf(),
        s.transfer_check(a, id) is Ok,
    ensures
        ({
            let t1 = s.transfer_step(a, b, id, true, n1).0;
            let (t2, r2) = t1.transfer_step(b, a, id, true, n2);
            &&& r2 is Ok
            &&& t2.kitty_owners == s.kitty_owners
            &&& t2.kitties == s.kitties
            &&& forall|k: u32| #[trigger] t2.owned_by(a).contains(k) <==> s.owned_by(a).contains(k)
        }),
{
    let t1 = s.transfer_step(a, b, id, true, n1).0;
    lemma_transfer_wf(s, a, b, id, true, n1);
    assert(s.kitty_owners.contains_key(id));
    assert(t1.kitty_owners.insert(id, a) =~= s.kitty_owners);
    let t2 = t1.transfer_step(b, a, id, true, n2).0;
    lemma_transfer_wf(t1, b, a, id, true, n2);
    assert forall|k: u32| #[trigger] t2.owned_by(a).contains(k) <==> s.owned_by(a).contains(k) by {
        law_ownership(t2, k, a);
        law_ownership(s, k, a);
    }
}


/// A successful `create` reserves the price from the sender, then asks the
/// runtime for the random seed and the extrinsic index, in that order and
/// last, and the new kitty's DNA is the digest of exactly those answers with
/// the sender.
pub proof fn law_create_draws_dna_from_answers(
    s: KittiesState,
    sender: u64,
    now: u64,
    random_seed: [u8; 32],
    extrinsic_index: Option<u32>,
)
    requires
        s.wf(),
        s.kitties_count < u32::MAX,
    ensures
        ({
            let calls = s.create_calls(sender, true, now, random_seed, extrinsic_index);
            &&& calls.len() == 4
            &&& calls[0] == RuntimeCall::Reserve(sender, s.one_kitty_price, true)
            &&& calls[2] == RuntimeCall::RandomSeed(random_seed)
            &&& calls[3] == RuntimeCall::ExtrinsicIndex(extrinsic_index)
        }),
        ({
            let dna = blake2_128_of(seed_payload(random_seed@, sender, extrinsic_index));
            let (t, r) = s.create_step(sender, true, now, dna);
            &&& r is Ok
            &&& t.kitties[s.kitties_count] == dna
            &&& t.kitty_owners[s.kitties_count] == sender
        }),
{
}

/// The owner of an existing kitty may always transfer it; the only refusals
/// are a kitty that does not exist and a sender that does not own it.
pub proof fn law_transfer_check_exact(s: KittiesState, sender: u64, id: u32)
    requires
        s.wf(),
    ensures
        s.transfer_check(sender, id) is Ok <==> (s.kitties.contains_key(id) && s.kitty_owners[id] == sender),
        s.transfer_check(sender, id) == Err::<(), DispatchError>(DispatchError::Module(Error::InvalidKityyId))
            <==> !s.kitties.contains_key(id),
        s.transfer_check(sender, id) == Err::<(), DispatchError>(DispatchError::Module(Error::NotKittyOwner))
            <==> (s.kitties.contains_key(id) && s.kitty_owners[id] != sender),
{
}

/// Any two distinct existing kitties can be bred while an index is left,
/// whoever asks and whatever their own parents; the only refusals are the
/// same kitty twice, a missing kitty, and no index left.
pub proof fn law_breed_check_exact(s: KittiesState, k1: u32, k2: u32)
    ensures
        s.breed_check(k1, k2) is Ok <==> (k1 != k2 && s.kitties.contains_key(k1) && s.kitties.contains_key(k2)
            && s.kitties_count < u32::MAX),
        s.breed_check(k1, k2) == Err::<(), DispatchError>(DispatchError::Module(Error::RequireTwoDifferentCat))
            <==> k1 == k2,
        s.breed_check(k1, k2) == Err::<(), DispatchError>(DispatchError::Module(Error::InvalidKityyId))
            <==> (k1 != k2 && (!s.kitties.contains_key(k1) || !s.kitties.contains_key(k2))),
{
}

/// Bred DNA has 16 bytes, and each bit of byte `i` comes from the first
/// parent's byte `i` where the selector's byte `i` has that bit set, and from
/// the second parent's where it is clear.
pub proof fn law_breed_dna_bits(dna1: Seq<u8>, dna2: Seq<u8>, selector: Seq<u8>, i: int, bit: u8)
    requires
        0 <= i < 16,
        bit < 8,
    ensures
        spec_breed_dna(dna1, dna2, selector).len() == 16,
        spec_breed_dna(dna1, dna2, selector)[i] == spec_combie_dna(dna1[i], dna2[i], selector[i]),
        (spec_breed_dna(dna1, dna2, selector)[i] >> bit) & 1 == if (selector[i] >> bit) & 1 == 1 {
            (dna1[i] >> bit) & 1
        } else {
            (dna2[i] >> bit) & 1
        },
{
    lemma_combie_dna_bitwise(dna1[i], dna2[i], selector[i], bit);
}

/// A successful `breed` asks the runtime for the random seed and then the
/// extrinsic index before anything else, and the new kitty's DNA mixes its
/// parents under the digest of exactly those answers with the sender.
pub proof fn law_breed_draws_selector_from_answers(
    s: KittiesState,
    sender: u64,
    k1: u32,
    k2: u32,
    random_seed: [u8; 32],
    extrinsic_index: Option<u32>,
    now: u64,
)
    requires
        s.wf(),
        k1 != k2,
        s.kitties.contains_key(k1),
        s.kitties.contains_key(k2),
        s.kitties_count < u32::MAX,
    ensures
        ({
            let calls = s.breed_calls(sender, k1, k2, random_seed, extrinsic_index, true, now);
            &&& calls.len() == 4
            &&& calls[0] == RuntimeCall::RandomSeed(random_seed)
            &&& calls[1] == RuntimeCall::ExtrinsicIndex(extrinsic_index)
            &&& calls[2] == RuntimeCall::Reserve(sender, s.one_kitty_price, true)
        }),
        ({
            let selector = blake2_128_of(seed_payload(random_seed@, sender, extrinsic_index));
            let (t, r) = s.breed_step(sender, k1, k2, selector, true, now);
            let id = s.kitties_count;
            &&& r is Ok
            &&& t.kitty_owners[id] == sender
            &&& t.parents[id] == (k1, k2)
            &&& t.events == s.events.push(Event::LockFunds(sender, s.one_kitty_price, now)).push(
                Event::NewKitty(sender, id),
            )
            &&& forall|i: int| 0 <= i < 16 ==> #[trigger] t.kitties[id][i] == spec_combie_dna(
                s.kitties[k1][i],
                s.kitties[k2][i],
                selector[i],
            )
        }),
{
}


/// A `transfer` that passes its checks releases the price to the sender and
/// then asks to reserve it from the receiver; a successful one makes the
/// receiver the owner and deposits the release, the reservation and the
/// transfer, in that order.
pub proof fn law_transfer_moves_the_price(s: KittiesState, sender: u64, to: u64, id: u32, reserved: bool, now: u64)
    requires
        s.wf(),
        s.kitties.contains_key(id),
        s.kitty_owners[id] == sender,
    ensures
        ({
            let calls = s.transfer_calls(sender, to, id, reserved, now);
            &&& calls[0] == RuntimeCall::Unreserve(sender, s.one_kitty_price)
            &&& calls[1] == RuntimeCall::Reserve(to, s.one_kitty_price, reserved)
            &&& calls.len() == if reserved { 3nat } else { 2nat }
        }),
        reserved ==> ({
            let (t, r) = s.transfer_step(sender, to, id, true, now);
            &&& r is Ok
            &&& t.kitty_owners[id] == to
            &&& t.events == s.events.push(Event::UnlockFunds(sender, s.one_kitty_price, now)).push(
                Event::LockFunds(to, s.one_kitty_price, now),
            ).push(Event::Transfered(sender, to, id))
        }),
        !reserved ==> s.transfer_step(sender, to, id, false, now) == (s, Err::<(), DispatchError>(
            DispatchError::Module(Error::CreateKittyNeedDotsAsReserved),
        )),
{
}

} // verus!
