use vstd::prelude::*;
use crate::pallet::{other_than, Event, KittiesState};
use crate::dna::spec_breed_dna;

verus! {

broadcast use vstd::seq_lib::group_seq_properties;

/// The ownership records are consistent in any state that holds the same
/// kitties, count, owners and lists as a consistent one.
pub proof fn lemma_wf_frame(s: KittiesState, t: KittiesState)
    requires
        s.wf(),
        t.kitties == s.kitties,
        t.kitties_count == s.kitties_count,
        t.kitty_owners == s.kitty_owners,
        t.someone_kitties == s.someone_kitties,
    ensures
        t.wf(),
{
    assert forall|who: u64, k: u32| #[trigger] t.owned_by(who).contains(k) implies t.kitty_owners.contains_key(k)
        && t.kitty_owners[k] == who by {
        assert(t.owned_by(who) == s.owned_by(who));
    }
    assert forall|k: u32| #[trigger] t.kitty_owners.contains_key(k) implies t.owned_by(
        t.kitty_owners[k],
    ).contains(k) by {
        assert(t.owned_by(s.kitty_owners[k]) == s.owned_by(s.kitty_owners[k]));
    }
    assert forall|who: u64| #[trigger] t.owned_by(who).no_duplicates() by {
        assert(t.owned_by(who) == s.owned_by(who));
    }
}

/// The family records are consistent in any state that holds the same
/// parents, children and partners as a consistent one, and at least its
/// kitties.
pub proof fn lemma_family_frame(s: KittiesState, t: KittiesState)
    requires
        s.family_wf(),
        t.parents == s.parents,
        t.children == s.children,
        t.lovers == s.lovers,
        forall|k: u32| #[trigger] s.kitties.contains_key(k) ==> t.kitties.contains_key(k),
    ensures
        t.family_wf(),
{
    assert forall|p: (u32, u32), c: u32| #[trigger] t.children_of(p).contains(c) implies t.parents.contains_key(c)
        && t.parents[c] == p by {
        assert(t.children_of(p) == s.children_of(p));
    }
    assert forall|c: u32| #[trigger] t.parents.contains_key(c) implies t.children_of(t.parents[c]).contains(c) by {
        assert(t.children_of(t.parents[c]) == s.children_of(s.parents[c]));
    }
    assert forall|a: u32, b: u32| #[trigger] t.lovers_of(a).to_multiset().count(b) == t.children_of((a, b)).len()
        + t.children_of((b, a)).len() by {
        assert(t.lovers_of(a) == s.lovers_of(a));
        assert(t.children_of((a, b)) == s.children_of((a, b)));
        assert(t.children_of((b, a)) == s.children_of((b, a)));
    }
}

/// Depositing an event keeps the storage consistent.
pub proof fn lemma_with_event_wf(s: KittiesState, e: Event)
    ensures
        s.wf() ==> s.with_event(e).wf(),
        s.family_wf() ==> s.with_event(e).family_wf(),
{
    if s.wf() {
        lemma_wf_frame(s, s.with_event(e));
    }
    if s.family_wf() {
        lemma_family_frame(s, s.with_event(e));
    }
}

/// Storing a new kitty at the next index keeps the storage consistent.
pub proof fn lemma_insert_new_kitty_wf(s: KittiesState, sender: u64, dna: Seq<u8>)
    requires
        s.wf(),
        s.kitties_count < u32::MAX,
        dna.len() == 16,
    ensures
        s.insert_new_kitty(sender, s.kitties_count, dna).wf(),
        s.family_wf() ==> s.insert_new_kitty(sender, s.kitties_count, dna).family_wf(),
{
    let id = s.kitties_count;
    let t = s.insert_new_kitty(sender, id, dna);
    assert(!s.kitties.contains_key(id));
    assert(!s.owned_by(sender).contains(id));
    assert forall|who: u64, k: u32| #[trigger] t.owned_by(who).contains(k) implies t.kitty_owners.contains_key(k)
        && t.kitty_owners[k] == who by {
        if who == sender {
            if k != id {
                assert(s.owned_by(sender).contains(k));
            }
        } else {
            assert(t.owned_by(who) == s.owned_by(who));
        }
    }
    assert forall|k: u32| #[trigger] t.kitty_owners.contains_key(k) implies t.owned_by(
        t.kitty_owners[k],
    ).contains(k) by {
        if k != id {
            let who = s.kitty_owners[k];
            assert(s.owned_by(who).contains(k));
            if who == sender {
                assert(t.owned_by(who)[s.owned_by(who).index_of(k)] == k);
            } else {
                assert(t.owned_by(who) == s.owned_by(who));
            }
        } else {
            assert(t.owned_by(sender).last() == id);
        }
    }
    assert forall|who: u64| #[trigger] t.owned_by(who).no_duplicates() by {
        if who == sender {
            assert(s.owned_by(sender).no_duplicates());
        } else {
            assert(t.owned_by(who) == s.owned_by(who));
        }
    }
    if s.family_wf() {
        lemma_family_frame(s, t);
    }
}

/// `create` keeps the storage consistent, whatever the reservation gave.
pub proof fn lemma_create_wf(s: KittiesState, sender: u64, reserved: bool, now: u64, dna: Seq<u8>)
    requires
        s.wf(),
        dna.len() == 16,
    ensures
        s.create_step(sender, reserved, now, dna).0.wf(),
        s.family_wf() ==> s.create_step(sender, reserved, now, dna).0.family_wf(),
{
    if reserved {
        let locked = s.with_event(Event::LockFunds(sender, s.one_kitty_price, now));
        lemma_with_event_wf(s, Event::LockFunds(sender, s.one_kitty_price, now));
        if s.kitties_count != u32::MAX {
            lemma_insert_new_kitty_wf(locked, sender, dna);
            lemma_with_event_wf(
                locked.insert_new_kitty(sender, s.kitties_count, dna),
                Event::NewKitty(sender, s.kitties_count),
            );
        }
    }
}

/// The kitties left after removing `id` from a list are those of the list
/// other than `id`.
pub proof fn lemma_filter_other_than(s: Seq<u32>, id: u32, k: u32)
    ensures
        s.filter(other_than(id)).contains(k) <==> (s.contains(k) && k != id),
{
    let f = s.filter(other_than(id));
    if f.contains(k) {
        s.lemma_filter_contains_rev(other_than(id), k);
        let i = choose|i: int| 0 <= i < f.len() && f[i] == k;
        s.lemma_filter_pred(other_than(id), i);
    }
    if s.contains(k) && k != id {
        let i = choose|i: int| 0 <= i < s.len() && s[i] == k;
        s.lemma_filter_contains(other_than(id), i);
    }
}

/// Removing an index from a list without duplicates leaves none.
pub proof fn lemma_filter_no_duplicates(s: Seq<u32>, id: u32)
    requires
        s.no_duplicates(),
    ensures
        s.filter(other_than(id)).no_duplicates(),
    decreases s.len(),
{
    reveal_with_fuel(Seq::<_>::filter, 1);
    if s.len() > 0 {
        let rest = s.drop_last();
        assert(rest.no_duplicates());
        lemma_filter_no_duplicates(rest, id);
        if s.last() != id {
            if rest.filter(other_than(id)).contains(s.last()) {
                rest.lemma_filter_contains_rev(other_than(id), s.last());
            }
        }
    }
}

/// `transfer` keeps the storage consistent, whatever the reservation gave.
pub proof fn lemma_transfer_wf(s: KittiesState, sender: u64, to: u64, id: u32, reserved: bool, now: u64)
    requires
        s.wf(),
    ensures
        s.transfer_step(sender, to, id, reserved, now).0.wf(),
        s.family_wf() ==> s.transfer_step(sender, to, id, reserved, now).0.family_wf(),
{
    if s.transfer_check(sender, id) is Ok && reserved {
        let price = s.one_kitty_price;
        let s0 = s.with_event(Event::UnlockFunds(sender, price, now));
        lemma_with_event_wf(s, Event::UnlockFunds(sender, price, now));
        let s00 = s0.with_event(Event::LockFunds(to, price, now));
        lemma_with_event_wf(s0, Event::LockFunds(to, price, now));
        let s1 = s00.with_owner(id, to);
        let s2 = s1.remove_owned(sender, id);
        let t = s2.add_owned(to, id);
        assert(s00.kitties.contains_key(id));
        assert(s00.kitty_owners.contains_key(id));
        assert(s00.owned_by(sender).contains(id));
        assert forall|k: u32| #[trigger] t.kitty_owners.contains_key(k) implies t.owned_by(
            t.kitty_owners[k],
        ).contains(k) by {
            if k != id {
                let w = s00.kitty_owners[k];
                assert(s00.owned_by(w).contains(k));
                if w == sender {
                    lemma_filter_other_than(s00.owned_by(sender), id, k);
                    if to == sender {
                        assert(t.owned_by(w)[s2.owned_by(w).index_of(k)] == k);
                    }
                } else if w == to {
                    assert(t.owned_by(w)[s00.owned_by(w).index_of(k)] == k);
                } else {
                    assert(t.owned_by(w) == s00.owned_by(w));
                }
            } else {
                assert(t.owned_by(to).last() == id);
            }
        }
        assert forall|who: u64, k: u32| #[trigger] t.owned_by(who).contains(k) implies t.kitty_owners.contains_key(k)
            && t.kitty_owners[k] == who by {
            if who == to {
                if k != id {
                    assert(s2.owned_by(to).contains(k));
                    if to == sender {
                        lemma_filter_other_than(s00.owned_by(sender), id, k);
                    } else {
                        assert(s00.owned_by(to).contains(k));
                    }
                }
            } else if who == sender {
                lemma_filter_other_than(s00.owned_by(sender), id, k);
            } else {
                assert(t.owned_by(who) == s00.owned_by(who));
            }
        }
        assert forall|who: u64| #[trigger] t.owned_by(who).no_duplicates() by {
            if who == to {
                if to == sender {
                    lemma_filter_no_duplicates(s00.owned_by(sender), id);
                    lemma_filter_other_than(s00.owned_by(sender), id, id);
                } else {
                    assert(s00.owned_by(to).no_duplicates());
                    assert(!s00.owned_by(to).contains(id));
                    assert(s2.owned_by(to) == s00.owned_by(to));
                }
            } else if who == sender {
                lemma_filter_no_duplicates(s00.owned_by(sender), id);
            } else {
                assert(t.owned_by(who) == s00.owned_by(who));
            }
        }
        assert(t.wf());
        if s.family_wf() {
            lemma_family_frame(s00, t);
        }
        lemma_with_event_wf(t, Event::Transfered(sender, to, id));
    }
}

/// Recording that kitty `id` was bred from `k1` and `k2` (its parents, its
/// parents' children and partners) keeps the storage consistent, once kitty
/// `id` exists and is younger than both parents.
pub proof fn lemma_family_wf(u: KittiesState, id: u32, k1: u32, k2: u32)
    requires
        u.wf(),
        u.family_wf(),
        k1 != k2,
        k1 < id,
        k2 < id,
        u.kitties.contains_key(id),
        !u.parents.contains_key(id),
    ensures
        u.with_children((k1, k2), u.children_of((k1, k2)).push(id)).add_lovers(k1, k2).with_parents(
            id,
            (k1, k2),
        ).family_wf(),
{
    let t = u.with_children((k1, k2), u.children_of((k1, k2)).push(id)).add_lovers(k1, k2).with_parents(
        id,
        (k1, k2),
    );
    assert forall|p: (u32, u32), c: u32| #[trigger] t.children_of(p).contains(c) implies t.parents.contains_key(c)
        && t.parents[c] == p by {
        if p == (k1, k2) {
            if c != id {
                assert(u.children_of(p).contains(c));
            }
        } else {
            assert(t.children_of(p) == u.children_of(p));
        }
    }
    assert forall|c: u32| #[trigger] t.parents.contains_key(c) implies t.children_of(t.parents[c]).contains(c) by {
        if c == id {
            assert(t.children_of((k1, k2)).last() == id);
        } else {
            let p = u.parents[c];
            assert(u.children_of(p).contains(c));
            if p == (k1, k2) {
                assert(t.children_of(p)[u.children_of(p).index_of(c)] == c);
            } else {
                assert(t.children_of(p) == u.children_of(p));
            }
        }
    }
    assert forall|a: u32, b: u32| #[trigger] t.lovers_of(a).to_multiset().count(b) == t.children_of((a, b)).len()
        + t.children_of((b, a)).len() by {
        assert(u.lovers_of(a).to_multiset().count(b) == u.children_of((a, b)).len()
            + u.children_of((b, a)).len());
        if a == k1 {
            assert(t.lovers_of(a) == u.lovers_of(a).push(k2));
        } else if a == k2 {
            assert(t.lovers_of(a) == u.lovers_of(a).push(k1));
        } else {
            assert(t.lovers_of(a) == u.lovers_of(a));
        }
        if (a, b) == (k1, k2) {
            assert(t.children_of((a, b)) == u.children_of((a, b)).push(id));
            assert(t.children_of((b, a)) == u.children_of((b, a)));
        } else if (b, a) == (k1, k2) {
            assert(t.children_of((b, a)) == u.children_of((b, a)).push(id));
            assert(t.children_of((a, b)) == u.children_of((a, b)));
        } else {
            assert(t.children_of((a, b)) == u.children_of((a, b)));
            assert(t.children_of((b, a)) == u.children_of((b, a)));
        }
    }
}

/// Breeding keeps the storage consistent, whatever the selector.
pub proof fn lemma_do_breed_wf(s: KittiesState, sender: u64, k1: u32, k2: u32, selector: Seq<u8>)
    requires
        s.wf(),
    ensures
        s.do_breed_step(sender, k1, k2, selector).0.wf(),
        s.family_wf() ==> s.do_breed_step(sender, k1, k2, selector).0.family_wf(),
{
    if s.breed_check(k1, k2) is Ok {
        let id = s.kitties_count;
        let dna = spec_breed_dna(s.kitties[k1], s.kitties[k2], selector);
        let u = s.insert_new_kitty(sender, id, dna);
        lemma_insert_new_kitty_wf(s, sender, dna);
        assert(!s.kitties.contains_key(id));
        let s4 = s.with_children((k1, k2), s.children_of((k1, k2)).push(id)).add_lovers(k1, k2).with_parents(
            id,
            (k1, k2),
        );
        let v4 = u.with_children((k1, k2), u.children_of((k1, k2)).push(id)).add_lovers(k1, k2).with_parents(
            id,
            (k1, k2),
        );
        assert(s4.insert_new_kitty(sender, id, dna) =~= v4);
        lemma_wf_frame(u, v4);
        if s.family_wf() {
            assert(!s.parents.contains_key(id));
            lemma_family_wf(u, id, k1, k2);
        }
    }
}

/// The rest of `breed` only deposits events, so it keeps the storage
/// consistent.
pub proof fn lemma_finish_breed_wf(s: KittiesState, sender: u64, new_kitty: u32, reserved: bool, now: u64)
    ensures
        s.wf() ==> s.finish_breed_step(sender, new_kitty, reserved, now).0.wf(),
        s.family_wf() ==> s.finish_breed_step(sender, new_kitty, reserved, now).0.family_wf(),
{
    if reserved {
        let e1 = Event::LockFunds(sender, s.one_kitty_price, now);
        lemma_with_event_wf(s, e1);
        lemma_with_event_wf(s.with_event(e1), Event::NewKitty(sender, new_kitty));
    }
}

/// Recording parents touches only the family records, so the ownership
/// records stay consistent.
pub proof fn lemma_with_parents_wf(s: KittiesState, c: u32, p: (u32, u32))
    requires
        s.wf(),
    ensures
        s.with_parents(c, p).wf(),
{
    lemma_wf_frame(s, s.with_parents(c, p));
}


/// Removing `id` from a list that does not hold it changes nothing.
pub proof fn lemma_filter_identity(s: Seq<u32>, id: u32)
    requires
        !s.contains(id),
    ensures
        s.filter(other_than(id)) == s,
    decreases s.len(),
{
    reveal_with_fuel(Seq::<_>::filter, 1);
    if s.len() > 0 {
        let rest = s.drop_last();
        assert(!rest.contains(id));
        lemma_filter_identity(rest, id);
        assert(rest.push(s.last()) =~= s);
    }
}

/// How often kitty `a` lists kitty `b` after `k1` and `k2` are recorded as
/// each other's partners.
pub proof fn lemma_add_lovers_count(s: KittiesState, k1: u32, k2: u32, a: u32, b: u32)
    ensures
        s.add_lovers(k1, k2).lovers_of(a).to_multiset().count(b) == s.lovers_of(a).to_multiset().count(b)
            + (if a == k1 && b == k2 { 1int } else { 0int }) + (if a == k2 && b == k1 {
            1int
        } else {
            0int
        }),
{
    let t = s.add_lovers(k1, k2);
    if k1 == k2 {
        if a == k1 {
            assert(t.lovers_of(a) == s.lovers_of(a).push(k2).push(k1));
        } else {
            assert(t.lovers_of(a) == s.lovers_of(a));
        }
    } else if a == k1 {
        assert(t.lovers_of(a) == s.lovers_of(a).push(k2));
    } else if a == k2 {
        assert(t.lovers_of(a) == s.lovers_of(a).push(k1));
    } else {
        assert(t.lovers_of(a) == s.lovers_of(a));
    }
}

} // verus!
