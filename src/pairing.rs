//! Tethering colliding entities two by two: each entity is tethered at most
//! once for as long as the pairing lives, first come, first served.

use std::collections::HashSet;
use vstd::prelude::*;

verus! {

broadcast use vstd::std_specs::hash::group_hash_axioms;

/// An entity that collides this tick, with the partners it touches that
/// can be tethered to it, in the order reported.
#[derive(Debug)]
pub struct Contact {
    pub entity: u64,
    pub partners: Vec<u64>,
}

/// The entities that the tethers of a sequence join.
pub open spec fn endpoints(links: Seq<(u64, u64)>) -> Set<u64> {
    Set::new(|x: u64| exists|i: int| 0 <= i < links.len() && (links[i].0 == x || links[i].1 == x))
}

/// No entity is in two tethers, and no tether joins an entity to itself.
pub open spec fn disjoint(links: Seq<(u64, u64)>) -> bool {
    &&& forall|i: int| 0 <= i < links.len() ==> links[i].0 != links[i].1
    &&& forall|i: int, j: int|
        0 <= i < j < links.len() ==> links[i].0 != links[j].0 && links[i].0 != links[j].1
            && links[i].1 != links[j].0 && links[i].1 != links[j].1
}

/// The tether joins an entity to one of the partners it was reported with.
pub open spec fn from_contact(link: (u64, u64), contacts: Seq<Contact>) -> bool {
    exists|j: int|
        0 <= j < contacts.len() && #[trigger] contacts[j].entity == link.0
            && contacts[j].partners@.contains(link.1)
}

/// Each tether joins an entity to one of the partners it was reported with.
pub open spec fn reported(links: Seq<(u64, u64)>, contacts: Seq<Contact>) -> bool {
    forall|i: int| 0 <= i < links.len() ==> from_contact(#[trigger] links[i], contacts)
}

/// No reported pair of two distinct entities is left with both ends free.
pub open spec fn maximal(linked: Set<u64>, contacts: Seq<Contact>) -> bool {
    forall|j: int, k: int|
        0 <= j < contacts.len() && 0 <= k < contacts[j].partners.len()
            && contacts[j].partners[k] != contacts[j].entity ==> linked.contains(contacts[j].entity)
            || linked.contains(#[trigger] contacts[j].partners[k])
}

/// The set of entities tethered so far.
pub struct JointPairing {
    linked: HashSet<u64>,
}

impl View for JointPairing {
    type V = Set<u64>;

    closed spec fn view(&self) -> Set<u64> {
        self.linked@
    }
}

impl JointPairing {
    /// No entity tethered yet.
    pub fn new() -> (r: JointPairing)
        ensures
            r@ == Set::<u64>::empty(),
    {
        JointPairing { linked: HashSet::new() }
    }

    /// Whether `entity` has been tethered.
    pub fn is_linked(&self, entity: u64) -> (r: bool)
        ensures
            r == self@.contains(entity),
    {
        self.linked.contains(&entity)
    }

    /// Tethers the entities that collide this tick, going through the
    /// contacts and their partners in order, and returns the new tethers.
    /// An entity already tethered is never tethered again: each new tether
    /// joins two free entities, and when it is done no reported pair is left
    /// with both ends free.
    pub fn create_distance_joints(&mut self, contacts: &Vec<Contact>) -> (r: Vec<(u64, u64)>)
        ensures
            final(self)@ == old(self)@ + endpoints(r@),
            disjoint(r@),
            forall|i: int|
                0 <= i < r@.len() ==> !old(self)@.contains(r@[i].0) && !old(self)@.contains(
                    r@[i].1,
                ),
            reported(r@, contacts@),
            maximal(final(self)@, contacts@),
    {
        let mut links: Vec<(u64, u64)> = Vec::new();
        let mut i: usize = 0;
        while i < contacts.len()
            invariant
                0 <= i <= contacts@.len(),
                self@ == old(self)@ + endpoints(links@),
                disjoint(links@),
                forall|m: int|
                    0 <= m < links@.len() ==> !old(self)@.contains(links@[m].0)
                        && !old(self)@.contains(links@[m].1),
                reported(links@, contacts@),
                maximal(self@, contacts@.take(i as int)),
            decreases contacts.len() - i,
        {
            let contact = &contacts[i];
            let a = contact.entity;
            let mut k: usize = 0;
            while k < contact.partners.len()
                invariant
                    0 <= i < contacts@.len(),
                    contact == contacts@[i as int],
                    a == contact.entity,
                    0 <= k <= contact.partners@.len(),
                    self@ == old(self)@ + endpoints(links@),
                    disjoint(links@),
                    forall|m: int|
                        0 <= m < links@.len() ==> !old(self)@.contains(links@[m].0)
                            && !old(self)@.contains(links@[m].1),
                    reported(links@, contacts@),
                    maximal(self@, contacts@.take(i as int)),
                    forall|q: int|
                        0 <= q < k && contact.partners@[q] != a ==> self@.contains(a)
                            || self@.contains(#[trigger] contact.partners@[q]),
                decreases contact.partners.len() - k,
            {
                let b = contact.partners[k];
                if b != a && !self.linked.contains(&a) && !self.linked.contains(&b) {
                    let ghost before = links@;
                    links.push((a, b));
                    self.linked.insert(a);
                    self.linked.insert(b);
                    proof {
                        assert(links@[links@.len() - 1] == (a, b));
                        assert forall|m: int| 0 <= m < before.len() implies links@[m] == before[m] by {}
                        assert forall|m: int| 0 <= m < before.len() implies links@[m].0 != a
                            && links@[m].1 != a && links@[m].0 != b && links@[m].1 != b by {
                            assert(endpoints(before).contains(before[m].0));
                            assert(endpoints(before).contains(before[m].1));
                        }
                        assert(self@ =~= old(self)@ + endpoints(links@)) by {
                            assert forall|x: u64| endpoints(links@).contains(x) <==> (endpoints(
                                before,
                            ).contains(x) || x == a || x == b) by {
                                if endpoints(links@).contains(x) {
                                    let m = choose|m: int|
                                        0 <= m < links@.len() && (links@[m].0 == x || links@[m].1
                                            == x);
                                    if m < before.len() {
                                        assert(endpoints(before).contains(x));
                                    }
                                }
                                if endpoints(before).contains(x) {
                                    let m = choose|m: int|
                                        0 <= m < before.len() && (before[m].0 == x || before[m].1
                                            == x);
                                    assert(links@[m] == before[m]);
                                }
                                if x == a || x == b {
                                    assert(links@[links@.len() - 1] == (a, b));
                                }
                            }
                        }
                        assert(contact.partners@.contains(b)) by {
                            assert(contact.partners@[k as int] == b);
                        }
                        assert forall|m: int| 0 <= m < links@.len() implies from_contact(
                            #[trigger] links@[m],
                            contacts@,
                        ) by {
                            if m == links@.len() - 1 {
                                assert(contacts@[i as int].partners@.contains(links@[m].1));
                                assert(contacts@[i as int].entity == links@[m].0);
                            } else {
                                assert(links@[m] == before[m]);
                            }
                        }
                    }
                }
                k = k + 1;
            }
            proof {
                assert forall|j: int, q: int|
                    0 <= j < contacts@.take(i + 1).len() && 0 <= q < contacts@.take(
                        i + 1,
                    )[j].partners.len() && contacts@.take(i + 1)[j].partners[q] != contacts@.take(
                        i + 1,
                    )[j].entity implies self@.contains(contacts@.take(i + 1)[j].entity)
                    || self@.contains(#[trigger] contacts@.take(i + 1)[j].partners[q]) by {
                    if j < i {
                        assert(contacts@.take(i as int)[j] == contacts@[j]);
                    } else {
                        assert(contacts@.take(i + 1)[j] == contacts@[i as int]);
                        assert(contact.partners@[q] == contact.partners[q]);
                    }
                }
            }
            i = i + 1;
        }
        proof {
            assert(contacts@.take(contacts@.len() as int) =~= contacts@);
        }
        links
    }
}

/// Whether some tether joins `a` and `b`.
pub open spec fn tethered(links: Seq<(u64, u64)>, a: u64, b: u64) -> bool {
    exists|i: int| 0 <= i < links.len() && (#[trigger] links[i] == (a, b) || links[i] == (b, a))
}

/// Of the outcomes that `create_distance_joints` allows: an entity that
/// collides with two partners in one tick is tethered to at most one of
/// them; and if it stays free, both partners were taken by other tethers.
pub proof fn lemma_one_partner_each(
    before: Set<u64>,
    after: Set<u64>,
    links: Seq<(u64, u64)>,
    contacts: Seq<Contact>,
    j: int,
    b: u64,
    c: u64,
)
    requires
        after == before + endpoints(links),
        disjoint(links),
        maximal(after, contacts),
        0 <= j < contacts.len(),
        contacts[j].partners@.contains(b),
        contacts[j].partners@.contains(c),
        b != c,
        b != contacts[j].entity,
        c != contacts[j].entity,
    ensures
        !(tethered(links, contacts[j].entity, b) && tethered(links, contacts[j].entity, c)),
        after.contains(contacts[j].entity) || (after.contains(b) && after.contains(c)),
{
    let a = contacts[j].entity;
    if tethered(links, a, b) && tethered(links, a, c) {
        let p = choose|p: int| 0 <= p < links.len() && (#[trigger] links[p] == (a, b) || links[p] == (b, a));
        let q = choose|q: int| 0 <= q < links.len() && (#[trigger] links[q] == (a, c) || links[q] == (c, a));
        assert(p != q);
    }
    let kb = choose|k: int| 0 <= k < contacts[j].partners@.len() && contacts[j].partners@[k] == b;
    let kc = choose|k: int| 0 <= k < contacts[j].partners@.len() && contacts[j].partners@[k] == c;
    assert(contacts[j].partners[kb] == b);
    assert(contacts[j].partners[kc] == c);
}

} // verus!
