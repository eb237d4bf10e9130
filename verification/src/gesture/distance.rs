use vstd::prelude::*;

use std::collections::{HashMap, HashSet};

use crate::contacts::manager::has_id;
use crate::hid::types::TouchpadContact;

verus! {

broadcast use vstd::std_specs::hash::group_hash_axioms;

/// Threshold in milliseconds before a finger is considered "released".
/// Windows Precision Touchpad sends contacts about every 10ms.
pub const RELEASE_FINGERS_THRESHOLD_MS: i64 = 15;

/// Tracks which fingers may contribute to distance measurements.
/// A quarantine keeps newly-appearing fingers out of distance calculations
/// for `RELEASE_FINGERS_THRESHOLD_MS`.
pub struct DistanceManager {
    /// Contacts in quarantine (waiting to become trusted):
    /// contact_id -> timestamp when added.
    quarantine_contacts: HashMap<i32, i64>,
    /// Contact ids that have survived quarantine and can contribute to distance.
    trusted_contacts: HashSet<i32>,
}

/// Ids of the contacts of a frame.
pub open spec fn ids_of(s: Seq<TouchpadContact>) -> Set<i32> {
    Set::new(|id: i32| has_id(s, id))
}

/// Ids that leave quarantine at `now`: still present, and quarantined more
/// than the release threshold ago.
pub open spec fn promoted(q: Map<i32, i64>, ids: Set<i32>, now: i64) -> Set<i32> {
    Set::new(
        |id: i32|
            ids.contains(id) && q.contains_key(id) && now - q[id] > RELEASE_FINGERS_THRESHOLD_MS,
    )
}

/// Trusted ids after a frame with contact ids `ids` at `now`: the trusted
/// ids still present, plus those promoted out of quarantine.
pub open spec fn trusted_after(q: Map<i32, i64>, t: Set<i32>, ids: Set<i32>, now: i64) -> Set<i32> {
    t.intersect(ids).union(promoted(q, ids, now))
}

/// Quarantine after a frame with contact ids `ids` at `now`: present ids
/// still waiting keep their timestamp, brand-new ids enter with `now`.
pub open spec fn quarantine_after(q: Map<i32, i64>, t: Set<i32>, ids: Set<i32>, now: i64) -> Map<
    i32,
    i64,
> {
    Map::new(
        |id: i32|
            ids.contains(id) && ((q.contains_key(id) && now - q[id] <= RELEASE_FINGERS_THRESHOLD_MS)
                || (!q.contains_key(id) && !t.contains(id))),
        |id: i32|
            if q.contains_key(id) {
                q[id]
            } else {
                now
            },
    )
}

/// The quarantine times of the fingers of a frame can be subtracted from
/// `now` without leaving `i64`.
pub open spec fn ages_fit(q: Map<i32, i64>, ids: Set<i32>, now: i64) -> bool {
    forall|id: i32|
        ids.contains(id) && q.contains_key(id) ==> i64::MIN <= now - #[trigger] q[id] <= i64::MAX
}

impl DistanceManager {
    pub closed spec fn quarantine(self) -> Map<i32, i64> {
        self.quarantine_contacts@
    }

    pub closed spec fn trusted(self) -> Set<i32> {
        self.trusted_contacts@
    }

    /// No id is both quarantined and trusted.
    pub open spec fn wf(self) -> bool {
        forall|id: i32| #[trigger] self.quarantine().contains_key(id) ==> !self.trusted().contains(id)
    }

    pub fn new() -> (m: Self)
        ensures
            m.quarantine() == Map::<i32, i64>::empty(),
            m.trusted() == Set::<i32>::empty(),
            m.wf(),
    {
        DistanceManager { quarantine_contacts: HashMap::new(), trusted_contacts: HashSet::new() }
    }

    /// Reset all quarantine and trusted state.
    pub fn reset(&mut self)
        ensures
            final(self).quarantine() == Map::<i32, i64>::empty(),
            final(self).trusted() == Set::<i32>::empty(),
            final(self).wf(),
    {
        self.quarantine_contacts.clear();
        self.trusted_contacts.clear();
    }

    /// Whether contact `id` may contribute to distance measurements.
    pub fn is_trusted(&self, id: i32) -> (r: bool)
        ensures
            r == self.trusted().contains(id),
    {
        self.trusted_contacts.contains(&id)
    }

    /// Whether `update_trust` can take this frame at `now`: the age of every
    /// quarantined finger of the frame fits in `i64`.
    pub fn can_update_trust(&self, new_contacts: &[TouchpadContact], now: i64) -> (r: bool)
        ensures
            r == ages_fit(self.quarantine(), ids_of(new_contacts@), now),
    {
        let mut k: usize = 0;
        while k < new_contacts.len()
            invariant
                0 <= k <= new_contacts@.len(),
                forall|j: int|
                    0 <= j < k ==> {
                        let id = (#[trigger] new_contacts@[j]).contact_id;
                        self.quarantine().contains_key(id) ==> i64::MIN <= now - self.quarantine()[id]
                            <= i64::MAX
                    },
            decreases new_contacts@.len() - k,
        {
            let id = new_contacts[k].contact_id;
            match self.quarantine_contacts.get(&id) {
                Some(ts) => {
                    let ts = *ts;
                    if (now < 0 && ts > 0 && now < i64::MIN + ts) || (now >= 0 && ts < 0 && now > i64::MAX + ts) {
                        assert(has_id(new_contacts@, id)) by {
                            assert(new_contacts@[k as int].contact_id == id);
                        }
                        return false;
                    }
                },
                None => {},
            }
            k += 1;
        }
        proof {
            assert forall|id: i32|
                ids_of(new_contacts@).contains(id) && self.quarantine().contains_key(
                    id,
                ) implies i64::MIN <= now - #[trigger] self.quarantine()[id] <= i64::MAX by {
                let j = choose|j: int| 0 <= j < new_contacts@.len() && (#[trigger] new_contacts@[j]).contact_id == id;
                assert(new_contacts@[j].contact_id == id);
            }
        }
        true
    }

    /// Update quarantine and trust for a new frame of contacts at `now`:
    /// contacts that disappeared are forgotten, quarantined contacts older
    /// than the release threshold become trusted, and brand-new contacts
    /// enter quarantine.
    pub fn update_trust(&mut self, new_contacts: &[TouchpadContact], now: i64)
        requires
            old(self).wf(),
            ages_fit(old(self).quarantine(), ids_of(new_contacts@), now),
        ensures
            final(self).wf(),
            final(self).trusted() == trusted_after(
                old(self).quarantine(),
                old(self).trusted(),
                ids_of(new_contacts@),
                now,
            ),
            final(self).quarantine() == quarantine_after(
                old(self).quarantine(),
                old(self).trusted(),
                ids_of(new_contacts@),
                now,
            ),
            // A trusted finger that is still on the pad stays trusted.
            forall|id: i32|
                old(self).trusted().contains(id) && has_id(new_contacts@, id)
                    ==> (#[trigger] final(self).trusted().contains(id)),
            // Only fingers on the pad are trusted.
            forall|id: i32| (#[trigger] final(self).trusted().contains(id)) ==> has_id(new_contacts@, id),
            // A finger newly trusted sat in quarantine longer than the threshold,
            // and every such finger on the pad is promoted.
            forall|id: i32|
                (#[trigger] final(self).trusted().contains(id)) && !old(self).trusted().contains(id)
                    ==> old(self).quarantine().contains_key(id) && now - old(self).quarantine()[id]
                    > RELEASE_FINGERS_THRESHOLD_MS,
            forall|id: i32|
                has_id(new_contacts@, id) && (#[trigger] old(self).quarantine().contains_key(id)) && now
                    - old(self).quarantine()[id] > RELEASE_FINGERS_THRESHOLD_MS
                    ==> final(self).trusted().contains(id),
            // A finger seen for the first time is quarantined from `now`, not trusted.
            forall|id: i32|
                has_id(new_contacts@, id) && !old(self).quarantine().contains_key(id) && !old(self).trusted().contains(id)
                    ==> !final(self).trusted().contains(id) && (#[trigger] final(self).quarantine().contains_key(id))
                    && final(self).quarantine()[id] == now,
    {
        let ghost q = self.quarantine();
        let ghost t = self.trusted();
        let ghost ids = ids_of(new_contacts@);
        // Forget contacts that don't exist anymore.
        let mut q2: HashMap<i32, i64> = HashMap::new();
        let mut t2: HashSet<i32> = HashSet::new();
        let mut k: usize = 0;
        while k < new_contacts.len()
            invariant
                0 <= k <= new_contacts@.len(),
                q == self.quarantine(),
                t == self.trusted(),
                q2@ == q.restrict(ids_of(new_contacts@.take(k as int))),
                t2@ == t.intersect(ids_of(new_contacts@.take(k as int))),
            decreases new_contacts@.len() - k,
        {
            let id = new_contacts[k].contact_id;
            proof {
                assert(ids_of(new_contacts@.take(k as int + 1)) =~= ids_of(new_contacts@.take(k as int)).insert(id)) by {
                    let a = new_contacts@.take(k as int + 1);
                    let b = new_contacts@.take(k as int);
                    assert forall|x: i32| has_id(a, x) <==> (has_id(b, x) || x == id) by {
                        if has_id(a, x) {
                            let i = choose|i: int| 0 <= i < a.len() && (#[trigger] a[i]).contact_id == x;
                            if i < k {
                                assert(b[i] == a[i]);
                            }
                        }
                        if has_id(b, x) {
                            let i = choose|i: int| 0 <= i < b.len() && (#[trigger] b[i]).contact_id == x;
                            assert(a[i] == b[i]);
                        }
                        if x == id {
                            assert(a[k as int] == new_contacts@[k as int]);
                        }
                    }
                }
            }
            if self.trusted_contacts.contains(&id) {
                t2.insert(id);
            }
            match self.quarantine_contacts.get(&id) {
                Some(ts) => {
                    q2.insert(id, *ts);
                },
                None => {},
            }
            proof {
                assert(q2@ =~= q.restrict(ids_of(new_contacts@.take(k as int + 1))));
                assert(t2@ =~= t.intersect(ids_of(new_contacts@.take(k as int + 1))));
            }
            k += 1;
        }
        proof {
            assert(new_contacts@.take(new_contacts@.len() as int) == new_contacts@);
        }
        let ghost q0 = q2@;
        let ghost t0 = t2@;
        // Quarantine system: promote or add new contacts.
        let mut k: usize = 0;
        while k < new_contacts.len()
            invariant
                0 <= k <= new_contacts@.len(),
                ids == ids_of(new_contacts@),
                q0 == q.restrict(ids),
                t0 == t.intersect(ids),
                forall|id: i32| #[trigger] q.contains_key(id) ==> !t.contains(id),
                ages_fit(q, ids, now),
                t2@ == t0.union(promoted(q0, ids_of(new_contacts@.take(k as int)), now)),
                q2@ == Map::new(
                    |id: i32|
                        (q0.contains_key(id) && !(ids_of(new_contacts@.take(k as int)).contains(id)
                            && now - q0[id] > RELEASE_FINGERS_THRESHOLD_MS)) || (ids_of(
                            new_contacts@.take(k as int),
                        ).contains(id) && !q0.contains_key(id) && !t0.contains(id)),
                    |id: i32|
                        if q0.contains_key(id) {
                            q0[id]
                        } else {
                            now
                        },
                ),
            decreases new_contacts@.len() - k,
        {
            let id = new_contacts[k].contact_id;
            let ghost before = ids_of(new_contacts@.take(k as int));
            proof {
                assert(ids_of(new_contacts@.take(k as int + 1)) =~= before.insert(id)) by {
                    let a = new_contacts@.take(k as int + 1);
                    let b = new_contacts@.take(k as int);
                    assert forall|x: i32| has_id(a, x) <==> (has_id(b, x) || x == id) by {
                        if has_id(a, x) {
                            let i = choose|i: int| 0 <= i < a.len() && (#[trigger] a[i]).contact_id == x;
                            if i < k {
                                assert(b[i] == a[i]);
                            }
                        }
                        if has_id(b, x) {
                            let i = choose|i: int| 0 <= i < b.len() && (#[trigger] b[i]).contact_id == x;
                            assert(a[i] == b[i]);
                        }
                        if x == id {
                            assert(a[k as int] == new_contacts@[k as int]);
                        }
                    }
                }
                assert(ids.contains(id)) by {
                    assert(new_contacts@[k as int].contact_id == id);
                }
            }
            match q2.get(&id) {
                Some(ts) => {
                    let ts = *ts;
                    if now - ts > RELEASE_FINGERS_THRESHOLD_MS {
                        t2.insert(id);
                        q2.remove(&id);
                    }
                },
                None => {
                    if !t2.contains(&id) {
                        q2.insert(id, now);
                    }
                },
            }
            proof {
                let after = ids_of(new_contacts@.take(k as int + 1));
                assert(t2@ =~= t0.union(promoted(q0, after, now)));
                assert(q2@ =~= Map::new(
                    |x: i32|
                        (q0.contains_key(x) && !(after.contains(x) && now - q0[x]
                            > RELEASE_FINGERS_THRESHOLD_MS)) || (after.contains(x)
                            && !q0.contains_key(x) && !t0.contains(x)),
                    |x: i32|
                        if q0.contains_key(x) {
                            q0[x]
                        } else {
                            now
                        },
                ));
            }
            k += 1;
        }
        proof {
            assert(new_contacts@.take(new_contacts@.len() as int) == new_contacts@);
            assert(t2@ =~= trusted_after(q, t, ids, now));
            assert(q2@ =~= quarantine_after(q, t, ids, now));
        }
        self.quarantine_contacts = q2;
        self.trusted_contacts = t2;
    }
}


/// A finger seen for the first time is never trusted at once: it enters
/// quarantine with the current time.
pub proof fn lemma_new_contact_quarantined(q: Map<i32, i64>, t: Set<i32>, ids: Set<i32>, now: i64, id: i32)
    requires
        !q.contains_key(id),
        !t.contains(id),
        ids.contains(id),
    ensures
        !trusted_after(q, t, ids, now).contains(id),
        quarantine_after(q, t, ids, now).contains_key(id),
        quarantine_after(q, t, ids, now)[id] == now,
{
}

/// A finger becomes trusted only after it sat in quarantine for longer than
/// the release threshold; a finger that left the touchpad is neither trusted
/// nor quarantined any more.
pub proof fn lemma_trust_needs_quarantine(q: Map<i32, i64>, t: Set<i32>, ids: Set<i32>, now: i64, id: i32)
    ensures
        trusted_after(q, t, ids, now).contains(id) && !t.contains(id) ==> q.contains_key(id) && now
            - q[id] > RELEASE_FINGERS_THRESHOLD_MS,
        !ids.contains(id) ==> !trusted_after(q, t, ids, now).contains(id) && !quarantine_after(
            q,
            t,
            ids,
            now,
        ).contains_key(id),
{
}

/// Trust is kept for as long as the finger stays on the pad: a trusted
/// finger present in the next frame is still trusted after it, whatever the
/// time, and is not put back into quarantine (no finger is both quarantined
/// and trusted, as in every well-formed manager).
pub proof fn lemma_trust_persists_while_present(q: Map<i32, i64>, t: Set<i32>, ids: Set<i32>, now: i64, id: i32)
    requires
        forall|x: i32| #[trigger] q.contains_key(x) ==> !t.contains(x),
        t.contains(id),
        ids.contains(id),
    ensures
        trusted_after(q, t, ids, now).contains(id),
        !quarantine_after(q, t, ids, now).contains_key(id),
{
}

} // verus!
