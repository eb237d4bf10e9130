use vstd::prelude::*;

use crate::hid::types::TouchpadContact;

verus! {

/// Whether some contact of `s` carries the id `id`.
pub open spec fn has_id(s: Seq<TouchpadContact>, id: i32) -> bool {
    exists|i: int| 0 <= i < s.len() && (#[trigger] s[i]).contact_id == id
}

/// `s` with every contact whose id already occurred earlier removed
/// (the first contact of each id is kept, order preserved).
pub open spec fn dedup_by_id(s: Seq<TouchpadContact>) -> Seq<TouchpadContact>
    decreases s.len(),
{
    if s.len() == 0 {
        Seq::empty()
    } else {
        let d = dedup_by_id(s.drop_last());
        if has_id(d, s.last().contact_id) {
            d
        } else {
            d.push(s.last())
        }
    }
}

/// Whether no two contacts of `s` share an id.
pub open spec fn ids_distinct(s: Seq<TouchpadContact>) -> bool {
    forall|i: int, j: int|
        0 <= i < s.len() && 0 <= j < s.len() && i != j ==> (#[trigger] s[i]).contact_id
            != (#[trigger] s[j]).contact_id
}

/// Manages partial contact report reassembly from HID reports.
///
/// Some touchpads send contacts in split/partial reports (fewer contacts
/// than `contact_count` indicates). This manager accumulates partial reports
/// until the full set arrives.
pub struct ContactsManager {
    /// Accumulated contacts from partial reports.
    last_contacts: Vec<TouchpadContact>,
    /// Expected total contact count from the first partial report.
    target_contact_count: u32,
}

/// Result of processing a contact report.
pub enum ContactResult {
    /// A complete set of contacts ready for gesture processing.
    Complete(Vec<TouchpadContact>),
    /// Still accumulating partial reports.
    Pending,
    /// Empty or invalid report, ignored.
    Ignored,
}

/// What a call of `receive` leaves behind and hands out: the accumulated
/// contacts, the expected count, and `Some(frame)` for a complete frame or
/// `None` while still pending.
pub open spec fn receive_spec(
    pending: Seq<TouchpadContact>,
    target: u32,
    contacts: Seq<TouchpadContact>,
    count: u32,
) -> (Seq<TouchpadContact>, u32, Option<Seq<TouchpadContact>>) {
    if contacts.len() == 0 {
        (Seq::empty(), 0, Some(contacts))
    } else if count == contacts.len() as u32 {
        (Seq::empty(), 0, Some(contacts))
    } else if count == 0 {
        let acc = dedup_by_id(pending + contacts);
        if target == 0 {
            (acc, 0, None)
        } else if acc.len() as u32 >= target {
            (Seq::empty(), 0, Some(acc.take(target as int)))
        } else {
            (acc, target, None)
        }
    } else if count <= contacts.len() as u32 {
        (Seq::empty(), 0, Some(contacts.take(count as int)))
    } else {
        (contacts, count, None)
    }
}

impl ContactResult {
    /// `Some(frame)` for a complete frame, `None` otherwise.
    pub open spec fn frame(self) -> Option<Seq<TouchpadContact>> {
        match self {
            ContactResult::Complete(v) => Some(v@),
            _ => None,
        }
    }
}

impl ContactsManager {
    /// Contacts accumulated so far from partial reports.
    pub closed spec fn pending(self) -> Seq<TouchpadContact> {
        self.last_contacts@
    }

    /// Contact count announced by the report that started the partial list
    /// (0 when none is being awaited).
    pub closed spec fn target(self) -> u32 {
        self.target_contact_count
    }

    pub fn new() -> (m: Self)
        ensures
            m.pending() == Seq::<TouchpadContact>::empty(),
            m.target() == 0,
    {
        ContactsManager { last_contacts: Vec::new(), target_contact_count: 0 }
    }

    /// Process incoming touchpad contacts.
    ///
    /// Over a run of calls, `lemma_continuation_reassembly` and
    /// `lemma_continuation_result` state how split reports are reassembled.
    ///
    /// `contacts`: the contacts parsed from this HID report.
    /// `count`: the contact count reported by the touchpad.
    pub fn receive(&mut self, contacts: Vec<TouchpadContact>, count: u32) -> (r: ContactResult)
        ensures
            ({
                let (p, t, f) = receive_spec(old(self).pending(), old(self).target(), contacts@, count);
                &&& final(self).pending() == p
                &&& final(self).target() == t
                &&& r.frame() == f
                &&& !(r is Ignored)
            }),
    {
        let mut contacts = contacts;
        // Empty contacts (all fingers lifted): always pass through to notify the engine.
        if contacts.len() == 0 {
            self.last_contacts.clear();
            self.target_contact_count = 0;
            return ContactResult::Complete(contacts);
        }
        let contacts_len = contacts.len() as u32;

        // Regular contact list (count matches contacts received).
        if count == contacts_len {
            self.last_contacts.clear();
            self.target_contact_count = 0;
            return ContactResult::Complete(contacts);
        }

        // Partial contact list continuation (count == 0, sent after an incomplete list).
        if count == 0 {
            self.last_contacts.append(&mut contacts);
            remove_duplicates(&mut self.last_contacts);

            if self.target_contact_count == 0 {
                return ContactResult::Pending;
            }
            if self.last_contacts.len() as u32 >= self.target_contact_count {
                proof {
                    let n = self.last_contacts@.len();
                    if n <= u32::MAX {
                        assert(n as u32 == n);
                    }
                }
                self.last_contacts.truncate(self.target_contact_count as usize);
                let mut result: Vec<TouchpadContact> = Vec::new();
                std::mem::swap(&mut result, &mut self.last_contacts);
                self.target_contact_count = 0;
                return ContactResult::Complete(result);
            }
            return ContactResult::Pending;
        }

        // Old partial list was not completed, but a new non-zero count report arrived.
        if self.last_contacts.len() != 0 {
            self.last_contacts.clear();
            self.target_contact_count = 0;
        }

        // Regular contact list with more contacts than expected: clamp.
        if count <= contacts_len {
            proof {
                let n = contacts@.len();
                if n <= u32::MAX {
                    assert(n as u32 == n);
                }
            }
            contacts.truncate(count as usize);
            self.last_contacts.clear();
            self.target_contact_count = 0;
            return ContactResult::Complete(contacts);
        }

        // Incomplete contact list: 0 < contacts.len() < count.
        self.target_contact_count = count;
        self.last_contacts = contacts;
        ContactResult::Pending
    }
}

/// Drop every contact whose id already occurred earlier in the list.
pub fn remove_duplicates(contacts: &mut Vec<TouchpadContact>)
    ensures
        final(contacts)@ == dedup_by_id(old(contacts)@),
{
    let ghost input = contacts@;
    let mut unique: Vec<TouchpadContact> = Vec::new();
    let mut i: usize = 0;
    while i < contacts.len()
        invariant
            contacts@ == input,
            0 <= i <= input.len(),
            unique@ == dedup_by_id(input.take(i as int)),
        decreases input.len() - i,
    {
        let c = contacts[i];
        let mut found = false;
        let mut j: usize = 0;
        while j < unique.len()
            invariant
                0 <= j <= unique@.len(),
                found <==> exists|k: int| 0 <= k < j && (#[trigger] unique@[k]).contact_id == c.contact_id,
            decreases unique@.len() - j,
        {
            if unique[j].contact_id == c.contact_id {
                found = true;
            }
            j += 1;
        }
        proof {
            assert(input.take(i as int + 1).drop_last() == input.take(i as int));
            assert(input.take(i as int + 1).last() == c);
        }
        if !found {
            unique.push(c);
        }
        i += 1;
    }
    proof {
        assert(input.take(input.len() as int) == input);
    }
    *contacts = unique;
}


/// The ids kept by `dedup_by_id` are pairwise distinct.
pub proof fn lemma_dedup_ids_distinct(s: Seq<TouchpadContact>)
    ensures
        ids_distinct(dedup_by_id(s)),
    decreases s.len(),
{
    if s.len() > 0 {
        lemma_dedup_ids_distinct(s.drop_last());
        let d = dedup_by_id(s.drop_last());
        if !has_id(d, s.last().contact_id) {
            let e = d.push(s.last());
            assert forall|i: int, j: int|
                0 <= i < e.len() && 0 <= j < e.len() && i != j implies (#[trigger] e[i]).contact_id
                != (#[trigger] e[j]).contact_id by {
                if i == d.len() as int {
                    assert(d[j] == e[j]);
                } else if j == d.len() as int {
                    assert(d[i] == e[i]);
                } else {
                    assert(d[i] == e[i] && d[j] == e[j]);
                }
            }
        }
    }
}

/// Partial reassembly: a report announcing `n` contacts but carrying fewer
/// is held back, and a following continuation report (announced count 0)
/// completes the frame with the first `n` distinct contacts in arrival
/// order as soon as that many distinct ids have arrived.
pub proof fn lemma_partial_report_reassembly(
    pending: Seq<TouchpadContact>,
    target: u32,
    first: Seq<TouchpadContact>,
    n: u32,
    rest: Seq<TouchpadContact>,
)
    requires
        0 < first.len() < n,
        0 < rest.len() <= u32::MAX,
        dedup_by_id(first + rest).len() <= u32::MAX,
    ensures
        receive_spec(pending, target, first, n) == (first, n, None::<Seq<TouchpadContact>>),
        ({
            let acc = dedup_by_id(first + rest);
            let (p, t, f) = receive_spec(first, n, rest, 0);
            &&& acc.len() >= n ==> p == Seq::<TouchpadContact>::empty() && t == 0 && f == Some(
                acc.take(n as int),
            )
            &&& acc.len() < n ==> p == acc && t == n && f is None
        }),
{
    let acc = dedup_by_id(first + rest);
    assert(first.len() as u32 == first.len());
    assert(rest.len() as u32 == rest.len());
    assert(acc.len() as u32 == acc.len());
}

/// A completed frame always leaves the manager reset: nothing pending and
/// no expected count, so a frame is handed out exactly once.
pub proof fn lemma_complete_resets(
    pending: Seq<TouchpadContact>,
    target: u32,
    contacts: Seq<TouchpadContact>,
    count: u32,
)
    requires
        receive_spec(pending, target, contacts, count).2 is Some,
    ensures
        receive_spec(pending, target, contacts, count).0 == Seq::<TouchpadContact>::empty(),
        receive_spec(pending, target, contacts, count).1 == 0,
{
}

/// A frame completed from continuation reports holds exactly the announced
/// number of contacts, all with distinct ids; a frame completed from a single
/// report never holds more contacts than the report announced.
pub proof fn lemma_complete_frame_shape(
    pending: Seq<TouchpadContact>,
    target: u32,
    contacts: Seq<TouchpadContact>,
    count: u32,
)
    requires
        contacts.len() > 0,
        receive_spec(pending, target, contacts, count).2 is Some,
    ensures
        ({
            let f = receive_spec(pending, target, contacts, count).2.unwrap();
            &&& count == 0 && contacts.len() as u32 != 0 ==> f.len() == target && ids_distinct(f)
            &&& count != 0 ==> f.len() <= contacts.len() && (f.len() == count || f.len() == contacts.len())
        }),
{
    let f = receive_spec(pending, target, contacts, count).2.unwrap();
    if contacts.len() <= u32::MAX {
        assert(contacts.len() as u32 == contacts.len());
    }
    if count == 0 && contacts.len() as u32 != 0 {
        let acc = dedup_by_id(pending + contacts);
        lemma_dedup_ids_distinct(pending + contacts);
        if acc.len() <= u32::MAX {
            assert(acc.len() as u32 == acc.len());
        }
        assert forall|i: int, j: int|
            0 <= i < f.len() && 0 <= j < f.len() && i != j implies (#[trigger] f[i]).contact_id
            != (#[trigger] f[j]).contact_id by {
            assert(f[i] == acc[i] && f[j] == acc[j]);
        }
    }
}

/// What a run of continuation reports (announced count 0) leaves behind
/// and hands out, call by call, starting from `pending` and `target`.
pub open spec fn continuation_run(
    pending: Seq<TouchpadContact>,
    target: u32,
    reports: Seq<Seq<TouchpadContact>>,
) -> (Seq<TouchpadContact>, u32, Seq<Option<Seq<TouchpadContact>>>)
    decreases reports.len(),
{
    if reports.len() == 0 {
        (pending, target, Seq::empty())
    } else {
        let (p1, t1, f) = receive_spec(pending, target, reports[0], 0);
        let (p2, t2, fs) = continuation_run(p1, t1, reports.drop_first());
        (p2, t2, seq![f] + fs)
    }
}

proof fn lemma_continuation_run_len(pending: Seq<TouchpadContact>, target: u32, reports: Seq<Seq<TouchpadContact>>)
    ensures
        continuation_run(pending, target, reports).2.len() == reports.len(),
    decreases reports.len(),
{
    if reports.len() > 0 {
        let (p1, t1, f) = receive_spec(pending, target, reports[0], 0);
        lemma_continuation_run_len(p1, t1, reports.drop_first());
    }
}

proof fn lemma_dedup_len(s: Seq<TouchpadContact>)
    ensures
        dedup_by_id(s).len() <= s.len(),
    decreases s.len(),
{
    if s.len() > 0 {
        lemma_dedup_len(s.drop_last());
    }
}

proof fn lemma_dedup_of_distinct(s: Seq<TouchpadContact>)
    requires
        ids_distinct(s),
    ensures
        dedup_by_id(s) == s,
    decreases s.len(),
{
    if s.len() > 0 {
        let q = s.drop_last();
        assert forall|i: int, j: int|
            0 <= i < q.len() && 0 <= j < q.len() && i != j implies (#[trigger] q[i]).contact_id
            != (#[trigger] q[j]).contact_id by {
            assert(q[i] == s[i] && q[j] == s[j]);
        }
        lemma_dedup_of_distinct(q);
        if has_id(q, s.last().contact_id) {
            let k = choose|k: int| 0 <= k < q.len() && (#[trigger] q[k]).contact_id == s.last().contact_id;
            assert(s[k] == q[k]);
            assert(false);
        }
        assert(q.push(s.last()) =~= s);
    }
}

/// Deduplicating a prefix first changes nothing:
/// `dedup(dedup(a) + b) == dedup(a + b)`.
pub proof fn lemma_dedup_absorbs_prefix(a: Seq<TouchpadContact>, b: Seq<TouchpadContact>)
    ensures
        dedup_by_id(dedup_by_id(a) + b) == dedup_by_id(a + b),
    decreases b.len(),
{
    let d = dedup_by_id(a);
    if b.len() == 0 {
        lemma_dedup_ids_distinct(a);
        lemma_dedup_of_distinct(d);
        assert(d + b =~= d);
        assert(a + b =~= a);
    } else {
        lemma_dedup_absorbs_prefix(a, b.drop_last());
        assert((d + b).drop_last() =~= d + b.drop_last());
        assert((a + b).drop_last() =~= a + b.drop_last());
        assert((d + b).last() == b.last());
        assert((a + b).last() == b.last());
    }
}

proof fn lemma_pending_accumulates(pending: Seq<TouchpadContact>, n: u32, reports: Seq<Seq<TouchpadContact>>)
    requires
        n > 0,
        forall|i: int| 0 <= i < reports.len() ==> (#[trigger] reports[i]).len() > 0,
        (pending + reports.flatten()).len() <= u32::MAX,
        forall|i: int| 0 <= i < reports.len() ==> (#[trigger] continuation_run(pending, n, reports).2[i]) is None,
    ensures
        ({
            let (p, t, fs) = continuation_run(pending, n, reports);
            &&& t == n
            &&& fs.len() == reports.len()
            &&& reports.len() == 0 ==> p == pending
            &&& reports.len() > 0 ==> p == dedup_by_id(pending + reports.flatten())
        }),
    decreases reports.len(),
{
    if reports.len() > 0 {
        let r0 = reports[0];
        let rest = reports.drop_first();
        let acc = dedup_by_id(pending + r0);
        assert(reports.flatten() == r0 + rest.flatten());
        assert((pending + r0) + rest.flatten() =~= pending + reports.flatten());
        lemma_dedup_len(pending + r0);
        assert(r0.len() as u32 == r0.len());
        assert(acc.len() as u32 == acc.len());
        let (p1, t1, f) = receive_spec(pending, n, r0, 0);
        let fs = continuation_run(p1, t1, rest).2;
        lemma_continuation_run_len(p1, t1, rest);
        assert(continuation_run(pending, n, reports).2 == seq![f] + fs);
        assert((seq![f] + fs)[0] == f);
        assert(continuation_run(pending, n, reports).2[0] is None);
        assert(f is None);
        assert(p1 == acc && t1 == n);
        assert forall|i: int| 0 <= i < rest.len() implies (#[trigger] rest[i]).len() > 0 by {
            assert(rest[i] == reports[i + 1]);
        }
        assert forall|i: int| 0 <= i < rest.len() implies (#[trigger] continuation_run(acc, n, rest).2[i]) is None by {
            assert((seq![f] + fs)[i + 1] == fs[i]);
            assert(continuation_run(pending, n, reports).2[i + 1] is None);
        }
        lemma_pending_accumulates(acc, n, rest);
        if rest.len() > 0 {
            lemma_dedup_absorbs_prefix(pending + r0, rest.flatten());
        } else {
            assert(rest.flatten() =~= Seq::<TouchpadContact>::empty());
            assert(pending + reports.flatten() =~= pending + r0);
        }
    }
}

/// Reassembly across any number of continuation reports: after a report
/// announcing `n` contacts but carrying fewer (which is held back), and
/// continuation reports (announced count 0) that each left the frame
/// pending, the next non-empty continuation report completes the frame
/// exactly when the distinct contacts received so far reach `n`; the frame
/// is then the first `n` contacts of all reports, in arrival order, keeping
/// only the first contact of each id, so no id repeats in it.
pub proof fn lemma_continuation_reassembly(
    pending: Seq<TouchpadContact>,
    target: u32,
    first: Seq<TouchpadContact>,
    n: u32,
    reports: Seq<Seq<TouchpadContact>>,
    last: Seq<TouchpadContact>,
)
    requires
        0 < first.len() < n,
        forall|i: int| 0 <= i < reports.len() ==> (#[trigger] reports[i]).len() > 0,
        last.len() > 0,
        (first + reports.flatten() + last).len() <= u32::MAX,
        forall|i: int| 0 <= i < reports.len() ==> (#[trigger] continuation_run(first, n, reports).2[i]) is None,
    ensures
        receive_spec(pending, target, first, n) == (first, n, None::<Seq<TouchpadContact>>),
        ({
            let (p, t, fs) = continuation_run(first, n, reports);
            let u = dedup_by_id(first + reports.flatten() + last);
            let (p2, t2, f) = receive_spec(p, t, last, 0);
            &&& f == (if u.len() >= n {
                Some(u.take(n as int))
            } else {
                None
            })
            &&& u.len() >= n ==> ids_distinct(u.take(n as int)) && p2.len() == 0 && t2 == 0
            &&& u.len() < n ==> p2 == u && t2 == n
        }),
{
    assert(first.len() as u32 == first.len());
    assert((first + reports.flatten() + last).len() == first.len() + reports.flatten().len() + last.len());
    lemma_pending_accumulates(first, n, reports);
    let (p, t, fs) = continuation_run(first, n, reports);
    let u = dedup_by_id(first + reports.flatten() + last);
    if reports.len() > 0 {
        lemma_dedup_absorbs_prefix(first + reports.flatten(), last);
    } else {
        assert(reports.flatten() =~= Seq::<TouchpadContact>::empty());
        assert(first + reports.flatten() =~= first);
    }
    assert(dedup_by_id(p + last) == u);
    lemma_dedup_len(first + reports.flatten() + last);
    assert(last.len() as u32 == last.len());
    assert(u.len() as u32 == u.len());
    lemma_dedup_ids_distinct(first + reports.flatten() + last);
    if u.len() >= n {
        let f = u.take(n as int);
        assert forall|i: int, j: int|
            0 <= i < f.len() && 0 <= j < f.len() && i != j implies (#[trigger] f[i]).contact_id
            != (#[trigger] f[j]).contact_id by {
            assert(f[i] == u[i] && f[j] == u[j]);
        }
    }
}

/// The reassembly law for the value `receive` returns: when the manager
/// holds what a first short report announcing `n` and a run of pending
/// continuation reports left behind, the result of receiving a further
/// non-empty continuation report is `Complete` with the first `n` distinct
/// contacts of all reports (first occurrence of each id, arrival order)
/// when at least `n` distinct ids arrived, and `Pending` otherwise.
pub proof fn lemma_continuation_result(
    first: Seq<TouchpadContact>,
    n: u32,
    reports: Seq<Seq<TouchpadContact>>,
    last: Seq<TouchpadContact>,
    result: ContactResult,
)
    requires
        0 < first.len() < n,
        forall|i: int| 0 <= i < reports.len() ==> (#[trigger] reports[i]).len() > 0,
        last.len() > 0,
        (first + reports.flatten() + last).len() <= u32::MAX,
        forall|i: int| 0 <= i < reports.len() ==> (#[trigger] continuation_run(first, n, reports).2[i]) is None,
        ({
            let (p, t, fs) = continuation_run(first, n, reports);
            result.frame() == receive_spec(p, t, last, 0).2 && !(result is Ignored)
        }),
    ensures
        ({
            let u = dedup_by_id(first + reports.flatten() + last);
            &&& u.len() >= n ==> (result matches ContactResult::Complete(v) && v@ == u.take(n as int)
                && ids_distinct(v@))
            &&& u.len() < n ==> result is Pending
        }),
{
    lemma_continuation_reassembly(Seq::empty(), 0, first, n, reports, last);
}

/// Whether two frames hold the same number of contacts and every contact of
/// the new frame carries an id of the old one.
pub open spec fn same_ids(old: Seq<TouchpadContact>, new: Seq<TouchpadContact>) -> bool {
    &&& old.len() == new.len()
    &&& forall|i: int| 0 <= i < new.len() ==> has_id(old, (#[trigger] new[i]).contact_id)
}

/// Whether the old and new frames hold the same set of contact ids.
pub fn contacts_ids_common(old: &[TouchpadContact], new: &[TouchpadContact]) -> (r: bool)
    ensures
        r == same_ids(old@, new@),
{
    if old.len() != new.len() {
        return false;
    }
    let mut i: usize = 0;
    while i < new.len()
        invariant
            old@.len() == new@.len(),
            0 <= i <= new@.len(),
            forall|k: int| 0 <= k < i ==> has_id(old@, (#[trigger] new@[k]).contact_id),
        decreases new@.len() - i,
    {
        let id = new[i].contact_id;
        let mut found = false;
        let mut j: usize = 0;
        while j < old.len()
            invariant
                0 <= j <= old@.len(),
                found <==> exists|k: int| 0 <= k < j && (#[trigger] old@[k]).contact_id == id,
            decreases old@.len() - j,
        {
            if old[j].contact_id == id {
                found = true;
            }
            j += 1;
        }
        if !found {
            assert(!has_id(old@, new@[i as int].contact_id));
            return false;
        }
        i += 1;
    }
    true
}

} // verus!
