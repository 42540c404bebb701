//! The store: one typed map for each kind of key, so that a counter, a
//! project, a donation, an impact figure and a donor's mark can never be taken
//! for one another.

use crate::address::Address;
use crate::model::StorageView;
use crate::types::{Donation, DonationView, Project, ProjectView};
use std::collections::HashMap;
use vstd::prelude::*;

verus! {

broadcast use vstd::std_specs::hash::group_hash_axioms;

/// The mark that a donor has given to a project at least once.
struct DonorMark {
    donor: Address,
    project_id: u64,
}

/// The key of a donation among all donations: the project in the upper half,
/// the sequence number in the lower.
spec fn donation_slot(project_id: u64, seq: u64) -> u128 {
    (project_id as u128 * 0x1_0000_0000_0000_0000 + seq as u128) as u128
}

/// The key of a donation among all donations.
fn donation_key(project_id: u64, seq: u64) -> (key: u128)
    ensures
        key == donation_slot(project_id, seq),
{
    project_id as u128 * 0x1_0000_0000_0000_0000 + seq as u128
}

/// The flat typed key-value store under the marketplace.
pub struct Storage {
    next_project: u64,
    projects: HashMap<u64, Project>,
    donation_seqs: HashMap<u64, u64>,
    donations: HashMap<u128, Donation>,
    impacted: HashMap<u64, i128>,
    donor_marks: Vec<DonorMark>,
}

/// The stored projects as the specifications see them.
spec fn project_map(projects: Map<u64, Project>) -> Map<u64, ProjectView> {
    projects.map_values(|p: Project| p@)
}

/// The stored donations as the specifications see them, by project and
/// sequence number.
spec fn donation_map(donations: Map<u128, Donation>) -> Map<(u64, u64), DonationView> {
    Map::new(
        |k: (u64, u64)| donations.contains_key(donation_slot(k.0, k.1)),
        |k: (u64, u64)| donations[donation_slot(k.0, k.1)]@,
    )
}

/// Whether the list of marks holds one of `donor` for `project_id`.
spec fn marked(marks: Seq<DonorMark>, donor: Seq<char>, project_id: u64) -> bool {
    exists|i: int|
        0 <= i < marks.len() && (#[trigger] marks[i]).donor@ == donor && marks[i].project_id
            == project_id
}

/// The pairs of a donor and a project that the list of marks holds.
spec fn mark_set(marks: Seq<DonorMark>) -> Set<(Seq<char>, u64)> {
    Set::new(|m: (Seq<char>, u64)| marked(marks, m.0, m.1))
}

impl View for Storage {
    type V = StorageView;

    closed spec fn view(&self) -> StorageView {
        StorageView {
            next_project: self.next_project,
            projects: project_map(self.projects@),
            donation_seqs: self.donation_seqs@,
            donations: donation_map(self.donations@),
            impacted: self.impacted@,
            donor_marks: mark_set(self.donor_marks@),
        }
    }
}

impl Storage {

    /// A store in which nothing has been written yet.
    pub fn new() -> (s: Storage)
        ensures
            s@ == StorageView::empty(),
    {
        let s = Storage {
            next_project: 0,
            projects: HashMap::new(),
            donation_seqs: HashMap::new(),
            donations: HashMap::new(),
            impacted: HashMap::new(),
            donor_marks: Vec::new(),
        };
        assert(s@ =~= StorageView::empty());
        s
    }

    /// The identifier given to the project created last; 0 before the first.
    pub fn read_next_project_id(&self) -> (id: u64)
        ensures
            id == self@.next_project,
    {
        self.next_project
    }

    /// Records `id` as the identifier given last.
    pub fn write_next_project_id(&mut self, id: u64)
        ensures
            final(self)@ == (StorageView { next_project: id, ..old(self)@ }),
    {
        self.next_project = id;
        assert(self@ =~= (StorageView { next_project: id, ..old(self)@ }));
    }

    /// The project stored under `id`, if there is one.
    pub fn project(&self, id: u64) -> (p: Option<&Project>)
        ensures
            match p {
                Some(project) => self@.projects.contains_key(id) && project@ == self@.projects[id],
                None => !self@.projects.contains_key(id),
            },
    {
        self.projects.get(&id)
    }

    /// Stores `project` under `id`, in place of what was stored there.
    pub fn set_project(&mut self, id: u64, project: Project)
        ensures
            final(self)@ == (StorageView {
                projects: old(self)@.projects.insert(id, project@),
                ..old(self)@
            }),
    {
        self.projects.insert(id, project);
        assert(self@ =~= (StorageView {
            projects: old(self)@.projects.insert(id, project@),
            ..old(self)@
        }));
    }

    /// The sequence number of the latest donation to `project_id`; 0 if none
    /// was recorded.
    pub fn read_project_don_seq(&self, project_id: u64) -> (seq: u64)
        ensures
            seq == self@.last_seq(project_id),
    {
        match self.donation_seqs.get(&project_id) {
            Some(seq) => *seq,
            None => 0,
        }
    }

    /// Records `seq` as the sequence number of the latest donation to
    /// `project_id`.
    pub fn write_project_don_seq(&mut self, project_id: u64, seq: u64)
        ensures
            final(self)@ == (StorageView {
                donation_seqs: old(self)@.donation_seqs.insert(project_id, seq),
                ..old(self)@
            }),
    {
        self.donation_seqs.insert(project_id, seq);
        assert(self@ =~= (StorageView {
            donation_seqs: old(self)@.donation_seqs.insert(project_id, seq),
            ..old(self)@
        }));
    }

    /// The donation to `project_id` with sequence number `seq`, if there is
    /// one.
    pub fn donation(&self, project_id: u64, seq: u64) -> (d: Option<&Donation>)
        ensures
            match d {
                Some(donation) => self@.donations.contains_key((project_id, seq)) && donation@
                    == self@.donations[(project_id, seq)],
                None => !self@.donations.contains_key((project_id, seq)),
            },
    {
        let key = donation_key(project_id, seq);
        self.donations.get(&key)
    }

    /// Stores `donation` as the donation to `project_id` with sequence number
    /// `seq`.
    pub fn set_donation(&mut self, project_id: u64, seq: u64, donation: Donation)
        ensures
            final(self)@ == (StorageView {
                donations: old(self)@.donations.insert((project_id, seq), donation@),
                ..old(self)@
            }),
    {
        let key = donation_key(project_id, seq);
        self.donations.insert(key, donation);
        assert forall|k: (u64, u64)| k != (project_id, seq) implies donation_slot(k.0, k.1)
            != key by {}
        assert(self@.donations =~= old(self)@.donations.insert((project_id, seq), donation@));
        assert(self@ =~= (StorageView {
            donations: old(self)@.donations.insert((project_id, seq), donation@),
            ..old(self)@
        }));
    }

    /// The number of people `project_id` has reached, if it was ever set.
    pub fn impacted(&self, project_id: u64) -> (v: Option<i128>)
        ensures
            v == (if self@.impacted.contains_key(project_id) {
                Some(self@.impacted[project_id])
            } else {
                None
            }),
    {
        match self.impacted.get(&project_id) {
            Some(v) => Some(*v),
            None => None,
        }
    }

    /// Stores `value` as the number of people `project_id` has reached.
    pub fn set_impacted(&mut self, project_id: u64, value: i128)
        ensures
            final(self)@ == (StorageView {
                impacted: old(self)@.impacted.insert(project_id, value),
                ..old(self)@
            }),
    {
        self.impacted.insert(project_id, value);
        assert(self@ =~= (StorageView {
            impacted: old(self)@.impacted.insert(project_id, value),
            ..old(self)@
        }));
    }

    /// Whether `donor` is marked as having given to `project_id`.
    pub fn has_donor_mark(&self, donor: &Address, project_id: u64) -> (marked: bool)
        ensures
            marked == self@.donor_marks.contains((donor@, project_id)),
    {
        let mut i: usize = 0;
        while i < self.donor_marks.len()
            invariant
                i <= self.donor_marks@.len(),
                forall|j: int|
                    0 <= j < i ==> !((#[trigger] self.donor_marks@[j]).donor@ == donor@
                        && self.donor_marks@[j].project_id == project_id),
            decreases self.donor_marks@.len() - i,
        {
            if self.donor_marks[i].project_id == project_id && self.donor_marks[i].donor.same(
                donor,
            ) {
                return true;
            }
            i += 1;
        }
        false
    }

    /// Marks `donor` as having given to `project_id`. A mark is never removed,
    /// and marking twice is marking once.
    pub fn set_donor_mark(&mut self, donor: Address, project_id: u64)
        ensures
            final(self)@ == (StorageView {
                donor_marks: old(self)@.donor_marks.insert((donor@, project_id)),
                ..old(self)@
            }),
    {
        if self.has_donor_mark(&donor, project_id) {
            assert(self@.donor_marks =~= self@.donor_marks.insert((donor@, project_id)));
            return ;
        }
        let ghost before = self.donor_marks@;
        self.donor_marks.push(DonorMark { donor, project_id });
        let ghost after = self.donor_marks@;
        assert forall|m: (Seq<char>, u64)|
            marked(after, m.0, m.1) == (m == (donor@, project_id) || marked(before, m.0, m.1)) by {
            let last = after.len() - 1;
            assert(after[last].donor@ == donor@);
            if marked(before, m.0, m.1) {
                let i = choose|i: int|
                    0 <= i < before.len() && (#[trigger] before[i]).donor@ == m.0
                        && before[i].project_id == m.1;
                assert(after[i] == before[i]);
            }
            if marked(after, m.0, m.1) && m != (donor@, project_id) {
                let i = choose|i: int|
                    0 <= i < after.len() && (#[trigger] after[i]).donor@ == m.0
                        && after[i].project_id == m.1;
                assert(before[i] == after[i]);
            }
        }
        assert(self@.donor_marks =~= old(self)@.donor_marks.insert((donor@, project_id)));
        assert(self@ =~= (StorageView {
            donor_marks: old(self)@.donor_marks.insert((donor@, project_id)),
            ..old(self)@
        }));
    }
}

} // verus!
