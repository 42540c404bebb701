//! The mathematical model of the marketplace: what the store holds, and the
//! figures that are derived from it.

use crate::types::{DonationView, MilestoneView, ProjectView, UpdateView};
use vstd::prelude::*;

verus! {

/// What the store holds, one field for each kind of key.
#[verifier::ext_equal]
pub struct StorageView {
    /// The identifier given to the project created last; 0 before the first.
    pub next_project: u64,
    /// The projects, by identifier.
    pub projects: Map<u64, ProjectView>,
    /// For each project, the sequence number of its latest donation.
    pub donation_seqs: Map<u64, u64>,
    /// The donations, by project and sequence number.
    pub donations: Map<(u64, u64), DonationView>,
    /// For each project, the number of people it has reached.
    pub impacted: Map<u64, i128>,
    /// The pairs of a donor and a project that the donor has given to.
    pub donor_marks: Set<(Seq<char>, u64)>,
}

impl StorageView {
    /// The store in which nothing has been written yet.
    pub open spec fn empty() -> StorageView {
        StorageView {
            next_project: 0,
            projects: Map::empty(),
            donation_seqs: Map::empty(),
            donations: Map::empty(),
            impacted: Map::empty(),
            donor_marks: Set::empty(),
        }
    }

    /// The sequence number of the latest donation to `project_id`; 0 if there
    /// is none.
    pub open spec fn last_seq(self, project_id: u64) -> u64 {
        if self.donation_seqs.contains_key(project_id) {
            self.donation_seqs[project_id]
        } else {
            0
        }
    }

    /// The number of people `project_id` has reached; 0 if it was never set.
    pub open spec fn impacted_people(self, project_id: u64) -> i128 {
        if self.impacted.contains_key(project_id) {
            self.impacted[project_id]
        } else {
            0
        }
    }

    /// The donations to `project_id`, by sequence number.
    pub open spec fn ledger(self, project_id: u64) -> Map<u64, DonationView> {
        Map::new(
            |seq: u64| self.donations.contains_key((project_id, seq)),
            |seq: u64| self.donations[(project_id, seq)],
        )
    }

    /// Whether `donor` has given to `project_id` at least once.
    pub open spec fn has_donated(self, donor: Seq<char>, project_id: u64) -> bool {
        given_by(self.donations, donor, project_id)
    }
}

/// Whether `donations` holds a donation by `donor` to `project_id`.
pub open spec fn given_by(
    donations: Map<(u64, u64), DonationView>,
    donor: Seq<char>,
    project_id: u64,
) -> bool {
    exists|seq: u64|
        #![trigger donations[(project_id, seq)]]
        donations.contains_key((project_id, seq)) && donations[(project_id, seq)].donor == donor
}

/// The sum of the amounts of the donations to `project_id` with sequence
/// numbers 1 to `upto`.
pub open spec fn ledger_total(
    donations: Map<(u64, u64), DonationView>,
    project_id: u64,
    upto: nat,
) -> int
    decreases upto,
{
    if upto == 0 {
        0
    } else {
        ledger_total(donations, project_id, (upto - 1) as nat) + donations[(
            project_id,
            upto as u64,
        )].amount
    }
}

/// What a project contributes to the impact of `donor`: the people it has
/// reached if the donor has given to it, nothing otherwise.
pub open spec fn impact_share(s: StorageView, donor: Seq<char>, project_id: u64) -> int {
    if s.donor_marks.contains((donor, project_id)) {
        s.impacted_people(project_id) as int
    } else {
        0
    }
}

/// The impact of `donor` over the projects 1 to `upto`.
pub open spec fn donor_impact_upto(s: StorageView, donor: Seq<char>, upto: nat) -> int
    decreases upto,
{
    if upto == 0 {
        0
    } else {
        donor_impact_upto(s, donor, (upto - 1) as nat) + impact_share(s, donor, upto as u64)
    }
}

/// The impact of `donor`: the people reached by the projects the donor has
/// given to, each project counted once.
pub open spec fn donor_impact(s: StorageView, donor: Seq<char>) -> int {
    donor_impact_upto(s, donor, s.next_project as nat)
}

/// The people reached by the projects 1 to `upto` that `donor` has given to at
/// least once.
pub open spec fn impact_of_donated_upto(s: StorageView, donor: Seq<char>, upto: nat) -> int
    decreases upto,
{
    if upto == 0 {
        0
    } else {
        impact_of_donated_upto(s, donor, (upto - 1) as nat) + if s.has_donated(
            donor,
            upto as u64,
        ) {
            s.impacted_people(upto as u64) as int
        } else {
            0
        }
    }
}

/// Whether the impact of `donor` can be added up project by project in 128
/// bits.
pub open spec fn donor_impact_fits(s: StorageView, donor: Seq<char>) -> bool {
    forall|n: nat|
        n <= s.next_project ==> i128::MIN <= #[trigger] donor_impact_upto(s, donor, n) <= i128::MAX
}

/// The quotient of `n` by a positive `d`, rounded toward zero.
pub open spec fn div_toward_zero(n: int, d: int) -> int {
    if n >= 0 {
        n / d
    } else {
        -((-n) / d)
    }
}

/// How much of the target is funded, in hundredths of a percent; 0 where the
/// target is not positive.
pub open spec fn percent_bp(current_amount: int, target_amount: int) -> int {
    if target_amount > 0 {
        div_toward_zero(current_amount * 10000, target_amount)
    } else {
        0
    }
}

/// The number of completed milestones among `milestones`.
pub open spec fn completed_count(milestones: Seq<MilestoneView>) -> nat
    decreases milestones.len(),
{
    if milestones.len() == 0 {
        0
    } else {
        completed_count(milestones.drop_last()) + if milestones.last().completed {
            1nat
        } else {
            0nat
        }
    }
}

/// The time of the latest update; 0 if there is none.
pub open spec fn last_update_ts(updates: Seq<UpdateView>) -> i64 {
    if updates.len() > 0 {
        updates.last().timestamp
    } else {
        0
    }
}

} // verus!
