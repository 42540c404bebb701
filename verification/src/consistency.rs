//! What holds of the store after any sequence of calls: identifiers are given
//! out once and in order, the ledger of each project has no gaps, what a
//! project has collected is what its ledger adds up to, and a donor is marked
//! for exactly the projects the donor has given to.

use crate::model::{donor_impact_upto, impact_of_donated_upto, ledger_total, StorageView};
use crate::rules::{
    add_update_fits, add_update_spec, complete_milestone_spec, create_project_fits,
    create_project_spec, donate_fits, donate_spec, set_impacted_people_spec,
};
use crate::text::{
    MAX_IMPACT_AREA_LEN, MAX_NAME_LEN, MAX_PROBLEM_STATEMENT_LEN, MAX_UPDATE_BODY_LEN,
    MAX_UPDATE_TITLE_LEN,
};
use crate::types::{DonationView, LocationView, MilestoneView, ProjectView};
use vstd::prelude::*;

verus! {

/// What holds of every stored project: the checks it passed when it was
/// created and when its updates were appended, and the index space of its
/// milestones and updates.
pub open spec fn project_valid(p: ProjectView) -> bool {
    &&& p.target_amount > 0
    &&& p.current_amount >= 0
    &&& p.name.len() > 0
    &&& p.name.len() <= MAX_NAME_LEN
    &&& p.problem_statement.len() <= MAX_PROBLEM_STATEMENT_LEN
    &&& p.impact_area.len() <= MAX_IMPACT_AREA_LEN
    &&& p.milestones.len() <= u32::MAX
    &&& p.updates.len() <= u32::MAX
    &&& forall|i: int|
        0 <= i < p.updates.len() ==> (#[trigger] p.updates[i]).title.len()
            <= MAX_UPDATE_TITLE_LEN && p.updates[i].body.len() <= MAX_UPDATE_BODY_LEN
}

impl StorageView {
    /// Identifiers are given out from 1 upward without a gap, and each
    /// project is stored under its own.
    pub open spec fn ids_allocated(self) -> bool {
        &&& forall|id: u64|
            #![trigger self.projects.contains_key(id)]
            self.projects.contains_key(id) <==> 1 <= id <= self.next_project
        &&& forall|id: u64|
            #![trigger self.projects[id]]
            self.projects.contains_key(id) ==> self.projects[id].id == id && project_valid(
                self.projects[id],
            )
    }

    /// The donations to a project carry the sequence numbers 1 to the
    /// project's latest, each once, and only stored projects have any.
    pub open spec fn sequences_gapless(self) -> bool {
        &&& forall|project_id: u64, seq: u64|
            #![trigger self.donations.contains_key((project_id, seq))]
            self.donations.contains_key((project_id, seq)) <==> 1 <= seq <= self.last_seq(
                project_id,
            )
        &&& forall|project_id: u64, seq: u64|
            #![trigger self.donations[(project_id, seq)]]
            self.donations.contains_key((project_id, seq)) ==> {
                &&& self.donations[(project_id, seq)].seq == seq
                &&& self.donations[(project_id, seq)].project_id == project_id
                &&& self.donations[(project_id, seq)].amount > 0
            }
        &&& forall|project_id: u64|
            #![trigger self.donation_seqs.contains_key(project_id)]
            self.donation_seqs.contains_key(project_id) ==> self.projects.contains_key(project_id)
    }

    /// What each project has collected is the sum of the amounts in its
    /// ledger.
    pub open spec fn totals_balanced(self) -> bool {
        forall|project_id: u64|
            #![trigger self.projects[project_id]]
            self.projects.contains_key(project_id) ==> self.projects[project_id].current_amount
                == ledger_total(self.donations, project_id, self.last_seq(project_id) as nat)
    }

    /// A donor is marked for a project exactly if the donor has given to it.
    pub open spec fn marks_match_donations(self) -> bool {
        forall|donor: Seq<char>, project_id: u64|
            #![trigger self.donor_marks.contains((donor, project_id))]
            self.donor_marks.contains((donor, project_id)) <==> self.has_donated(donor, project_id)
    }

    /// An impact figure is never negative and belongs to a stored project.
    pub open spec fn impact_sound(self) -> bool {
        forall|project_id: u64|
            #![trigger self.impacted.contains_key(project_id)]
            self.impacted.contains_key(project_id) ==> self.impacted[project_id] >= 0
                && self.projects.contains_key(project_id)
    }

    /// What holds of the store of a marketplace that started empty and was
    /// changed by its operations alone.
    pub open spec fn consistent(self) -> bool {
        &&& self.ids_allocated()
        &&& self.sequences_gapless()
        &&& self.totals_balanced()
        &&& self.marks_match_donations()
        &&& self.impact_sound()
    }
}

/// The sum over a ledger depends on nothing but the donations it ranges over.
pub proof fn lemma_ledger_total_frame(
    a: Map<(u64, u64), DonationView>,
    b: Map<(u64, u64), DonationView>,
    project_id: u64,
    upto: nat,
)
    requires
        upto <= u64::MAX,
        forall|seq: u64| 1 <= seq <= upto ==> a[(project_id, seq)] == b[(project_id, seq)],
    ensures
        ledger_total(a, project_id, upto) == ledger_total(b, project_id, upto),
    decreases upto,
{
    if upto > 0 {
        lemma_ledger_total_frame(a, b, project_id, (upto - 1) as nat);
        assert(a[(project_id, upto as u64)] == b[(project_id, upto as u64)]);
    }
}

/// The empty store is consistent.
pub proof fn lemma_empty_consistent()
    ensures
        StorageView::empty().consistent(),
{
    let s = StorageView::empty();
    assert forall|donor: Seq<char>, project_id: u64|
        !s.has_donated(donor, project_id) by {}
}

/// Creating a project keeps the store consistent.
pub proof fn lemma_create_project_consistent(
    s: StorageView,
    owner: Seq<char>,
    name: Seq<u8>,
    deadline_ts: i64,
    target_amount: i128,
    problem_statement: Seq<u8>,
    impact_area: Seq<u8>,
    location: LocationView,
    milestones: Seq<MilestoneView>,
)
    requires
        s.consistent(),
        create_project_fits(
            s,
            owner,
            name,
            deadline_ts,
            target_amount,
            problem_statement,
            impact_area,
            location,
            milestones,
        ),
    ensures
        create_project_spec(
            s,
            owner,
            name,
            deadline_ts,
            target_amount,
            problem_statement,
            impact_area,
            location,
            milestones,
        ).storage.consistent(),
{
    let o = create_project_spec(
        s,
        owner,
        name,
        deadline_ts,
        target_amount,
        problem_statement,
        impact_area,
        location,
        milestones,
    );
    if o.result is Ok {
        let t = o.storage;
        let id = (s.next_project + 1) as u64;
        assert(!s.projects.contains_key(id));
        assert(!s.donation_seqs.contains_key(id));
        assert(t.totals_balanced()) by {
            assert forall|project_id: u64|
                #![trigger t.projects[project_id]]
                t.projects.contains_key(project_id) implies t.projects[project_id].current_amount
                == ledger_total(t.donations, project_id, t.last_seq(project_id) as nat) by {
                if project_id != id {
                    assert(s.projects.contains_key(project_id));
                    assert(s.projects[project_id] == t.projects[project_id]);
                }
            }
        }
        assert(t.donations == s.donations);
    }
}

/// Putting another valid state of a project in its place keeps the
/// identifiers in order.
pub proof fn lemma_replaced_project_keeps_ids(
    s: StorageView,
    t: StorageView,
    project_id: u64,
    project: ProjectView,
)
    requires
        s.ids_allocated(),
        s.projects.contains_key(project_id),
        project.id == project_id,
        project_valid(project),
        t.next_project == s.next_project,
        t.projects == s.projects.insert(project_id, project),
    ensures
        t.ids_allocated(),
{
    assert forall|id: u64|
        #![trigger t.projects[id]]
        t.projects.contains_key(id) implies t.projects[id].id == id && project_valid(
        t.projects[id],
    ) by {
        assert(s.projects.contains_key(id));
        assert(s.projects[id].id == id && project_valid(s.projects[id]));
    }
}

/// A change to one project that leaves its identifier and what it has
/// collected alone, and touches nothing else in the store, keeps the store
/// consistent.
pub proof fn lemma_project_change_consistent(s: StorageView, project_id: u64, project: ProjectView)
    requires
        s.consistent(),
        s.projects.contains_key(project_id),
        project.id == project_id,
        project.current_amount == s.projects[project_id].current_amount,
        project_valid(project),
    ensures
        (StorageView { projects: s.projects.insert(project_id, project), ..s }).consistent(),
{
    let t = StorageView { projects: s.projects.insert(project_id, project), ..s };
    lemma_replaced_project_keeps_ids(s, t, project_id, project);
    assert(t.totals_balanced()) by {
        assert forall|p: u64|
            #![trigger t.projects[p]]
            t.projects.contains_key(p) implies t.projects[p].current_amount == ledger_total(
            t.donations,
            p,
            t.last_seq(p) as nat,
        ) by {
            assert(s.projects.contains_key(p));
            assert(s.projects[p].current_amount == t.projects[p].current_amount);
        }
    }
}

/// A donation to a gapless ledger leaves the ledger gapless: the new donation
/// gets the number after the project's latest, and every other donation keeps
/// its own.
pub proof fn lemma_donate_keeps_sequences(
    s: StorageView,
    project_id: u64,
    donor: Seq<char>,
    amount: i128,
    timestamp: i64,
)
    requires
        s.sequences_gapless(),
        donate_fits(s, project_id, donor, amount, timestamp),
    ensures
        donate_spec(s, project_id, donor, amount, timestamp).storage.sequences_gapless(),
{
    let o = donate_spec(s, project_id, donor, amount, timestamp);
    if o.result is Ok {
        let t = o.storage;
        let seq = (s.last_seq(project_id) + 1) as u64;
        assert(t.last_seq(project_id) == seq);
        assert forall|p: u64, q: u64|
            #![trigger t.donations.contains_key((p, q))]
            t.donations.contains_key((p, q)) <==> 1 <= q <= t.last_seq(p) by {
            assert(s.donations.contains_key((p, q)) <==> 1 <= q <= s.last_seq(p));
        }
        assert forall|p: u64, q: u64|
            #![trigger t.donations[(p, q)]]
            t.donations.contains_key((p, q)) implies {
            &&& t.donations[(p, q)].seq == q
            &&& t.donations[(p, q)].project_id == p
            &&& t.donations[(p, q)].amount > 0
        } by {
            if (p, q) != (project_id, seq) {
                assert(s.donations.contains_key((p, q)));
                assert(s.donations[(p, q)] == t.donations[(p, q)]);
            }
        }
    }
}

/// A donation to a store whose totals are balanced leaves them balanced: the
/// project collects the amount, its ledger sum grows by the amount, and no
/// other project is touched.
pub proof fn lemma_donate_keeps_totals(
    s: StorageView,
    project_id: u64,
    donor: Seq<char>,
    amount: i128,
    timestamp: i64,
)
    requires
        s.totals_balanced(),
        donate_fits(s, project_id, donor, amount, timestamp),
    ensures
        donate_spec(s, project_id, donor, amount, timestamp).storage.totals_balanced(),
        donate_spec(s, project_id, donor, amount, timestamp).result is Ok ==> donate_spec(
            s,
            project_id,
            donor,
            amount,
            timestamp,
        ).storage.projects[project_id].current_amount == s.projects[project_id].current_amount
            + amount,
{
    let o = donate_spec(s, project_id, donor, amount, timestamp);
    if o.result is Ok {
        let t = o.storage;
        let seq = (s.last_seq(project_id) + 1) as u64;
        assert(t.last_seq(project_id) == seq);
        assert(s.projects[project_id].current_amount == ledger_total(
            s.donations,
            project_id,
            s.last_seq(project_id) as nat,
        ));
        assert forall|p: u64|
            #![trigger t.projects[p]]
            t.projects.contains_key(p) implies t.projects[p].current_amount == ledger_total(
            t.donations,
            p,
            t.last_seq(p) as nat,
        ) by {
            assert(s.projects.contains_key(p));
            lemma_ledger_total_frame(s.donations, t.donations, p, s.last_seq(p) as nat);
            assert(s.projects[p].current_amount == ledger_total(
                s.donations,
                p,
                s.last_seq(p) as nat,
            ));
        }
    }
}

/// A donation to a gapless ledger whose marks match its donations leaves them
/// matching: the donor is marked for the project, and no other mark changes.
pub proof fn lemma_donate_keeps_marks(
    s: StorageView,
    project_id: u64,
    donor: Seq<char>,
    amount: i128,
    timestamp: i64,
)
    requires
        s.sequences_gapless(),
        s.marks_match_donations(),
        donate_fits(s, project_id, donor, amount, timestamp),
    ensures
        donate_spec(s, project_id, donor, amount, timestamp).storage.marks_match_donations(),
{
    let o = donate_spec(s, project_id, donor, amount, timestamp);
    if o.result is Ok {
        let t = o.storage;
        let seq = (s.last_seq(project_id) + 1) as u64;
        assert(!s.donations.contains_key((project_id, seq)));
        assert forall|d: Seq<char>, p: u64|
            #![trigger t.donor_marks.contains((d, p))]
            t.donor_marks.contains((d, p)) <==> t.has_donated(d, p) by {
            assert(s.donor_marks.contains((d, p)) <==> s.has_donated(d, p));
            if (d, p) == (donor, project_id) {
                assert(t.donations.contains_key((project_id, seq)));
                assert(t.donations[(project_id, seq)].donor == donor);
            } else if s.has_donated(d, p) {
                let sd = s.donations;
                let q = choose|q: u64|
                    #![trigger sd[(p, q)]]
                    sd.contains_key((p, q)) && sd[(p, q)].donor == d;
                assert(t.donations.contains_key((p, q)));
                assert(t.donations[(p, q)].donor == d);
            } else if t.has_donated(d, p) {
                let td = t.donations;
                let q = choose|q: u64|
                    #![trigger td[(p, q)]]
                    td.contains_key((p, q)) && td[(p, q)].donor == d;
                assert((p, q) != (project_id, seq));
                assert(s.donations.contains_key((p, q)));
                assert(s.donations[(p, q)].donor == d);
            }
        }
    }
}

/// A donation keeps the store consistent.
pub proof fn lemma_donate_consistent(
    s: StorageView,
    project_id: u64,
    donor: Seq<char>,
    amount: i128,
    timestamp: i64,
)
    requires
        s.consistent(),
        donate_fits(s, project_id, donor, amount, timestamp),
    ensures
        donate_spec(s, project_id, donor, amount, timestamp).storage.consistent(),
{
    let o = donate_spec(s, project_id, donor, amount, timestamp);
    if o.result is Ok {
        lemma_replaced_project_keeps_ids(
            s,
            o.storage,
            project_id,
            o.storage.projects[project_id],
        );
        lemma_donate_keeps_sequences(s, project_id, donor, amount, timestamp);
        lemma_donate_keeps_totals(s, project_id, donor, amount, timestamp);
        lemma_donate_keeps_marks(s, project_id, donor, amount, timestamp);
    }
}

/// Appending a progress note keeps the store consistent.
pub proof fn lemma_add_update_consistent(
    s: StorageView,
    project_id: u64,
    owner: Seq<char>,
    title: Seq<u8>,
    body: Seq<u8>,
    timestamp: i64,
)
    requires
        s.consistent(),
        add_update_fits(s, project_id, owner, title, body, timestamp),
    ensures
        add_update_spec(s, project_id, owner, title, body, timestamp).storage.consistent(),
{
    let o = add_update_spec(s, project_id, owner, title, body, timestamp);
    if o.result is Ok {
        lemma_project_change_consistent(s, project_id, o.storage.projects[project_id]);
        assert(o.storage.projects =~= s.projects.insert(
            project_id,
            o.storage.projects[project_id],
        ));
    }
}

/// Completing a milestone keeps the store consistent.
pub proof fn lemma_complete_milestone_consistent(
    s: StorageView,
    project_id: u64,
    owner: Seq<char>,
    milestone_index: u32,
    now: u64,
)
    requires
        s.consistent(),
    ensures
        complete_milestone_spec(s, project_id, owner, milestone_index, now).storage.consistent(),
{
    let o = complete_milestone_spec(s, project_id, owner, milestone_index, now);
    if o.result is Ok {
        lemma_project_change_consistent(s, project_id, o.storage.projects[project_id]);
        assert(o.storage.projects =~= s.projects.insert(
            project_id,
            o.storage.projects[project_id],
        ));
    }
}

/// Setting an impact figure keeps the store consistent.
pub proof fn lemma_set_impacted_people_consistent(
    s: StorageView,
    project_id: u64,
    owner: Seq<char>,
    impacted_people: i128,
)
    requires
        s.consistent(),
    ensures
        set_impacted_people_spec(s, project_id, owner, impacted_people).storage.consistent(),
{
    let o = set_impacted_people_spec(s, project_id, owner, impacted_people);
    if o.result is Ok {
        let t = o.storage;
        assert(t.donations == s.donations);
    }
}

/// Where a donor is marked for exactly the projects the donor has given to,
/// the marks and the donations give the same sum of people reached.
pub proof fn lemma_marks_sum_is_donations_sum(s: StorageView, donor: Seq<char>, upto: nat)
    requires
        s.marks_match_donations(),
    ensures
        donor_impact_upto(s, donor, upto) == impact_of_donated_upto(s, donor, upto),
    decreases upto,
{
    if upto > 0 {
        lemma_marks_sum_is_donations_sum(s, donor, (upto - 1) as nat);
        assert(s.donor_marks.contains((donor, upto as u64)) <==> s.has_donated(
            donor,
            upto as u64,
        ));
    }
}

} // verus!
