//! Nothing that was recorded is taken back: projects, donations and marks
//! stay, and what may change in a project only grows.

use crate::history::{admitted, after, Call};
use crate::model::StorageView;
use crate::paging::is_prefix_of;
use crate::types::ProjectView;
use vstd::prelude::*;

verus! {

/// Whether `later` is `earlier` some calls on: the same project with the same
/// owner, name, deadline, target, texts and place; no less collected; the same
/// milestones, none of them reopened; and the same updates at the same
/// indices, with any new ones behind them.
pub open spec fn project_kept(earlier: ProjectView, later: ProjectView) -> bool {
    &&& later.id == earlier.id
    &&& later.owner == earlier.owner
    &&& later.name == earlier.name
    &&& later.deadline_ts == earlier.deadline_ts
    &&& later.target_amount == earlier.target_amount
    &&& later.problem_statement == earlier.problem_statement
    &&& later.impact_area == earlier.impact_area
    &&& later.location == earlier.location
    &&& later.current_amount >= earlier.current_amount
    &&& later.milestones.len() == earlier.milestones.len()
    &&& forall|i: int|
        0 <= i < earlier.milestones.len() ==> {
            &&& (#[trigger] later.milestones[i]).title == earlier.milestones[i].title
            &&& later.milestones[i].description == earlier.milestones[i].description
            &&& later.milestones[i].amount_budget == earlier.milestones[i].amount_budget
            &&& earlier.milestones[i].completed ==> later.milestones[i].completed
        }
    &&& is_prefix_of(earlier.updates, later.updates)
}

/// Whether `later` holds everything that `earlier` holds: no identifier is
/// given out again, every project is kept, every donation stands as it was
/// recorded, no sequence counter goes back and no mark is cleared.
pub open spec fn kept(earlier: StorageView, later: StorageView) -> bool {
    &&& earlier.next_project <= later.next_project
    &&& forall|id: u64|
        #![trigger earlier.projects.contains_key(id)]
        earlier.projects.contains_key(id) ==> later.projects.contains_key(id) && project_kept(
            earlier.projects[id],
            later.projects[id],
        )
    &&& forall|id: u64|
        #![trigger later.projects.contains_key(id)]
        later.projects.contains_key(id) && !earlier.projects.contains_key(id)
            ==> earlier.next_project < id
    &&& forall|k: (u64, u64)|
        #![trigger earlier.donations.contains_key(k)]
        earlier.donations.contains_key(k) ==> later.donations.contains_key(k)
            && later.donations[k] == earlier.donations[k]
    &&& forall|project_id: u64|
        #![trigger later.last_seq(project_id)]
        earlier.last_seq(project_id) <= later.last_seq(project_id)
    &&& earlier.donor_marks.subset_of(later.donor_marks)
}

/// Every project is kept by itself.
pub proof fn lemma_project_kept_reflexive(p: ProjectView)
    ensures
        project_kept(p, p),
{
    assert(p.updates.subrange(0, p.updates.len() as int) =~= p.updates);
}

/// A call on a consistent store keeps everything that the store holds.
pub proof fn lemma_call_keeps_records(s: StorageView, call: Call)
    requires
        s.consistent(),
        admitted(s, call),
    ensures
        kept(s, after(s, call)),
{
    let t = after(s, call);
    assert forall|id: u64|
        #![trigger s.projects.contains_key(id)]
        s.projects.contains_key(id) implies t.projects.contains_key(id) && project_kept(
        s.projects[id],
        t.projects[id],
    ) by {
        lemma_project_kept_reflexive(s.projects[id]);
        let p = s.projects[id];
        let q = t.projects[id];
        match call {
            Call::AddUpdate { project_id, .. } => {
                if project_id == id && q != p {
                    assert(q.updates.subrange(0, p.updates.len() as int) =~= p.updates);
                }
            },
            Call::CreateProject { .. } => {
                assert(1 <= id <= s.next_project);
            },
            _ => {},
        }
    }
    assert forall|k: (u64, u64)|
        #![trigger s.donations.contains_key(k)]
        s.donations.contains_key(k) implies t.donations.contains_key(k) && t.donations[k]
        == s.donations[k] by {
        assert(k == (k.0, k.1));
        assert(s.donations.contains_key((k.0, k.1)));
        assert(1 <= k.1 <= s.last_seq(k.0));
    }
    assert forall|id: u64|
        #![trigger t.projects.contains_key(id)]
        t.projects.contains_key(id) && !s.projects.contains_key(id) implies s.next_project
        < id by {}
}

/// What is kept over two stretches is kept over both together.
pub proof fn lemma_kept_transitive(a: StorageView, b: StorageView, c: StorageView)
    requires
        kept(a, b),
        kept(b, c),
    ensures
        kept(a, c),
{
    assert forall|id: u64|
        #![trigger a.projects.contains_key(id)]
        a.projects.contains_key(id) implies c.projects.contains_key(id) && project_kept(
        a.projects[id],
        c.projects[id],
    ) by {
        assert(b.projects.contains_key(id));
        assert(c.projects.contains_key(id));
        let p = a.projects[id];
        let q = b.projects[id];
        let r = c.projects[id];
        assert(project_kept(p, q) && project_kept(q, r));
        assert(r.updates.subrange(0, p.updates.len() as int) =~= q.updates.subrange(
            0,
            p.updates.len() as int,
        ));
        assert forall|i: int| 0 <= i < p.milestones.len() implies {
            &&& (#[trigger] r.milestones[i]).title == p.milestones[i].title
            &&& r.milestones[i].description == p.milestones[i].description
            &&& r.milestones[i].amount_budget == p.milestones[i].amount_budget
            &&& p.milestones[i].completed ==> r.milestones[i].completed
        } by {
            assert(q.milestones[i].title == p.milestones[i].title);
        }
    }
    assert forall|id: u64|
        #![trigger c.projects.contains_key(id)]
        c.projects.contains_key(id) && !a.projects.contains_key(id) implies a.next_project
        < id by {
        if b.projects.contains_key(id) {
        } else {
            assert(b.next_project < id);
        }
    }
    assert forall|k: (u64, u64)|
        #![trigger a.donations.contains_key(k)]
        a.donations.contains_key(k) implies c.donations.contains_key(k) && c.donations[k]
        == a.donations[k] by {
        assert(b.donations.contains_key(k));
    }
    assert forall|project_id: u64|
        #![trigger c.last_seq(project_id)]
        a.last_seq(project_id) <= c.last_seq(project_id) by {
        assert(a.last_seq(project_id) <= b.last_seq(project_id));
    }
    assert(a.donor_marks.subset_of(c.donor_marks)) by {
        assert forall|m: (Seq<char>, u64)| a.donor_marks.contains(m) implies c.donor_marks.contains(
            m,
        ) by {
            assert(b.donor_marks.contains(m));
        }
    }
}

/// Every store keeps what it holds.
pub proof fn lemma_kept_reflexive(s: StorageView)
    ensures
        kept(s, s),
{
    assert forall|id: u64|
        #![trigger s.projects.contains_key(id)]
        s.projects.contains_key(id) implies project_kept(s.projects[id], s.projects[id]) by {
        lemma_project_kept_reflexive(s.projects[id]);
    }
}

} // verus!
