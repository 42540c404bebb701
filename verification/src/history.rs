//! The stores that a marketplace can reach: those that a sequence of calls
//! leads to from the empty store.

use crate::consistency::{
    lemma_add_update_consistent, lemma_complete_milestone_consistent,
    lemma_create_project_consistent, lemma_donate_consistent, lemma_empty_consistent,
    lemma_set_impacted_people_consistent,
};
use crate::model::StorageView;
use crate::rules::{
    add_update_fits, add_update_spec, complete_milestone_spec, create_project_fits,
    create_project_spec, donate_fits, donate_spec, set_impacted_people_spec,
};
use crate::types::{LocationView, MilestoneView};
use vstd::prelude::*;

verus! {

/// One call of a changing operation, with its arguments.
pub enum Call {
    CreateProject {
        owner: Seq<char>,
        name: Seq<u8>,
        deadline_ts: i64,
        target_amount: i128,
        problem_statement: Seq<u8>,
        impact_area: Seq<u8>,
        location: LocationView,
        milestones: Seq<MilestoneView>,
    },
    Donate { project_id: u64, donor: Seq<char>, amount: i128, timestamp: i64 },
    AddUpdate {
        project_id: u64,
        owner: Seq<char>,
        title: Seq<u8>,
        body: Seq<u8>,
        timestamp: i64,
    },
    CompleteMilestone { project_id: u64, owner: Seq<char>, milestone_index: u32, now: u64 },
    SetImpactedPeople { project_id: u64, owner: Seq<char>, impacted_people: i128 },
}

/// The store after `call` was made on `s`. A refused call leaves `s` as it
/// was.
pub open spec fn after(s: StorageView, call: Call) -> StorageView {
    match call {
        Call::CreateProject {
            owner,
            name,
            deadline_ts,
            target_amount,
            problem_statement,
            impact_area,
            location,
            milestones,
        } => create_project_spec(
            s,
            owner,
            name,
            deadline_ts,
            target_amount,
            problem_statement,
            impact_area,
            location,
            milestones,
        ).storage,
        Call::Donate { project_id, donor, amount, timestamp } => donate_spec(
            s,
            project_id,
            donor,
            amount,
            timestamp,
        ).storage,
        Call::AddUpdate { project_id, owner, title, body, timestamp } => add_update_spec(
            s,
            project_id,
            owner,
            title,
            body,
            timestamp,
        ).storage,
        Call::CompleteMilestone {
            project_id,
            owner,
            milestone_index,
            now,
        } => complete_milestone_spec(s, project_id, owner, milestone_index, now).storage,
        Call::SetImpactedPeople {
            project_id,
            owner,
            impacted_people,
        } => set_impacted_people_spec(s, project_id, owner, impacted_people).storage,
    }
}

/// Whether `call` can be made on `s`: the counters, the amount collected and
/// the index space of milestones and updates have room for what it adds.
pub open spec fn admitted(s: StorageView, call: Call) -> bool {
    match call {
        Call::CreateProject {
            owner,
            name,
            deadline_ts,
            target_amount,
            problem_statement,
            impact_area,
            location,
            milestones,
        } => create_project_fits(
            s,
            owner,
            name,
            deadline_ts,
            target_amount,
            problem_statement,
            impact_area,
            location,
            milestones,
        ),
        Call::Donate { project_id, donor, amount, timestamp } => donate_fits(
            s,
            project_id,
            donor,
            amount,
            timestamp,
        ),
        Call::AddUpdate { project_id, owner, title, body, timestamp } => add_update_fits(
            s,
            project_id,
            owner,
            title,
            body,
            timestamp,
        ),
        Call::CompleteMilestone { .. } => true,
        Call::SetImpactedPeople { .. } => true,
    }
}

/// The store that the calls `calls`, made in order on the empty store, lead
/// to.
pub open spec fn reached(calls: Seq<Call>) -> StorageView
    decreases calls.len(),
{
    if calls.len() == 0 {
        StorageView::empty()
    } else {
        after(reached(calls.drop_last()), calls.last())
    }
}

/// Whether each of `calls` can be made on the store that the calls before it
/// lead to.
pub open spec fn all_admitted(calls: Seq<Call>) -> bool
    decreases calls.len(),
{
    calls.len() > 0 ==> all_admitted(calls.drop_last()) && admitted(
        reached(calls.drop_last()),
        calls.last(),
    )
}

/// A call that can be made on a consistent store leaves it consistent.
pub proof fn lemma_call_keeps_consistent(s: StorageView, call: Call)
    requires
        s.consistent(),
        admitted(s, call),
    ensures
        after(s, call).consistent(),
{
    match call {
        Call::CreateProject {
            owner,
            name,
            deadline_ts,
            target_amount,
            problem_statement,
            impact_area,
            location,
            milestones,
        } => {
            lemma_create_project_consistent(
                s,
                owner,
                name,
                deadline_ts,
                target_amount,
                problem_statement,
                impact_area,
                location,
                milestones,
            );
        },
        Call::Donate { project_id, donor, amount, timestamp } => {
            lemma_donate_consistent(s, project_id, donor, amount, timestamp);
        },
        Call::AddUpdate { project_id, owner, title, body, timestamp } => {
            lemma_add_update_consistent(s, project_id, owner, title, body, timestamp);
        },
        Call::CompleteMilestone { project_id, owner, milestone_index, now } => {
            lemma_complete_milestone_consistent(s, project_id, owner, milestone_index, now);
        },
        Call::SetImpactedPeople { project_id, owner, impacted_people } => {
            lemma_set_impacted_people_consistent(s, project_id, owner, impacted_people);
        },
    }
}

/// Every store that calls lead to from the empty store is consistent, in
/// whatever order the calls come and whichever of them are refused.
pub proof fn lemma_reached_consistent(calls: Seq<Call>)
    requires
        all_admitted(calls),
    ensures
        reached(calls).consistent(),
    decreases calls.len(),
{
    if calls.len() == 0 {
        lemma_empty_consistent();
    } else {
        lemma_reached_consistent(calls.drop_last());
        lemma_call_keeps_consistent(reached(calls.drop_last()), calls.last());
    }
}

} // verus!
