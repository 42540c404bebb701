//! What each changing operation answers, what it writes and what it announces,
//! as functions of the store before the call and the arguments.

use crate::error::Error;
use crate::event::EventView;
use crate::model::StorageView;
use crate::text::{
    MAX_IMPACT_AREA_LEN, MAX_NAME_LEN, MAX_PROBLEM_STATEMENT_LEN, MAX_UPDATE_BODY_LEN,
    MAX_UPDATE_TITLE_LEN,
};
use crate::types::{DonationView, LocationView, MilestoneView, ProjectView, UpdateView};
use vstd::prelude::*;

verus! {

/// The outcome of one call: the answer, the store after the call, and the
/// events that the call announces.
#[verifier::ext_equal]
pub struct Outcome<T> {
    pub result: Result<T, Error>,
    pub storage: StorageView,
    pub events: Seq<EventView>,
}

impl<T> Outcome<T> {
    /// The outcome of a call that is refused with `error`: nothing is written
    /// and nothing is announced.
    pub open spec fn refused(before: StorageView, error: Error) -> Outcome<T> {
        Outcome { result: Err(error), storage: before, events: Seq::empty() }
    }
}

/// The milestones as a new project stores them: title, description and budget
/// as given, and none of them completed, whatever was given.
pub open spec fn not_completed(milestones: Seq<MilestoneView>) -> Seq<MilestoneView> {
    Seq::new(milestones.len(), |i: int| MilestoneView { completed: false, ..milestones[i] })
}

/// Whether a project with these arguments is accepted, and if not, why: a
/// target that is not positive, or an empty name, is an invalid argument; after
/// that, a name, problem statement or impact area over its limit is too long.
pub open spec fn create_project_check(
    name: Seq<u8>,
    target_amount: i128,
    problem_statement: Seq<u8>,
    impact_area: Seq<u8>,
) -> Result<(), Error> {
    if target_amount <= 0 || name.len() == 0 {
        Err(Error::InvalidArgument)
    } else if name.len() > MAX_NAME_LEN || problem_statement.len() > MAX_PROBLEM_STATEMENT_LEN
        || impact_area.len() > MAX_IMPACT_AREA_LEN {
        Err(Error::StringTooLong)
    } else {
        Ok(())
    }
}

/// The outcome of creating a project.
///
/// Arguments that are not accepted refuse the call. Otherwise the project gets
/// the next identifier and starts with nothing collected, no updates, and the
/// given milestones, none of them completed.
pub open spec fn create_project_spec(
    s: StorageView,
    owner: Seq<char>,
    name: Seq<u8>,
    deadline_ts: i64,
    target_amount: i128,
    problem_statement: Seq<u8>,
    impact_area: Seq<u8>,
    location: LocationView,
    milestones: Seq<MilestoneView>,
) -> Outcome<u64> {
    if let Err(error) = create_project_check(name, target_amount, problem_statement, impact_area) {
        Outcome::refused(s, error)
    } else {
        let id = (s.next_project + 1) as u64;
        let project = ProjectView {
            id,
            owner,
            name,
            deadline_ts,
            current_amount: 0,
            target_amount,
            problem_statement,
            impact_area,
            location,
            milestones: not_completed(milestones),
            updates: Seq::empty(),
        };
        Outcome {
            result: Ok(id),
            storage: StorageView {
                next_project: id,
                projects: s.projects.insert(id, project),
                ..s
            },
            events: seq![
                EventView::ProjectCreated {
                    id,
                    owner,
                    name,
                    deadline_ts,
                    target_amount,
                    impact_area,
                },
            ],
        }
    }
}

/// Whether a project can be created: its milestones can be indexed in 32 bits
/// and, where the arguments are accepted, there is an identifier left to give.
pub open spec fn create_project_fits(
    s: StorageView,
    owner: Seq<char>,
    name: Seq<u8>,
    deadline_ts: i64,
    target_amount: i128,
    problem_statement: Seq<u8>,
    impact_area: Seq<u8>,
    location: LocationView,
    milestones: Seq<MilestoneView>,
) -> bool {
    &&& milestones.len() <= u32::MAX
    &&& create_project_spec(
        s,
        owner,
        name,
        deadline_ts,
        target_amount,
        problem_statement,
        impact_area,
        location,
        milestones,
    ).result is Ok ==> s.next_project < u64::MAX
}

/// Whether a donation of `amount` to `project_id` is accepted, and if not,
/// why: an amount that is not positive is an invalid argument; after that, a
/// project that is not stored is not found.
pub open spec fn donate_check(s: StorageView, project_id: u64, amount: i128) -> Result<(), Error> {
    if amount <= 0 {
        Err(Error::InvalidArgument)
    } else if !s.projects.contains_key(project_id) {
        Err(Error::ProjectNotFound)
    } else {
        Ok(())
    }
}

/// The outcome of a donation.
///
/// A donation that is not accepted refuses the call. Otherwise the amount is
/// added to what the project has collected, the donation is recorded under the
/// sequence number after the project's latest, the donor is marked as having
/// given to the project, and the project's latest sequence number advances.
pub open spec fn donate_spec(
    s: StorageView,
    project_id: u64,
    donor: Seq<char>,
    amount: i128,
    timestamp: i64,
) -> Outcome<u64> {
    if let Err(error) = donate_check(s, project_id, amount) {
        Outcome::refused(s, error)
    } else {
        let project = s.projects[project_id];
        let seq = (s.last_seq(project_id) + 1) as u64;
        let total = (project.current_amount + amount) as i128;
        let donation = DonationView { seq, project_id, donor, amount, timestamp };
        Outcome {
            result: Ok(seq),
            storage: StorageView {
                projects: s.projects.insert(
                    project_id,
                    ProjectView { current_amount: total, ..project },
                ),
                donations: s.donations.insert((project_id, seq), donation),
                donor_marks: s.donor_marks.insert((donor, project_id)),
                donation_seqs: s.donation_seqs.insert(project_id, seq),
                ..s
            },
            events: seq![
                EventView::DonationRecorded { project_id, seq, donor, amount, timestamp, total },
            ],
        }
    }
}

/// Whether a donation can be recorded: where it is accepted, the project has a
/// sequence number left to give, and what it has collected stays within 128
/// bits.
pub open spec fn donate_fits(
    s: StorageView,
    project_id: u64,
    donor: Seq<char>,
    amount: i128,
    timestamp: i64,
) -> bool {
    donate_spec(s, project_id, donor, amount, timestamp).result is Ok ==> {
        &&& s.last_seq(project_id) < u64::MAX
        &&& s.projects[project_id].current_amount + amount <= i128::MAX
    }
}

/// Whether a progress note by `owner` for `project_id` is accepted, and if
/// not, why: a project that is not stored is not found; after that, anyone but
/// the project's owner is not authorized; after that, a title or body over its
/// limit is too long.
pub open spec fn add_update_check(
    s: StorageView,
    project_id: u64,
    owner: Seq<char>,
    title: Seq<u8>,
    body: Seq<u8>,
) -> Result<(), Error> {
    if !s.projects.contains_key(project_id) {
        Err(Error::ProjectNotFound)
    } else if s.projects[project_id].owner != owner {
        Err(Error::NotAuthorized)
    } else if title.len() > MAX_UPDATE_TITLE_LEN || body.len() > MAX_UPDATE_BODY_LEN {
        Err(Error::StringTooLong)
    } else {
        Ok(())
    }
}

/// The outcome of appending a progress note.
///
/// A note that is not accepted refuses the call. Otherwise the note is
/// appended behind the notes that are there, and its index is the number of
/// notes before it.
pub open spec fn add_update_spec(
    s: StorageView,
    project_id: u64,
    owner: Seq<char>,
    title: Seq<u8>,
    body: Seq<u8>,
    timestamp: i64,
) -> Outcome<()> {
    if let Err(error) = add_update_check(s, project_id, owner, title, body) {
        Outcome::refused(s, error)
    } else {
        let project = s.projects[project_id];
        let index = project.updates.len() as u32;
        let update = UpdateView { title, body, timestamp };
        Outcome {
            result: Ok(()),
            storage: StorageView {
                projects: s.projects.insert(
                    project_id,
                    ProjectView { updates: project.updates.push(update), ..project },
                ),
                ..s
            },
            events: seq![EventView::UpdateAdded { project_id, index, timestamp, title }],
        }
    }
}

/// Whether a progress note can be appended: where it is accepted, the project
/// has an index left to give.
pub open spec fn add_update_fits(
    s: StorageView,
    project_id: u64,
    owner: Seq<char>,
    title: Seq<u8>,
    body: Seq<u8>,
    timestamp: i64,
) -> bool {
    add_update_spec(s, project_id, owner, title, body, timestamp).result is Ok
        ==> s.projects[project_id].updates.len() < u32::MAX
}

/// The outcome of marking a milestone as completed at the ledger time `now`.
///
/// A project that is not stored is not found; after that, anyone but the
/// project's owner is not authorized; after that, an index at or beyond the
/// number of milestones is an invalid argument. Otherwise the milestone at the
/// index is completed, whatever it was before, and the completion is announced,
/// on a repeated call too.
pub open spec fn complete_milestone_spec(
    s: StorageView,
    project_id: u64,
    owner: Seq<char>,
    milestone_index: u32,
    now: u64,
) -> Outcome<()> {
    if !s.projects.contains_key(project_id) {
        Outcome::refused(s, Error::ProjectNotFound)
    } else if s.projects[project_id].owner != owner {
        Outcome::refused(s, Error::NotAuthorized)
    } else if milestone_index >= s.projects[project_id].milestones.len() {
        Outcome::refused(s, Error::InvalidArgument)
    } else {
        let project = s.projects[project_id];
        let milestone = project.milestones[milestone_index as int];
        let completed = MilestoneView { completed: true, ..milestone };
        Outcome {
            result: Ok(()),
            storage: StorageView {
                projects: s.projects.insert(
                    project_id,
                    ProjectView {
                        milestones: project.milestones.update(milestone_index as int, completed),
                        ..project
                    },
                ),
                ..s
            },
            events: seq![
                EventView::MilestoneCompleted {
                    project_id,
                    index: milestone_index,
                    title: milestone.title,
                    timestamp: now,
                },
            ],
        }
    }
}

/// The outcome of setting the number of people a project has reached.
///
/// A project that is not stored is not found; after that, anyone but the
/// project's owner is not authorized; after that, a negative number is an
/// invalid argument. Otherwise the number replaces the one stored before.
pub open spec fn set_impacted_people_spec(
    s: StorageView,
    project_id: u64,
    owner: Seq<char>,
    impacted_people: i128,
) -> Outcome<()> {
    if !s.projects.contains_key(project_id) {
        Outcome::refused(s, Error::ProjectNotFound)
    } else if s.projects[project_id].owner != owner {
        Outcome::refused(s, Error::NotAuthorized)
    } else if impacted_people < 0 {
        Outcome::refused(s, Error::InvalidArgument)
    } else {
        Outcome {
            result: Ok(()),
            storage: StorageView { impacted: s.impacted.insert(project_id, impacted_people), ..s },
            events: seq![EventView::ImpactSet { project_id, impacted_people }],
        }
    }
}

} // verus!
