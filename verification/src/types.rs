//! What the marketplace records, and what each record is to the
//! specifications. Texts are held as the bytes that are stored.

use crate::address::Address;
use crate::text::copy_text;
use vstd::prelude::*;

verus! {

/// A budget checkpoint of a project. Milestones are fixed when the project is
/// created, and `completed` starts false then, whatever was given; afterwards
/// only `completed` changes, and only from false to true.
#[derive(Debug, PartialEq, Eq)]
pub struct Milestone {
    pub title: Vec<u8>,
    pub description: Vec<u8>,
    pub amount_budget: i128,
    pub completed: bool,
}

/// What a [`Milestone`] is to the specifications.
pub struct MilestoneView {
    pub title: Seq<u8>,
    pub description: Seq<u8>,
    pub amount_budget: i128,
    pub completed: bool,
}

impl View for Milestone {
    type V = MilestoneView;

    open spec fn view(&self) -> MilestoneView {
        MilestoneView {
            title: self.title@,
            description: self.description@,
            amount_budget: self.amount_budget,
            completed: self.completed,
        }
    }
}

impl Clone for Milestone {
    fn clone(&self) -> (m: Milestone)
        ensures
            m@ == self@,
    {
        Milestone {
            title: copy_text(&self.title),
            description: copy_text(&self.description),
            amount_budget: self.amount_budget,
            completed: self.completed,
        }
    }
}

/// A progress note of a project. Notes are only ever appended.
#[derive(Debug, PartialEq, Eq)]
pub struct Update {
    pub title: Vec<u8>,
    pub body: Vec<u8>,
    pub timestamp: i64,
}

/// What an [`Update`] is to the specifications.
pub struct UpdateView {
    pub title: Seq<u8>,
    pub body: Seq<u8>,
    pub timestamp: i64,
}

impl View for Update {
    type V = UpdateView;

    open spec fn view(&self) -> UpdateView {
        UpdateView { title: self.title@, body: self.body@, timestamp: self.timestamp }
    }
}

impl Clone for Update {
    fn clone(&self) -> (u: Update)
        ensures
            u@ == self@,
    {
        Update {
            title: copy_text(&self.title),
            body: copy_text(&self.body),
            timestamp: self.timestamp,
        }
    }
}

/// Where a project takes place: coordinates and the region in words.
#[derive(Debug, PartialEq, Eq)]
pub struct Location {
    pub latitude: i32,
    pub longitude: i32,
    pub country: Vec<u8>,
    pub province: Vec<u8>,
    pub city: Vec<u8>,
}

/// What a [`Location`] is to the specifications.
pub struct LocationView {
    pub latitude: i32,
    pub longitude: i32,
    pub country: Seq<u8>,
    pub province: Seq<u8>,
    pub city: Seq<u8>,
}

impl View for Location {
    type V = LocationView;

    open spec fn view(&self) -> LocationView {
        LocationView {
            latitude: self.latitude,
            longitude: self.longitude,
            country: self.country@,
            province: self.province@,
            city: self.city@,
        }
    }
}

impl Clone for Location {
    fn clone(&self) -> (l: Location)
        ensures
            l@ == self@,
    {
        Location {
            latitude: self.latitude,
            longitude: self.longitude,
            country: copy_text(&self.country),
            province: copy_text(&self.province),
            city: copy_text(&self.city),
        }
    }
}

/// One contribution to a project, as the ledger records it.
#[derive(Debug, PartialEq, Eq)]
pub struct Donation {
    pub seq: u64,
    pub project_id: u64,
    pub donor: Address,
    pub amount: i128,
    pub timestamp: i64,
}

/// What a [`Donation`] is to the specifications.
pub struct DonationView {
    pub seq: u64,
    pub project_id: u64,
    pub donor: Seq<char>,
    pub amount: i128,
    pub timestamp: i64,
}

impl View for Donation {
    type V = DonationView;

    open spec fn view(&self) -> DonationView {
        DonationView {
            seq: self.seq,
            project_id: self.project_id,
            donor: self.donor@,
            amount: self.amount,
            timestamp: self.timestamp,
        }
    }
}

impl Clone for Donation {
    fn clone(&self) -> (d: Donation)
        ensures
            d@ == self@,
    {
        Donation {
            seq: self.seq,
            project_id: self.project_id,
            donor: self.donor.clone(),
            amount: self.amount,
            timestamp: self.timestamp,
        }
    }
}

/// The views of a sequence of milestones, in the same order.
pub open spec fn milestone_views(milestones: Seq<Milestone>) -> Seq<MilestoneView> {
    milestones.map_values(|m: Milestone| m@)
}

/// The views of a sequence of updates, in the same order.
pub open spec fn update_views(updates: Seq<Update>) -> Seq<UpdateView> {
    updates.map_values(|u: Update| u@)
}

/// The views of a sequence of donations, in the same order.
pub open spec fn donation_views(donations: Seq<Donation>) -> Seq<DonationView> {
    donations.map_values(|d: Donation| d@)
}

/// A funding campaign: what is asked for, by whom, and how far it has come.
#[derive(Debug, PartialEq, Eq)]
pub struct Project {
    pub id: u64,
    pub owner: Address,
    pub name: Vec<u8>,
    pub deadline_ts: i64,
    pub current_amount: i128,
    pub target_amount: i128,
    pub problem_statement: Vec<u8>,
    pub impact_area: Vec<u8>,
    pub location: Location,
    pub milestones: Vec<Milestone>,
    pub updates: Vec<Update>,
}

/// What a [`Project`] is to the specifications.
pub struct ProjectView {
    pub id: u64,
    pub owner: Seq<char>,
    pub name: Seq<u8>,
    pub deadline_ts: i64,
    pub current_amount: i128,
    pub target_amount: i128,
    pub problem_statement: Seq<u8>,
    pub impact_area: Seq<u8>,
    pub location: LocationView,
    pub milestones: Seq<MilestoneView>,
    pub updates: Seq<UpdateView>,
}

impl View for Project {
    type V = ProjectView;

    open spec fn view(&self) -> ProjectView {
        ProjectView {
            id: self.id,
            owner: self.owner@,
            name: self.name@,
            deadline_ts: self.deadline_ts,
            current_amount: self.current_amount,
            target_amount: self.target_amount,
            problem_statement: self.problem_statement@,
            impact_area: self.impact_area@,
            location: self.location@,
            milestones: milestone_views(self.milestones@),
            updates: update_views(self.updates@),
        }
    }
}

impl Clone for Project {
    fn clone(&self) -> (p: Project)
        ensures
            p@ == self@,
    {
        let milestones = self.milestones.clone();
        let updates = self.updates.clone();
        assert(milestone_views(milestones@) =~= milestone_views(self.milestones@));
        assert(update_views(updates@) =~= update_views(self.updates@));
        Project {
            id: self.id,
            owner: self.owner.clone(),
            name: copy_text(&self.name),
            deadline_ts: self.deadline_ts,
            current_amount: self.current_amount,
            target_amount: self.target_amount,
            problem_statement: copy_text(&self.problem_statement),
            impact_area: copy_text(&self.impact_area),
            location: self.location.clone(),
            milestones,
            updates,
        }
    }
}

/// The views of a sequence of projects, in the same order.
pub open spec fn project_views(projects: Seq<Project>) -> Seq<ProjectView> {
    projects.map_values(|p: Project| p@)
}

/// Figures of one project, computed on demand and never stored.
#[derive(Clone, Copy, Debug, PartialEq, Eq, Structural)]
pub struct Stats {
    pub current_amount: i128,
    pub target_amount: i128,
    pub percent_bp: i128,
    pub donations_count: u64,
    pub milestones_completed: u32,
    pub milestones_total: u32,
    pub last_update_ts: i64,
}

} // verus!
