//! The operations of the marketplace, each proved against its outcome in the
//! model.

use crate::address::Address;
use crate::consistency::{
    lemma_add_update_consistent, lemma_complete_milestone_consistent,
    lemma_create_project_consistent, lemma_donate_consistent, lemma_donate_keeps_sequences,
    lemma_donate_keeps_totals, lemma_empty_consistent, lemma_marks_sum_is_donations_sum,
    lemma_set_impacted_people_consistent,
};
use crate::error::Error;
use crate::event::{event_views, Event};
use crate::model::{
    completed_count, donor_impact, donor_impact_fits, donor_impact_upto, impact_of_donated_upto,
    impact_share, last_update_ts, percent_bp, StorageView,
};
use crate::rules::{
    add_update_check, add_update_fits, add_update_spec, complete_milestone_spec,
    create_project_check, create_project_fits, create_project_spec, donate_check, donate_fits,
    donate_spec, not_completed, set_impacted_people_spec, Outcome,
};
use crate::paging::{found_between, lemma_page_when_full, page, reads_on};
use crate::storage::Storage;
use crate::text::{
    copy_text, MAX_IMPACT_AREA_LEN, MAX_NAME_LEN, MAX_PROBLEM_STATEMENT_LEN,
    MAX_UPDATE_BODY_LEN, MAX_UPDATE_TITLE_LEN,
};
use crate::types::{
    donation_views, milestone_views, project_views, update_views, Donation, Location, Milestone,
    MilestoneView, Project, Stats, Update,
};
use vstd::prelude::*;

verus! {

broadcast use vstd::seq::Seq::add_empty_right;

/// The marketplace: its store, the events it has announced, and the time of
/// the ledger it runs on.
///
/// An identity that is passed to an operation (`owner`, `donor`) is taken as
/// the caller's: whoever embeds the marketplace verifies it before the call.
/// A call that is refused writes nothing and announces nothing.
pub struct MarketplaceContract {
    /// The keyed store that holds all lasting state.
    pub storage: Storage,
    /// The events announced so far, oldest first.
    pub events: Vec<Event>,
    /// The current time of the ledger, as the environment gives it.
    pub ledger_timestamp: u64,
}

impl MarketplaceContract {
    /// Whether a call with the given outcome leads from `before` to `self`:
    /// the store is the outcome's, the outcome's events stand behind those
    /// announced before, and the ledger time is untouched.
    pub open spec fn follows<T>(self, before: MarketplaceContract, outcome: Outcome<T>) -> bool {
        &&& self.storage@ == outcome.storage
        &&& event_views(self.events@) == event_views(before.events@) + outcome.events
        &&& self.ledger_timestamp == before.ledger_timestamp
    }

    /// Puts `event` behind the events announced so far.
    fn announce(&mut self, event: Event)
        ensures
            final(self).storage == old(self).storage,
            final(self).ledger_timestamp == old(self).ledger_timestamp,
            event_views(final(self).events@) == event_views(old(self).events@) + seq![event@],
    {
        self.events.push(event);
        assert(event_views(self.events@) =~= event_views(old(self).events@) + seq![event@]);
    }

    /// A marketplace with an empty store, no events and the ledger time 0.
    pub fn new() -> (c: MarketplaceContract)
        ensures
            c.storage@ == StorageView::empty(),
            c.storage@.consistent(),
            c.events@.len() == 0,
            c.ledger_timestamp == 0,
    {
        proof {
            lemma_empty_consistent();
        }
        MarketplaceContract { storage: Storage::new(), events: Vec::new(), ledger_timestamp: 0 }
    }

    /// Whether a project with these arguments is accepted: refused as an
    /// invalid argument if `target_amount` is not positive or `name` is empty,
    /// then as too long if `name`, `problem_statement` or `impact_area` is over
    /// its limit.
    pub fn check_create_project(
        name: &Vec<u8>,
        target_amount: i128,
        problem_statement: &Vec<u8>,
        impact_area: &Vec<u8>,
    ) -> (r: Result<(), Error>)
        ensures
            r == create_project_check(name@, target_amount, problem_statement@, impact_area@),
    {
        if target_amount <= 0 || name.len() == 0 {
            Err(Error::InvalidArgument)
        } else if name.len() > MAX_NAME_LEN || problem_statement.len() > MAX_PROBLEM_STATEMENT_LEN
            || impact_area.len() > MAX_IMPACT_AREA_LEN {
            Err(Error::StringTooLong)
        } else {
            Ok(())
        }
    }

    /// Creates a project owned by `owner` and answers its identifier, the one
    /// after the identifier given last.
    ///
    /// The project starts with nothing collected, without updates, and with
    /// the given milestones, none of them completed.
    ///
    /// Refused where [`Self::check_create_project`] refuses the arguments.
    pub fn create_project(
        &mut self,
        owner: Address,
        name: Vec<u8>,
        deadline_ts: i64,
        target_amount: i128,
        problem_statement: Vec<u8>,
        impact_area: Vec<u8>,
        location: Location,
        milestones: Vec<Milestone>,
    ) -> (r: Result<u64, Error>)
        requires
            create_project_fits(
                old(self).storage@,
                owner@,
                name@,
                deadline_ts,
                target_amount,
                problem_statement@,
                impact_area@,
                location@,
                milestone_views(milestones@),
            ),
        ensures
            r == create_project_spec(
                old(self).storage@,
                owner@,
                name@,
                deadline_ts,
                target_amount,
                problem_statement@,
                impact_area@,
                location@,
                milestone_views(milestones@),
            ).result,
            final(self).follows(
                *old(self),
                create_project_spec(
                    old(self).storage@,
                    owner@,
                    name@,
                    deadline_ts,
                    target_amount,
                    problem_statement@,
                    impact_area@,
                    location@,
                    milestone_views(milestones@),
                ),
            ),
            old(self).storage@.consistent() ==> final(self).storage@.consistent(),
    {
        proof {
            if self.storage@.consistent() {
                lemma_create_project_consistent(
                    self.storage@,
                    owner@,
                    name@,
                    deadline_ts,
                    target_amount,
                    problem_statement@,
                    impact_area@,
                    location@,
                    milestone_views(milestones@),
                );
            }
        }
        if let Err(error) = Self::check_create_project(
            &name,
            target_amount,
            &problem_statement,
            &impact_area,
        ) {
            return Err(error);
        }
        let id: u64 = self.storage.read_next_project_id() + 1;
        let event = Event::ProjectCreated {
            id,
            owner: owner.clone(),
            name: copy_text(&name),
            deadline_ts,
            target_amount,
            impact_area: copy_text(&impact_area),
        };
        let project = Project {
            id,
            owner,
            name,
            deadline_ts,
            current_amount: 0,
            target_amount,
            problem_statement,
            impact_area,
            location,
            milestones: as_not_completed(milestones),
            updates: Vec::new(),
        };
        proof {
            assert(project@.updates =~= Seq::empty());
        }
        self.storage.set_project(id, project);
        self.storage.write_next_project_id(id);
        self.announce(event);
        Ok(id)
    }

    /// Whether a donation of `amount` to `project_id` is accepted: refused as
    /// an invalid argument if `amount` is not positive, then as not found if no
    /// project is stored under `project_id`.
    pub fn check_donate(&self, project_id: u64, amount: i128) -> (r: Result<(), Error>)
        ensures
            r == donate_check(self.storage@, project_id, amount),
    {
        if amount <= 0 {
            Err(Error::InvalidArgument)
        } else if self.storage.project(project_id).is_none() {
            Err(Error::ProjectNotFound)
        } else {
            Ok(())
        }
    }

    /// Records a donation of `amount` by `donor` to `project_id` and answers
    /// its sequence number, the one after the project's latest.
    ///
    /// Refused where [`Self::check_donate`] refuses the donation. Where what
    /// the projects have collected matched their ledgers before, it does so
    /// after; where the ledgers had no gaps before, they have none after.
    pub fn donate(
        &mut self,
        project_id: u64,
        donor: Address,
        amount: i128,
        timestamp: i64,
    ) -> (r: Result<u64, Error>)
        requires
            donate_fits(old(self).storage@, project_id, donor@, amount, timestamp),
        ensures
            r == donate_spec(old(self).storage@, project_id, donor@, amount, timestamp).result,
            final(self).follows(
                *old(self),
                donate_spec(old(self).storage@, project_id, donor@, amount, timestamp),
            ),
            old(self).storage@.totals_balanced() ==> final(self).storage@.totals_balanced(),
            old(self).storage@.sequences_gapless() ==> final(self).storage@.sequences_gapless(),
            old(self).storage@.consistent() ==> final(self).storage@.consistent(),
    {
        proof {
            if self.storage@.totals_balanced() {
                lemma_donate_keeps_totals(self.storage@, project_id, donor@, amount, timestamp);
            }
            if self.storage@.sequences_gapless() {
                lemma_donate_keeps_sequences(self.storage@, project_id, donor@, amount, timestamp);
            }
            if self.storage@.consistent() {
                lemma_donate_consistent(self.storage@, project_id, donor@, amount, timestamp);
            }
        }
        if let Err(error) = self.check_donate(project_id, amount) {
            return Err(error);
        }
        let mut project = match self.get_project(project_id) {
            Ok(project) => project,
            Err(e) => {
                return Err(e);
            },
        };
        let total: i128 = project.current_amount + amount;
        project.current_amount = total;
        let seq: u64 = self.storage.read_project_don_seq(project_id) + 1;
        let donation = Donation { seq, project_id, donor: donor.clone(), amount, timestamp };
        let event = Event::DonationRecorded {
            project_id,
            seq,
            donor: donor.clone(),
            amount,
            timestamp,
            total,
        };
        self.storage.set_project(project_id, project);
        self.storage.set_donation(project_id, seq, donation);
        self.storage.set_donor_mark(donor, project_id);
        self.storage.write_project_don_seq(project_id, seq);
        self.announce(event);
        proof {
            assert(self.storage@ =~= donate_spec(
                old(self).storage@,
                project_id,
                donor@,
                amount,
                timestamp,
            ).storage);
        }
        Ok(seq)
    }

    /// Whether a progress note by `owner` for `project_id` is accepted: refused
    /// as not found if no project is stored under `project_id`, then as not
    /// authorized if `owner` is not the project's owner, then as too long if
    /// `title` or `body` is over its limit.
    pub fn check_add_update(
        &self,
        project_id: u64,
        owner: &Address,
        title: &Vec<u8>,
        body: &Vec<u8>,
    ) -> (r: Result<(), Error>)
        ensures
            r == add_update_check(self.storage@, project_id, owner@, title@, body@),
    {
        match self.storage.project(project_id) {
            None => Err(Error::ProjectNotFound),
            Some(project) => {
                if !project.owner.same(owner) {
                    Err(Error::NotAuthorized)
                } else if title.len() > MAX_UPDATE_TITLE_LEN || body.len() > MAX_UPDATE_BODY_LEN {
                    Err(Error::StringTooLong)
                } else {
                    Ok(())
                }
            },
        }
    }

    /// Appends a progress note to `project_id`, on behalf of `owner`. The note
    /// gets the index after the last note's.
    ///
    /// Refused where [`Self::check_add_update`] refuses the note.
    pub fn add_update(
        &mut self,
        project_id: u64,
        owner: Address,
        title: Vec<u8>,
        body: Vec<u8>,
        timestamp: i64,
    ) -> (r: Result<(), Error>)
        requires
            add_update_fits(old(self).storage@, project_id, owner@, title@, body@, timestamp),
        ensures
            r == add_update_spec(
                old(self).storage@,
                project_id,
                owner@,
                title@,
                body@,
                timestamp,
            ).result,
            final(self).follows(
                *old(self),
                add_update_spec(old(self).storage@, project_id, owner@, title@, body@, timestamp),
            ),
            old(self).storage@.consistent() ==> final(self).storage@.consistent(),
    {
        proof {
            if self.storage@.consistent() {
                lemma_add_update_consistent(
                    self.storage@,
                    project_id,
                    owner@,
                    title@,
                    body@,
                    timestamp,
                );
            }
        }
        if let Err(error) = self.check_add_update(project_id, &owner, &title, &body) {
            return Err(error);
        }
        let mut project = match self.get_project(project_id) {
            Ok(project) => project,
            Err(e) => {
                return Err(e);
            },
        };
        let index: u32 = project.updates.len() as u32;
        let event = Event::UpdateAdded { project_id, index, timestamp, title: copy_text(&title) };
        let update = Update { title, body, timestamp };
        let ghost before = project.updates@;
        project.updates.push(update);
        proof {
            assert(update_views(project.updates@) =~= update_views(before).push(update@));
        }
        self.storage.set_project(project_id, project);
        self.announce(event);
        Ok(())
    }

    /// Marks the milestone at `milestone_index` of `project_id` as completed,
    /// on behalf of `owner`, and announces it with the time of the ledger. A
    /// milestone that is completed already stays so, and is announced again.
    ///
    /// Refused as not found if no project is stored under `project_id`, then as
    /// not authorized if `owner` is not the project's owner, then as an invalid
    /// argument if the project has no milestone at `milestone_index`.
    pub fn complete_milestone(
        &mut self,
        project_id: u64,
        owner: Address,
        milestone_index: u32,
    ) -> (r: Result<(), Error>)
        ensures
            r == complete_milestone_spec(
                old(self).storage@,
                project_id,
                owner@,
                milestone_index,
                old(self).ledger_timestamp,
            ).result,
            final(self).follows(
                *old(self),
                complete_milestone_spec(
                    old(self).storage@,
                    project_id,
                    owner@,
                    milestone_index,
                    old(self).ledger_timestamp,
                ),
            ),
            old(self).storage@.consistent() ==> final(self).storage@.consistent(),
    {
        proof {
            if self.storage@.consistent() {
                lemma_complete_milestone_consistent(
                    self.storage@,
                    project_id,
                    owner@,
                    milestone_index,
                    self.ledger_timestamp,
                );
            }
        }
        let mut project = match self.get_project(project_id) {
            Ok(project) => project,
            Err(e) => {
                return Err(e);
            },
        };
        if !project.owner.same(&owner) {
            return Err(Error::NotAuthorized);
        }
        let at: usize = milestone_index as usize;
        if at >= project.milestones.len() {
            return Err(Error::InvalidArgument);
        }
        let mut milestone = project.milestones[at].clone();
        milestone.completed = true;
        let event = Event::MilestoneCompleted {
            project_id,
            index: milestone_index,
            title: copy_text(&milestone.title),
            timestamp: self.ledger_timestamp,
        };
        let ghost before = project.milestones@;
        project.milestones.set(at, milestone);
        proof {
            assert(milestone_views(project.milestones@) =~= milestone_views(before).update(
                at as int,
                milestone@,
            ));
        }
        self.storage.set_project(project_id, project);
        self.announce(event);
        Ok(())
    }

    /// Sets the number of people `project_id` has reached, on behalf of
    /// `owner`, in place of the number set before.
    ///
    /// Refused as not found if no project is stored under `project_id`, then as
    /// not authorized if `owner` is not the project's owner, then as an invalid
    /// argument if `impacted_people` is negative.
    pub fn set_impacted_people(
        &mut self,
        project_id: u64,
        owner: Address,
        impacted_people: i128,
    ) -> (r: Result<(), Error>)
        ensures
            r == set_impacted_people_spec(
                old(self).storage@,
                project_id,
                owner@,
                impacted_people,
            ).result,
            final(self).follows(
                *old(self),
                set_impacted_people_spec(old(self).storage@, project_id, owner@, impacted_people),
            ),
            old(self).storage@.consistent() ==> final(self).storage@.consistent(),
    {
        proof {
            if self.storage@.consistent() {
                lemma_set_impacted_people_consistent(
                    self.storage@,
                    project_id,
                    owner@,
                    impacted_people,
                );
            }
        }
        match self.storage.project(project_id) {
            None => {
                return Err(Error::ProjectNotFound);
            },
            Some(project) => {
                if !project.owner.same(&owner) {
                    return Err(Error::NotAuthorized);
                }
            },
        }
        if impacted_people < 0 {
            return Err(Error::InvalidArgument);
        }
        let event = Event::ImpactSet { project_id, impacted_people };
        self.storage.set_impacted(project_id, impacted_people);
        self.announce(event);
        Ok(())
    }

    /// The project stored under `id`; not found if there is none.
    pub fn get_project(&self, id: u64) -> (r: Result<Project, Error>)
        ensures
            match r {
                Ok(project) => self.storage@.projects.contains_key(id) && project@
                    == self.storage@.projects[id],
                Err(e) => e == Error::ProjectNotFound && !self.storage@.projects.contains_key(id),
            },
    {
        match self.storage.project(id) {
            Some(project) => Ok(project.clone()),
            None => Err(Error::ProjectNotFound),
        }
    }

    /// One page of the projects: of those stored under an identifier above
    /// `start_after` and no greater than the one given last, in ascending
    /// order of identifier, the first `limit`. An identifier without a stored
    /// project is passed over.
    pub fn list_projects(&self, start_after: u64, limit: u32) -> (r: Vec<Project>)
        ensures
            project_views(r@) == page(
                self.storage@.projects,
                start_after,
                self.storage@.next_project,
                limit as nat,
            ),
    {
        let mut results: Vec<Project> = Vec::new();
        let mut i: u64 = start_after;
        let max: u64 = self.storage.read_next_project_id();
        let mut count: u32 = 0;
        assert(project_views(results@) =~= found_between(
            self.storage@.projects,
            start_after as int,
            i as int,
        ));
        while reads_on(i, max, count, limit)
            invariant
                max == self.storage@.next_project,
                start_after <= i,
                i <= max || i == start_after,
                count == results@.len(),
                count <= limit,
                project_views(results@) == found_between(
                    self.storage@.projects,
                    start_after as int,
                    i as int,
                ),
            decreases max - i,
        {
            i += 1;
            if let Some(project) = self.storage.project(i) {
                let ghost before = results@;
                results.push(project.clone());
                count += 1;
                assert(project_views(results@) =~= project_views(before).push(
                    self.storage@.projects[i],
                ));
            }
        }
        proof {
            if i < max {
                lemma_page_when_full(self.storage@.projects, start_after, i, max, limit as nat);
            }
        }
        results
    }

    /// One page of the donations to `project_id`: of those recorded under a
    /// sequence number above `start_after_seq` and no greater than the
    /// project's latest, in ascending order of sequence number, the first
    /// `limit`. A sequence number without a recorded donation is passed over.
    pub fn list_donations(&self, project_id: u64, start_after_seq: u64, limit: u32) -> (r: Vec<
        Donation,
    >)
        ensures
            donation_views(r@) == page(
                self.storage@.ledger(project_id),
                start_after_seq,
                self.storage@.last_seq(project_id),
                limit as nat,
            ),
    {
        let mut results: Vec<Donation> = Vec::new();
        let mut seq: u64 = start_after_seq;
        let max_seq: u64 = self.storage.read_project_don_seq(project_id);
        let mut count: u32 = 0;
        assert(donation_views(results@) =~= found_between(
            self.storage@.ledger(project_id),
            start_after_seq as int,
            seq as int,
        ));
        while reads_on(seq, max_seq, count, limit)
            invariant
                max_seq == self.storage@.last_seq(project_id),
                start_after_seq <= seq,
                seq <= max_seq || seq == start_after_seq,
                count == results@.len(),
                count <= limit,
                donation_views(results@) == found_between(
                    self.storage@.ledger(project_id),
                    start_after_seq as int,
                    seq as int,
                ),
            decreases max_seq - seq,
        {
            seq += 1;
            if let Some(donation) = self.storage.donation(project_id, seq) {
                let ghost before = results@;
                results.push(donation.clone());
                count += 1;
                assert(donation_views(results@) =~= donation_views(before).push(
                    self.storage@.ledger(project_id)[seq],
                ));
            }
        }
        proof {
            if seq < max_seq {
                lemma_page_when_full(
                    self.storage@.ledger(project_id),
                    start_after_seq,
                    seq,
                    max_seq,
                    limit as nat,
                );
            }
        }
        results
    }

    /// The name of `project_id`, what it has collected, its target, and how
    /// much of the target is funded, in hundredths of a percent; not found if
    /// no project is stored under `project_id`.
    pub fn get_summary(&self, project_id: u64) -> (r: Result<(Vec<u8>, i128, i128, i128), Error>)
        requires
            self.storage@.projects.contains_key(project_id) ==> percent_fits(
                self.storage@.projects[project_id].current_amount,
                self.storage@.projects[project_id].target_amount,
            ),
        ensures
            match r {
                Ok((name, current_amount, target_amount, funded_bp)) => {
                    &&& self.storage@.projects.contains_key(project_id)
                    &&& name@ == self.storage@.projects[project_id].name
                    &&& current_amount == self.storage@.projects[project_id].current_amount
                    &&& target_amount == self.storage@.projects[project_id].target_amount
                    &&& funded_bp == percent_bp(current_amount as int, target_amount as int)
                },
                Err(e) => e == Error::ProjectNotFound && !self.storage@.projects.contains_key(
                    project_id,
                ),
            },
    {
        match self.storage.project(project_id) {
            Some(project) => {
                let funded_bp = funded_percent_bp(project.current_amount, project.target_amount);
                Ok(
                    (
                        copy_text(&project.name),
                        project.current_amount,
                        project.target_amount,
                        funded_bp,
                    ),
                )
            },
            None => Err(Error::ProjectNotFound),
        }
    }

    /// Where `project_id` takes place; not found if no project is stored under
    /// `project_id`.
    pub fn get_location(&self, project_id: u64) -> (r: Result<Location, Error>)
        ensures
            match r {
                Ok(location) => self.storage@.projects.contains_key(project_id) && location@
                    == self.storage@.projects[project_id].location,
                Err(e) => e == Error::ProjectNotFound && !self.storage@.projects.contains_key(
                    project_id,
                ),
            },
    {
        match self.storage.project(project_id) {
            Some(project) => Ok(project.location.clone()),
            None => Err(Error::ProjectNotFound),
        }
    }

    /// The impact area of `project_id`; not found if no project is stored
    /// under `project_id`.
    pub fn get_impact_area(&self, project_id: u64) -> (r: Result<Vec<u8>, Error>)
        ensures
            match r {
                Ok(impact_area) => self.storage@.projects.contains_key(project_id) && impact_area@
                    == self.storage@.projects[project_id].impact_area,
                Err(e) => e == Error::ProjectNotFound && !self.storage@.projects.contains_key(
                    project_id,
                ),
            },
    {
        match self.storage.project(project_id) {
            Some(project) => Ok(copy_text(&project.impact_area)),
            None => Err(Error::ProjectNotFound),
        }
    }

    /// The problem statement of `project_id`; not found if no project is
    /// stored under `project_id`.
    pub fn get_problem_statement(&self, project_id: u64) -> (r: Result<Vec<u8>, Error>)
        ensures
            match r {
                Ok(statement) => self.storage@.projects.contains_key(project_id) && statement@
                    == self.storage@.projects[project_id].problem_statement,
                Err(e) => e == Error::ProjectNotFound && !self.storage@.projects.contains_key(
                    project_id,
                ),
            },
    {
        match self.storage.project(project_id) {
            Some(project) => Ok(copy_text(&project.problem_statement)),
            None => Err(Error::ProjectNotFound),
        }
    }

    /// All progress notes of `project_id`, in the order in which they were
    /// appended; not found if no project is stored under `project_id`.
    pub fn list_updates(&self, project_id: u64) -> (r: Result<Vec<Update>, Error>)
        ensures
            match r {
                Ok(updates) => self.storage@.projects.contains_key(project_id) && update_views(
                    updates@,
                ) == self.storage@.projects[project_id].updates,
                Err(e) => e == Error::ProjectNotFound && !self.storage@.projects.contains_key(
                    project_id,
                ),
            },
    {
        match self.storage.project(project_id) {
            Some(project) => {
                let updates = project.updates.clone();
                assert(update_views(updates@) =~= update_views(project.updates@));
                Ok(updates)
            },
            None => Err(Error::ProjectNotFound),
        }
    }

    /// All milestones of `project_id`, by index; not found if no project is
    /// stored under `project_id`.
    pub fn list_milestones(&self, project_id: u64) -> (r: Result<Vec<Milestone>, Error>)
        ensures
            match r {
                Ok(milestones) => self.storage@.projects.contains_key(project_id)
                    && milestone_views(milestones@)
                    == self.storage@.projects[project_id].milestones,
                Err(e) => e == Error::ProjectNotFound && !self.storage@.projects.contains_key(
                    project_id,
                ),
            },
    {
        match self.storage.project(project_id) {
            Some(project) => {
                let milestones = project.milestones.clone();
                assert(milestone_views(milestones@) =~= milestone_views(project.milestones@));
                Ok(milestones)
            },
            None => Err(Error::ProjectNotFound),
        }
    }

    /// The number of people `project_id` has reached; 0 if it was never set.
    pub fn get_impacted_people(&self, project_id: u64) -> (people: i128)
        ensures
            people == self.storage@.impacted_people(project_id),
    {
        match self.storage.impacted(project_id) {
            Some(people) => people,
            None => 0,
        }
    }

    /// The number of people reached by the projects that `donor` is marked
    /// for, each such project counted once however often the donor gave.
    /// Where the marks are those of the donations, it is the number of people
    /// reached by the projects that `donor` has given to.
    pub fn get_donor_impacted_people(&self, donor: Address) -> (people: i128)
        requires
            donor_impact_fits(self.storage@, donor@),
        ensures
            people == donor_impact(self.storage@, donor@),
            self.storage@.marks_match_donations() ==> people == impact_of_donated_upto(
                self.storage@,
                donor@,
                self.storage@.next_project as nat,
            ),
    {
        proof {
            if self.storage@.marks_match_donations() {
                lemma_marks_sum_is_donations_sum(
                    self.storage@,
                    donor@,
                    self.storage@.next_project as nat,
                );
            }
        }
        let max: u64 = self.storage.read_next_project_id();
        let mut sum: i128 = 0;
        let mut pid: u64 = 0;
        while pid < max
            invariant
                max == self.storage@.next_project,
                pid <= max,
                sum == donor_impact_upto(self.storage@, donor@, pid as nat),
                donor_impact_fits(self.storage@, donor@),
            decreases max - pid,
        {
            pid += 1;
            proof {
                assert(donor_impact_upto(self.storage@, donor@, pid as nat) == donor_impact_upto(
                    self.storage@,
                    donor@,
                    (pid - 1) as nat,
                ) + impact_share(self.storage@, donor@, pid));
            }
            if self.storage.has_donor_mark(&donor, pid) {
                let people = self.get_impacted_people(pid);
                sum = sum + people;
            }
        }
        sum
    }

    /// The number of people reached by the projects that `donor` has given to,
    /// or nothing where the sum, taken project by project, leaves the range of
    /// 128 bits.
    pub fn checked_donor_impacted_people(&self, donor: &Address) -> (people: Option<i128>)
        ensures
            match people {
                Some(sum) => donor_impact_fits(self.storage@, donor@) && sum == donor_impact(
                    self.storage@,
                    donor@,
                ),
                None => !donor_impact_fits(self.storage@, donor@),
            },
    {
        let max: u64 = self.storage.read_next_project_id();
        let mut sum: i128 = 0;
        let mut pid: u64 = 0;
        while pid < max
            invariant
                max == self.storage@.next_project,
                pid <= max,
                sum == donor_impact_upto(self.storage@, donor@, pid as nat),
                forall|n: nat|
                    n <= pid ==> i128::MIN <= #[trigger] donor_impact_upto(
                        self.storage@,
                        donor@,
                        n,
                    ) <= i128::MAX,
            decreases max - pid,
        {
            pid += 1;
            proof {
                assert(donor_impact_upto(self.storage@, donor@, pid as nat) == donor_impact_upto(
                    self.storage@,
                    donor@,
                    (pid - 1) as nat,
                ) + impact_share(self.storage@, donor@, pid));
            }
            if self.storage.has_donor_mark(donor, pid) {
                let people = self.get_impacted_people(pid);
                if (people > 0 && sum > i128::MAX - people) || (people < 0 && sum < i128::MIN
                    - people) {
                    return None;
                }
                sum = sum + people;
            }
        }
        Some(sum)
    }

    /// The figures of `project_id` for a dashboard: what it has collected and
    /// its target, how much of the target is funded, the number of donations,
    /// how many of its milestones are completed, and the time of its latest
    /// progress note, or 0 without one. Not found if no project is stored under
    /// `project_id`.
    pub fn get_dashboard_stats(&self, project_id: u64) -> (r: Result<Stats, Error>)
        requires
            self.storage@.projects.contains_key(project_id) ==> {
                &&& self.storage@.projects[project_id].milestones.len() <= u32::MAX
                &&& percent_fits(
                    self.storage@.projects[project_id].current_amount,
                    self.storage@.projects[project_id].target_amount,
                )
            },
        ensures
            match r {
                Ok(stats) => {
                    let project = self.storage@.projects[project_id];
                    &&& self.storage@.projects.contains_key(project_id)
                    &&& stats.current_amount == project.current_amount
                    &&& stats.target_amount == project.target_amount
                    &&& stats.percent_bp == percent_bp(
                        project.current_amount as int,
                        project.target_amount as int,
                    )
                    &&& stats.donations_count == self.storage@.last_seq(project_id)
                    &&& stats.milestones_completed == completed_count(project.milestones)
                    &&& stats.milestones_total == project.milestones.len()
                    &&& stats.last_update_ts == last_update_ts(project.updates)
                },
                Err(e) => e == Error::ProjectNotFound && !self.storage@.projects.contains_key(
                    project_id,
                ),
            },
    {
        let project = match self.storage.project(project_id) {
            Some(project) => project,
            None => {
                return Err(Error::ProjectNotFound);
            },
        };
        let donations_count = self.storage.read_project_don_seq(project_id);
        let total: usize = project.milestones.len();
        let mut milestones_completed: u32 = 0;
        let mut i: usize = 0;
        let ghost views = milestone_views(project.milestones@);
        assert(views.subrange(0, 0) =~= Seq::empty());
        while i < total
            invariant
                total == project.milestones@.len(),
                total <= u32::MAX,
                i <= total,
                views == milestone_views(project.milestones@),
                milestones_completed == completed_count(views.subrange(0, i as int)),
                milestones_completed <= i,
            decreases total - i,
        {
            proof {
                assert(views.subrange(0, i + 1).drop_last() =~= views.subrange(0, i as int));
            }
            if project.milestones[i].completed {
                milestones_completed += 1;
            }
            i += 1;
        }
        assert(views.subrange(0, total as int) =~= views);
        let last_update_ts: i64 = if project.updates.len() > 0 {
            project.updates[project.updates.len() - 1].timestamp
        } else {
            0
        };
        let funded_bp = funded_percent_bp(project.current_amount, project.target_amount);
        Ok(
            Stats {
                current_amount: project.current_amount,
                target_amount: project.target_amount,
                percent_bp: funded_bp,
                donations_count,
                milestones_completed,
                milestones_total: total as u32,
                last_update_ts,
            },
        )
    }
}

/// The given milestones, none of them completed.
fn as_not_completed(milestones: Vec<Milestone>) -> (r: Vec<Milestone>)
    ensures
        milestone_views(r@) == not_completed(milestone_views(milestones@)),
{
    let mut r = milestones;
    let mut i: usize = 0;
    while i < r.len()
        invariant
            i <= r@.len(),
            r@.len() == milestones@.len(),
            forall|j: int|
                0 <= j < i ==> (#[trigger] r@[j])@ == (MilestoneView {
                    completed: false,
                    ..milestones@[j]@
                }),
            forall|j: int| i <= j < r@.len() ==> (#[trigger] r@[j])@ == milestones@[j]@,
        decreases r@.len() - i,
    {
        if r[i].completed {
            let mut milestone = r[i].clone();
            milestone.completed = false;
            r.set(i, milestone);
        }
        i += 1;
    }
    assert(milestone_views(r@) =~= not_completed(milestone_views(milestones@)));
    r
}

/// Whether the funded share of `current_amount` in `target_amount` can be
/// computed in 128 bits.
pub open spec fn percent_fits(current_amount: i128, target_amount: i128) -> bool {
    target_amount > 0 ==> i128::MIN <= current_amount * 10000 <= i128::MAX
}

/// How much of `target_amount` is funded by `current_amount`, in hundredths of
/// a percent, rounded toward zero; 0 where the target is not positive.
pub fn funded_percent_bp(current_amount: i128, target_amount: i128) -> (bp: i128)
    requires
        percent_fits(current_amount, target_amount),
    ensures
        bp == percent_bp(current_amount as int, target_amount as int),
{
    if target_amount > 0 {
        (current_amount * 10_000) / target_amount
    } else {
        0
    }
}

} // verus!
