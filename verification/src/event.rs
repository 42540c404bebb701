use crate::address::Address;
use crate::text::copy_text;
use vstd::prelude::*;

verus! {

/// What the marketplace announces after a change. Events are appended to the
/// contract's log in the order of the calls that caused them.
#[derive(Debug, PartialEq, Eq)]
#[allow(inconsistent_fields)]
pub enum Event {
    /// A project was created.
    ProjectCreated {
        id: u64,
        owner: Address,
        name: Vec<u8>,
        deadline_ts: i64,
        target_amount: i128,
        impact_area: Vec<u8>,
    },
    /// A donation was recorded; `total` is the project's amount after it.
    DonationRecorded {
        project_id: u64,
        seq: u64,
        donor: Address,
        amount: i128,
        timestamp: i64,
        total: i128,
    },
    /// A progress note was appended at `index`.
    UpdateAdded { project_id: u64, index: u32, timestamp: i64, title: Vec<u8> },
    /// A milestone was marked as completed at the ledger time `timestamp`.
    MilestoneCompleted { project_id: u64, index: u32, title: Vec<u8>, timestamp: u64 },
    /// The number of people a project has reached was set.
    ImpactSet { project_id: u64, impacted_people: i128 },
}

/// What an [`Event`] is to the specifications.
#[allow(inconsistent_fields)]
pub enum EventView {
    ProjectCreated {
        id: u64,
        owner: Seq<char>,
        name: Seq<u8>,
        deadline_ts: i64,
        target_amount: i128,
        impact_area: Seq<u8>,
    },
    DonationRecorded {
        project_id: u64,
        seq: u64,
        donor: Seq<char>,
        amount: i128,
        timestamp: i64,
        total: i128,
    },
    UpdateAdded { project_id: u64, index: u32, timestamp: i64, title: Seq<u8> },
    MilestoneCompleted { project_id: u64, index: u32, title: Seq<u8>, timestamp: u64 },
    ImpactSet { project_id: u64, impacted_people: i128 },
}

impl View for Event {
    type V = EventView;

    open spec fn view(&self) -> EventView {
        match *self {
            Event::ProjectCreated { id, owner, name, deadline_ts, target_amount, impact_area } => {
                EventView::ProjectCreated {
                    id,
                    owner: owner@,
                    name: name@,
                    deadline_ts,
                    target_amount,
                    impact_area: impact_area@,
                }
            },
            Event::DonationRecorded { project_id, seq, donor, amount, timestamp, total } => {
                EventView::DonationRecorded {
                    project_id,
                    seq,
                    donor: donor@,
                    amount,
                    timestamp,
                    total,
                }
            },
            Event::UpdateAdded { project_id, index, timestamp, title } => {
                EventView::UpdateAdded { project_id, index, timestamp, title: title@ }
            },
            Event::MilestoneCompleted { project_id, index, title, timestamp } => {
                EventView::MilestoneCompleted { project_id, index, title: title@, timestamp }
            },
            Event::ImpactSet { project_id, impacted_people } => {
                EventView::ImpactSet { project_id, impacted_people }
            },
        }
    }
}

/// The views of a sequence of events, in the same order.
pub open spec fn event_views(events: Seq<Event>) -> Seq<EventView> {
    events.map_values(|e: Event| e@)
}

impl Event {
    /// The short name under which the event is published.
    pub open spec fn spec_topic(&self) -> Seq<char> {
        match *self {
            Event::ProjectCreated { .. } => "PrjCreate"@,
            Event::DonationRecorded { .. } => "Donate"@,
            Event::UpdateAdded { .. } => "UpdAdded"@,
            Event::MilestoneCompleted { .. } => "MsDone"@,
            Event::ImpactSet { .. } => "ImpSet"@,
        }
    }

    /// The short name under which the event is published.
    pub fn topic(&self) -> (t: &'static str)
        ensures
            t@ == self.spec_topic(),
    {
        match self {
            Event::ProjectCreated { .. } => "PrjCreate",
            Event::DonationRecorded { .. } => "Donate",
            Event::UpdateAdded { .. } => "UpdAdded",
            Event::MilestoneCompleted { .. } => "MsDone",
            Event::ImpactSet { .. } => "ImpSet",
        }
    }
}

impl Clone for Event {
    fn clone(&self) -> (e: Event)
        ensures
            e@ == self@,
    {
        match self {
            Event::ProjectCreated { id, owner, name, deadline_ts, target_amount, impact_area } => {
                Event::ProjectCreated {
                    id: *id,
                    owner: owner.clone(),
                    name: copy_text(name),
                    deadline_ts: *deadline_ts,
                    target_amount: *target_amount,
                    impact_area: copy_text(impact_area),
                }
            },
            Event::DonationRecorded { project_id, seq, donor, amount, timestamp, total } => {
                Event::DonationRecorded {
                    project_id: *project_id,
                    seq: *seq,
                    donor: donor.clone(),
                    amount: *amount,
                    timestamp: *timestamp,
                    total: *total,
                }
            },
            Event::UpdateAdded { project_id, index, timestamp, title } => {
                Event::UpdateAdded {
                    project_id: *project_id,
                    index: *index,
                    timestamp: *timestamp,
                    title: copy_text(title),
                }
            },
            Event::MilestoneCompleted { project_id, index, title, timestamp } => {
                Event::MilestoneCompleted {
                    project_id: *project_id,
                    index: *index,
                    title: copy_text(title),
                    timestamp: *timestamp,
                }
            },
            Event::ImpactSet { project_id, impacted_people } => {
                Event::ImpactSet { project_id: *project_id, impacted_people: *impacted_people }
            },
        }
    }
}

} // verus!
