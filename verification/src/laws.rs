//! What holds of the marketplace as a whole, across calls.

use crate::error::Error;
use crate::history::{all_admitted, lemma_reached_consistent, reached, Call};
use crate::lifecycle::{
    kept, lemma_call_keeps_records, lemma_kept_reflexive, lemma_kept_transitive,
};
use crate::consistency::lemma_marks_sum_is_donations_sum;
use crate::model::{
    donor_impact, donor_impact_fits, donor_impact_upto, impact_of_donated_upto, impact_share,
    ledger_total, StorageView,
};
use crate::paging::{keys_between, lemma_between_properties, lemma_page_dense, page, page_keys};
use crate::rules::{
    add_update_spec, complete_milestone_spec, create_project_spec, donate_spec, not_completed,
    set_impacted_people_spec, Outcome,
};
use crate::types::{LocationView, MilestoneView};
use vstd::prelude::*;

verus! {

/// After any sequence of calls, what a project has collected is the sum of
/// the amounts of its donations, and there is no donation to it besides those
/// that the sum ranges over.
pub proof fn law_collected_equals_ledger(calls: Seq<Call>, project_id: u64)
    requires
        all_admitted(calls),
        reached(calls).projects.contains_key(project_id),
    ensures
        reached(calls).projects[project_id].current_amount == ledger_total(
            reached(calls).donations,
            project_id,
            reached(calls).last_seq(project_id) as nat,
        ),
        forall|seq: u64| #[trigger]
            reached(calls).donations.contains_key((project_id, seq)) ==> 1 <= seq <= reached(
                calls,
            ).last_seq(project_id),
{
    lemma_reached_consistent(calls);
    let s = reached(calls);
    assert(s.projects[project_id].current_amount == ledger_total(
        s.donations,
        project_id,
        s.last_seq(project_id) as nat,
    ));
}

/// After any sequence of calls, the donations to a project carry exactly the
/// sequence numbers from 1 to the number of donations made to it, and each is
/// recorded under its own.
pub proof fn law_sequence_numbers_gapless(calls: Seq<Call>, project_id: u64, seq: u64)
    requires
        all_admitted(calls),
    ensures
        reached(calls).donations.contains_key((project_id, seq)) <==> 1 <= seq <= reached(
            calls,
        ).last_seq(project_id),
        reached(calls).donations.contains_key((project_id, seq)) ==> {
            &&& reached(calls).donations[(project_id, seq)].seq == seq
            &&& reached(calls).donations[(project_id, seq)].project_id == project_id
        },
{
    lemma_reached_consistent(calls);
    let s = reached(calls);
    assert(s.donations.contains_key((project_id, seq)) <==> 1 <= seq <= s.last_seq(project_id));
    if s.donations.contains_key((project_id, seq)) {
        assert(s.donations[(project_id, seq)].seq == seq);
    }
}

/// A donation to one project leaves the ledger of every other project as it
/// was: the sequence number that the next donation to another project gets
/// does not depend on whether the first was made.
pub proof fn law_sequences_independent(
    s: StorageView,
    first: u64,
    first_donor: Seq<char>,
    first_amount: i128,
    first_timestamp: i64,
    other: u64,
    donor: Seq<char>,
    amount: i128,
    timestamp: i64,
)
    requires
        first != other,
    ensures
        donate_spec(s, first, first_donor, first_amount, first_timestamp).storage.last_seq(other)
            == s.last_seq(other),
        donate_spec(s, first, first_donor, first_amount, first_timestamp).storage.ledger(other)
            == s.ledger(other),
        donate_spec(
            donate_spec(s, first, first_donor, first_amount, first_timestamp).storage,
            other,
            donor,
            amount,
            timestamp,
        ).result == donate_spec(s, other, donor, amount, timestamp).result,
{
    let t = donate_spec(s, first, first_donor, first_amount, first_timestamp).storage;
    assert(t.ledger(other) =~= s.ledger(other));
}

/// A new project keeps the title, description and budget of each milestone it
/// was given, and none of its milestones is completed, whatever was given.
pub proof fn law_new_project_has_no_completed_milestone(
    s: StorageView,
    owner: Seq<char>,
    name: Seq<u8>,
    deadline_ts: i64,
    target_amount: i128,
    problem_statement: Seq<u8>,
    impact_area: Seq<u8>,
    location: LocationView,
    milestones: Seq<MilestoneView>,
)
    requires
        create_project_spec(
            s,
            owner,
            name,
            deadline_ts,
            target_amount,
            problem_statement,
            impact_area,
            location,
            milestones,
        ).result is Ok,
    ensures
        ({
            let created = create_project_spec(
                s,
                owner,
                name,
                deadline_ts,
                target_amount,
                problem_statement,
                impact_area,
                location,
                milestones,
            );
            let stored = created.storage.projects[created.result->Ok_0].milestones;
            &&& created.storage.projects.contains_key(created.result->Ok_0)
            &&& stored.len() == milestones.len()
            &&& forall|i: int|
                0 <= i < milestones.len() ==> {
                    &&& !(#[trigger] stored[i]).completed
                    &&& stored[i].title == milestones[i].title
                    &&& stored[i].description == milestones[i].description
                    &&& stored[i].amount_budget == milestones[i].amount_budget
                }
        }),
{
    assert(not_completed(milestones).len() == milestones.len());
}

/// Completing a milestone a second time changes nothing in the store; the
/// completion is announced again.
pub proof fn law_complete_milestone_idempotent(
    s: StorageView,
    project_id: u64,
    owner: Seq<char>,
    milestone_index: u32,
    now: u64,
    later: u64,
)
    requires
        complete_milestone_spec(s, project_id, owner, milestone_index, now).result is Ok,
    ensures
        ({
            let once = complete_milestone_spec(s, project_id, owner, milestone_index, now);
            let twice = complete_milestone_spec(
                once.storage,
                project_id,
                owner,
                milestone_index,
                later,
            );
            &&& once.storage.projects[project_id].milestones[milestone_index as int].completed
            &&& twice.result is Ok
            &&& twice.storage == once.storage
            &&& twice.events.len() == 1
        }),
{
    let once = complete_milestone_spec(s, project_id, owner, milestone_index, now);
    let twice = complete_milestone_spec(once.storage, project_id, owner, milestone_index, later);
    let before = once.storage.projects[project_id];
    let after = twice.storage.projects[project_id];
    assert(after.milestones =~= before.milestones);
    assert(twice.storage.projects =~= once.storage.projects);
    assert(twice.storage =~= once.storage);
}

/// A page of a listing is a beginning of the entries behind `start_after`, in
/// ascending order of key and without a gap: it holds at most `limit` entries,
/// each with a key above `start_after`; no entry with a key between
/// `start_after` and the last key of the page is left out; and if the page
/// holds fewer than `limit` entries, no entry up to `end` is left out at all.
pub proof fn law_page_is_contiguous_prefix<V>(
    entries: Map<u64, V>,
    start_after: u64,
    end: u64,
    limit: nat,
)
    ensures
        page(entries, start_after, end, limit).len() == page_keys(
            entries,
            start_after,
            end,
            limit,
        ).len(),
        page(entries, start_after, end, limit).len() <= limit,
        forall|i: int|
            0 <= i < page_keys(entries, start_after, end, limit).len() ==> {
                &&& start_after < #[trigger] page_keys(entries, start_after, end, limit)[i] <= end
                &&& entries.contains_key(page_keys(entries, start_after, end, limit)[i])
                &&& page(entries, start_after, end, limit)[i] == entries[page_keys(
                    entries,
                    start_after,
                    end,
                    limit,
                )[i]]
            },
        forall|i: int, j: int|
            0 <= i < j < page_keys(entries, start_after, end, limit).len() ==> page_keys(
                entries,
                start_after,
                end,
                limit,
            )[i] < page_keys(entries, start_after, end, limit)[j],
        forall|id: u64|
            start_after < id <= end && entries.contains_key(id) && (page_keys(
                entries,
                start_after,
                end,
                limit,
            ).len() < limit || (page_keys(entries, start_after, end, limit).len() > 0 && id
                <= page_keys(entries, start_after, end, limit).last())) ==> page_keys(
                entries,
                start_after,
                end,
                limit,
            ).contains(id),
{
    lemma_between_properties(entries, start_after as int, end as int);
    let all = keys_between(entries, start_after as int, end as int);
    let keys = page_keys(entries, start_after, end, limit);
    assert forall|id: u64|
        start_after < id <= end && entries.contains_key(id) && (keys.len() < limit || (keys.len()
            > 0 && id <= keys.last())) implies keys.contains(id) by {
        assert(all.contains(id));
        let i = choose|i: int| 0 <= i < all.len() && all[i] == id;
        if i >= keys.len() {
            assert(keys.len() > 0 && keys.len() == limit);
            assert(keys.last() == all[keys.len() - 1]);
            assert(all[keys.len() - 1] < all[i]);
        }
        assert(keys[i] == id);
    }
}

/// After any sequence of calls, a page of projects holds the projects with the
/// identifiers `start_after + 1`, `start_after + 2` and so on, each under its
/// own identifier: `limit` of them, or as many as were created.
pub proof fn law_project_pages_are_consecutive(calls: Seq<Call>, start_after: u64, limit: nat)
    requires
        all_admitted(calls),
    ensures
        ({
            let s = reached(calls);
            let listed = page(s.projects, start_after, s.next_project, limit);
            &&& start_after >= s.next_project ==> listed.len() == 0
            &&& start_after < s.next_project ==> listed.len() == if s.next_project - start_after
                <= limit {
                (s.next_project - start_after) as nat
            } else {
                limit
            }
            &&& forall|i: int|
                0 <= i < listed.len() ==> (#[trigger] listed[i]).id == start_after + 1 + i
                    && listed[i] == s.projects[(start_after + 1 + i) as u64]
        }),
{
    lemma_reached_consistent(calls);
    let s = reached(calls);
    lemma_page_dense(s.projects, start_after, s.next_project, limit);
    let listed = page(s.projects, start_after, s.next_project, limit);
    assert forall|i: int| 0 <= i < listed.len() implies (#[trigger] listed[i]).id == start_after
        + 1 + i && listed[i] == s.projects[(start_after + 1 + i) as u64] by {
        let id = (start_after + 1 + i) as u64;
        assert(s.projects.contains_key(id));
        assert(s.projects[id].id == id);
    }
}

/// After any sequence of calls, a page of the donations to a project holds
/// the donations with the sequence numbers `start_after_seq + 1`,
/// `start_after_seq + 2` and so on, each under its own number.
pub proof fn law_donation_pages_are_consecutive(
    calls: Seq<Call>,
    project_id: u64,
    start_after_seq: u64,
    limit: nat,
)
    requires
        all_admitted(calls),
    ensures
        ({
            let s = reached(calls);
            let listed = page(s.ledger(project_id), start_after_seq, s.last_seq(project_id), limit);
            &&& start_after_seq >= s.last_seq(project_id) ==> listed.len() == 0
            &&& start_after_seq < s.last_seq(project_id) ==> listed.len() == if s.last_seq(
                project_id,
            ) - start_after_seq <= limit {
                (s.last_seq(project_id) - start_after_seq) as nat
            } else {
                limit
            }
            &&& forall|i: int|
                0 <= i < listed.len() ==> (#[trigger] listed[i]).seq == start_after_seq + 1 + i
                    && listed[i].project_id == project_id
        }),
{
    lemma_reached_consistent(calls);
    let s = reached(calls);
    let entries = s.ledger(project_id);
    assert forall|seq: u64|
        start_after_seq < seq <= s.last_seq(project_id) implies entries.contains_key(seq) by {
        assert(s.donations.contains_key((project_id, seq)));
    }
    lemma_page_dense(entries, start_after_seq, s.last_seq(project_id), limit);
    let listed = page(entries, start_after_seq, s.last_seq(project_id), limit);
    assert forall|i: int| 0 <= i < listed.len() implies (#[trigger] listed[i]).seq
        == start_after_seq + 1 + i && listed[i].project_id == project_id by {
        let seq = (start_after_seq + 1 + i) as u64;
        assert(s.donations.contains_key((project_id, seq)));
        assert(s.donations[(project_id, seq)].seq == seq);
        assert(entries[seq] == s.donations[(project_id, seq)]);
    }
}

/// After any sequence of calls, the impact of a donor is the sum of the people
/// reached over exactly the projects that the donor has given to at least
/// once; and every project that the donor has given to is among the projects
/// that the sum ranges over.
pub proof fn law_donor_impact_counts_donated_projects(calls: Seq<Call>, donor: Seq<char>)
    requires
        all_admitted(calls),
    ensures
        donor_impact(reached(calls), donor) == impact_of_donated_upto(
            reached(calls),
            donor,
            reached(calls).next_project as nat,
        ),
        forall|project_id: u64| #[trigger]
            reached(calls).has_donated(donor, project_id) ==> 1 <= project_id <= reached(
                calls,
            ).next_project,
{
    lemma_reached_consistent(calls);
    let s = reached(calls);
    lemma_marks_sum_is_donations_sum(s, donor, s.next_project as nat);
    assert forall|project_id: u64| #[trigger]
        s.has_donated(donor, project_id) implies 1 <= project_id <= s.next_project by {
        let d = s.donations;
        let seq = choose|seq: u64|
            #![trigger d[(project_id, seq)]]
            d.contains_key((project_id, seq)) && d[(project_id, seq)].donor == donor;
        assert(s.donations.contains_key((project_id, seq)));
        assert(s.donation_seqs.contains_key(project_id));
        assert(s.projects.contains_key(project_id));
    }
}

/// In a consistent store the impact of a donor is never negative and does not
/// shrink as more projects are taken in.
proof fn lemma_donor_impact_monotone(s: StorageView, donor: Seq<char>, fewer: nat, more: nat)
    requires
        s.consistent(),
        fewer <= more,
    ensures
        0 <= donor_impact_upto(s, donor, fewer) <= donor_impact_upto(s, donor, more),
    decreases more,
{
    if more > 0 {
        assert(impact_share(s, donor, more as u64) >= 0) by {
            if s.impacted.contains_key(more as u64) {
                assert(s.impacted[more as u64] >= 0);
            }
        }
        if fewer < more {
            lemma_donor_impact_monotone(s, donor, fewer, (more - 1) as nat);
        } else {
            lemma_donor_impact_monotone(s, donor, (fewer - 1) as nat, (more - 1) as nat);
        }
    }
}

/// In a consistent store, and so after any sequence of calls, the impact of a
/// donor can be added up in 128 bits as soon as the sum itself fits: no part
/// of it is negative.
pub proof fn law_donor_impact_fits_if_total_fits(s: StorageView, donor: Seq<char>)
    requires
        s.consistent(),
        donor_impact(s, donor) <= i128::MAX,
    ensures
        donor_impact_fits(s, donor),
{
    assert forall|n: nat| n <= s.next_project implies i128::MIN <= #[trigger] donor_impact_upto(
        s,
        donor,
        n,
    ) <= i128::MAX by {
        lemma_donor_impact_monotone(s, donor, n, s.next_project as nat);
    }
}

/// The impact of a donor over the projects 1 to `upto` depends on nothing but
/// the donor's marks and the impact figures.
proof fn lemma_donor_impact_frame(s: StorageView, t: StorageView, donor: Seq<char>, upto: nat)
    requires
        forall|project_id: u64|
            s.donor_marks.contains((donor, project_id)) == t.donor_marks.contains(
                (donor, project_id),
            ),
        s.impacted == t.impacted,
    ensures
        donor_impact_upto(s, donor, upto) == donor_impact_upto(t, donor, upto),
    decreases upto,
{
    if upto > 0 {
        lemma_donor_impact_frame(s, t, donor, (upto - 1) as nat);
        assert(impact_share(s, donor, upto as u64) == impact_share(t, donor, upto as u64));
    }
}

/// The impact of a donor does not depend on how often the donor gave: a
/// further donation to a project that the donor has given to before leaves it
/// as it was.
pub proof fn law_donor_impact_ignores_repeats(
    s: StorageView,
    donor: Seq<char>,
    project_id: u64,
    amount: i128,
    timestamp: i64,
)
    requires
        s.donor_marks.contains((donor, project_id)),
    ensures
        donor_impact(donate_spec(s, project_id, donor, amount, timestamp).storage, donor)
            == donor_impact(s, donor),
{
    let t = donate_spec(s, project_id, donor, amount, timestamp).storage;
    lemma_donor_impact_frame(s, t, donor, s.next_project as nat);
}

/// Calls take nothing back: whatever was recorded after the first `n` calls
/// of a sequence is still there after all of them. Identifiers are not given
/// out again, every project keeps its owner, its target and its milestones, a
/// completed milestone stays completed, updates stay at their indices, what
/// was collected does not shrink, and every donation and every mark of a
/// donor stays as recorded.
pub proof fn law_nothing_is_taken_back(calls: Seq<Call>, n: int)
    requires
        all_admitted(calls),
        0 <= n <= calls.len(),
    ensures
        kept(reached(calls.subrange(0, n)), reached(calls)),
    decreases calls.len() - n,
{
    if n == calls.len() {
        assert(calls.subrange(0, n) =~= calls);
        lemma_kept_reflexive(reached(calls));
    } else {
        let before = calls.drop_last();
        assert(before.subrange(0, n) =~= calls.subrange(0, n));
        law_nothing_is_taken_back(before, n);
        lemma_reached_consistent(before);
        lemma_call_keeps_records(reached(before), calls.last());
        lemma_kept_transitive(reached(calls.subrange(0, n)), reached(before), reached(calls));
    }
}

/// Whoever is not the owner of a stored project is refused as not authorized
/// when appending a progress note to it, completing one of its milestones or
/// setting its impact, whatever the other arguments are; nothing is written
/// and nothing is announced.
pub proof fn law_only_owner_changes(
    s: StorageView,
    project_id: u64,
    caller: Seq<char>,
    title: Seq<u8>,
    body: Seq<u8>,
    timestamp: i64,
    milestone_index: u32,
    now: u64,
    impacted_people: i128,
)
    requires
        s.projects.contains_key(project_id),
        s.projects[project_id].owner != caller,
    ensures
        add_update_spec(s, project_id, caller, title, body, timestamp) == Outcome::<()>::refused(
            s,
            Error::NotAuthorized,
        ),
        complete_milestone_spec(s, project_id, caller, milestone_index, now) == Outcome::<
            (),
        >::refused(s, Error::NotAuthorized),
        set_impacted_people_spec(s, project_id, caller, impacted_people) == Outcome::<
            (),
        >::refused(s, Error::NotAuthorized),
{
}

} // verus!
