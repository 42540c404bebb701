use marketplace::contract::funded_percent_bp;
use marketplace::paging::reads_on;
use marketplace::storage::Storage;
use marketplace::text::copy_text;
use marketplace::{
    Address, Donation, Event, Location, MarketplaceContract, Milestone, Project, Stats,
};

fn text(s: &str) -> Vec<u8> {
    s.as_bytes().to_vec()
}

fn plaza() -> Location {
    Location {
        latitude: -31_420_000,
        longitude: -64_188_000,
        country: text("AR"),
        province: text("Cordoba"),
        city: text("Cordoba"),
    }
}

fn stage(title: &str, completed: bool) -> Milestone {
    Milestone {
        title: text(title),
        description: text("d"),
        amount_budget: 100,
        completed,
    }
}

fn funded(target: i128, gifts: &[i128]) -> MarketplaceContract {
    let mut contract = MarketplaceContract::new();
    contract
        .create_project(
            Address::new("A"),
            text("Huerta"),
            99,
            target,
            text("Falta comida"),
            text("Alimentacion"),
            plaza(),
            vec![stage("a", false), stage("b", false), stage("c", false)],
        )
        .unwrap();
    for (i, amount) in gifts.iter().enumerate() {
        contract.donate(1, Address::new("B"), *amount, 10 + i as i64).unwrap();
    }
    contract
}

#[test]
fn funded_share_is_in_basis_points_rounded_down() {
    assert_eq!(funded_percent_bp(0, 30_000), 0);
    assert_eq!(funded_percent_bp(150, 30_000), 50);
    assert_eq!(funded_percent_bp(1, 3), 3_333);
    assert_eq!(funded_percent_bp(2, 3), 6_666);
    assert_eq!(funded_percent_bp(30_000, 30_000), 10_000);
    assert_eq!(funded_percent_bp(45_000, 30_000), 15_000);
    assert_eq!(funded_percent_bp(1, 10_001), 0);
    assert_eq!(funded_percent_bp(5, 0), 0);
    assert_eq!(funded_percent_bp(5, -7), 0);
    assert_eq!(funded_percent_bp(-1, 3), -3_333);
    assert_eq!(funded_percent_bp(i128::MAX / 10_000, 1), (i128::MAX / 10_000) * 10_000);
}

#[test]
fn summary_gives_name_amounts_and_share() {
    let contract = funded(30_000, &[100, 50]);
    assert_eq!(contract.get_summary(1), Ok((text("Huerta"), 150, 30_000, 50)));
    let contract = funded(3, &[1]);
    assert_eq!(contract.get_summary(1), Ok((text("Huerta"), 1, 3, 3_333)));
}

#[test]
fn getters_give_the_stored_fields() {
    let contract = funded(10, &[]);
    assert_eq!(contract.get_location(1), Ok(plaza()));
    assert_eq!(contract.get_impact_area(1), Ok(text("Alimentacion")));
    assert_eq!(contract.get_problem_statement(1), Ok(text("Falta comida")));
    assert_eq!(
        contract.list_milestones(1),
        Ok(vec![stage("a", false), stage("b", false), stage("c", false)])
    );
    assert_eq!(contract.list_updates(1), Ok(Vec::new()));
}

#[test]
fn dashboard_stats_count_what_is_stored() {
    let mut contract = funded(1_000, &[100, 150]);
    assert_eq!(
        contract.get_dashboard_stats(1),
        Ok(Stats {
            current_amount: 250,
            target_amount: 1_000,
            percent_bp: 2_500,
            donations_count: 2,
            milestones_completed: 0,
            milestones_total: 3,
            last_update_ts: 0,
        })
    );
    contract.complete_milestone(1, Address::new("A"), 2).unwrap();
    contract.complete_milestone(1, Address::new("A"), 0).unwrap();
    contract.complete_milestone(1, Address::new("A"), 2).unwrap();
    contract.add_update(1, Address::new("A"), text("t"), text("b"), 77).unwrap();
    contract.add_update(1, Address::new("A"), text("t"), text("b"), -5).unwrap();
    contract.donate(1, Address::new("C"), 750, 0).unwrap();
    assert_eq!(
        contract.get_dashboard_stats(1),
        Ok(Stats {
            current_amount: 1_000,
            target_amount: 1_000,
            percent_bp: 10_000,
            donations_count: 3,
            milestones_completed: 2,
            milestones_total: 3,
            last_update_ts: -5,
        })
    );
}

#[test]
fn donation_pages_follow_the_sequence() {
    let contract = funded(1_000, &[1, 2, 3, 4, 5]);
    let amounts = |k: u64, n: u32| -> Vec<i128> {
        contract.list_donations(1, k, n).iter().map(|d| d.amount).collect()
    };
    assert_eq!(amounts(0, 2), vec![1, 2]);
    assert_eq!(amounts(2, 2), vec![3, 4]);
    assert_eq!(amounts(4, 2), vec![5]);
    assert_eq!(amounts(5, 2), Vec::<i128>::new());
    assert_eq!(amounts(9, 2), Vec::<i128>::new());
    assert_eq!(amounts(0, 0), Vec::<i128>::new());
    assert_eq!(amounts(0, u32::MAX), vec![1, 2, 3, 4, 5]);
    assert_eq!(
        contract.list_donations(1, 1, 1),
        vec![Donation { seq: 2, project_id: 1, donor: Address::new("B"), amount: 2, timestamp: 11 }]
    );
    assert!(contract.list_donations(2, 0, 10).is_empty());
}

#[test]
fn donation_pages_pass_over_missing_records() {
    let gift = |seq: u64| Donation {
        seq,
        project_id: 4,
        donor: Address::new("B"),
        amount: seq as i128,
        timestamp: 0,
    };
    let mut storage = Storage::new();
    storage.set_donation(4, 2, gift(2));
    storage.set_donation(4, 3, gift(3));
    storage.set_donation(4, 6, gift(6));
    storage.set_donation(4, 8, gift(8));
    storage.set_donation(5, 1, gift(1));
    storage.write_project_don_seq(4, 7);
    let contract = MarketplaceContract { storage, events: Vec::new(), ledger_timestamp: 0 };
    let seqs = |k: u64, n: u32| -> Vec<u64> {
        contract.list_donations(4, k, n).iter().map(|d| d.seq).collect()
    };
    assert_eq!(seqs(0, 10), vec![2, 3, 6]);
    assert_eq!(seqs(0, 2), vec![2, 3]);
    assert_eq!(seqs(2, 2), vec![3, 6]);
    assert_eq!(seqs(3, 1), vec![6]);
    assert_eq!(seqs(6, 5), Vec::<u64>::new());
    assert!(contract.list_donations(5, 0, 10).is_empty());
}

#[test]
fn donor_impact_overflow_is_reported_by_the_checked_query() {
    let mut contract = MarketplaceContract::new();
    for _ in 0..2 {
        let id = contract
            .create_project(
                Address::new("A"),
                text("n"),
                0,
                1,
                Vec::new(),
                Vec::new(),
                plaza(),
                Vec::new(),
            )
            .unwrap();
        contract.donate(id, Address::new("B"), 1, 0).unwrap();
    }
    contract.set_impacted_people(1, Address::new("A"), i128::MAX).unwrap();
    assert_eq!(contract.checked_donor_impacted_people(&Address::new("B")), Some(i128::MAX));
    assert_eq!(contract.get_donor_impacted_people(Address::new("B")), i128::MAX);
    contract.set_impacted_people(2, Address::new("A"), 1).unwrap();
    assert_eq!(contract.checked_donor_impacted_people(&Address::new("B")), None);
    assert_eq!(contract.checked_donor_impacted_people(&Address::new("C")), Some(0));
}

#[test]
fn texts_are_kept_byte_for_byte() {
    let mut contract = MarketplaceContract::new();
    let name: Vec<u8> = vec![0xff, 0x00, 0xc3, 0x28, b'n'];
    let area: Vec<u8> = vec![0x80; 50];
    let id = contract
        .create_project(
            Address::new("A"),
            name.clone(),
            0,
            1,
            text("Educaci\u{f3}n"),
            area.clone(),
            plaza(),
            Vec::new(),
        )
        .unwrap();
    let project = contract.get_project(id).unwrap();
    assert_eq!(project.name, name);
    assert_eq!(project.impact_area, area);
    assert_eq!(project.problem_statement.len(), 10);
    assert_eq!(contract.get_summary(id).unwrap().0, name);
    assert_eq!(copy_text(&name), name);
}

#[test]
fn events_are_published_under_their_topics() {
    let mut contract = funded(10, &[1]);
    contract.add_update(1, Address::new("A"), text("t"), text("b"), 0).unwrap();
    contract.complete_milestone(1, Address::new("A"), 0).unwrap();
    contract.set_impacted_people(1, Address::new("A"), 1).unwrap();
    let topics: Vec<&str> = contract.events.iter().map(Event::topic).collect();
    assert_eq!(topics, vec!["PrjCreate", "Donate", "UpdAdded", "MsDone", "ImpSet"]);
    assert_eq!(contract.events[0].clone(), contract.events[0]);
}

#[test]
fn store_keeps_kinds_of_keys_apart() {
    let project = Project {
        id: 1,
        owner: Address::new("A"),
        name: text("n"),
        deadline_ts: 0,
        current_amount: 0,
        target_amount: 1,
        problem_statement: Vec::new(),
        impact_area: Vec::new(),
        location: plaza(),
        milestones: Vec::new(),
        updates: Vec::new(),
    };
    let gift = Donation { seq: 2, project_id: 1, donor: Address::new("B"), amount: 5, timestamp: 0 };
    let mut storage = Storage::new();
    assert_eq!(storage.read_next_project_id(), 0);
    assert_eq!(storage.read_project_don_seq(1), 0);
    assert!(storage.project(1).is_none());
    assert!(storage.impacted(1).is_none());
    storage.set_project(1, project.clone());
    assert_eq!(storage.project(1), Some(&project));
    assert!(storage.project(2).is_none());
    assert_eq!(storage.read_next_project_id(), 0);
    assert_eq!(storage.read_project_don_seq(1), 0);
    assert!(storage.impacted(1).is_none());
    assert!(storage.donation(1, 1).is_none());
    storage.set_donation(1, 2, gift.clone());
    assert_eq!(storage.donation(1, 2), Some(&gift));
    assert!(storage.donation(2, 1).is_none());
    assert!(storage.donation(1, 1).is_none());
    assert!(storage.donation(0, 2).is_none());
    assert_eq!(storage.read_project_don_seq(1), 0);
    storage.write_project_don_seq(1, 9);
    storage.set_impacted(1, 44);
    storage.write_next_project_id(3);
    assert_eq!(storage.read_project_don_seq(1), 9);
    assert_eq!(storage.read_project_don_seq(2), 0);
    assert_eq!(storage.impacted(1), Some(44));
    assert_eq!(storage.read_next_project_id(), 3);
    assert!(!storage.has_donor_mark(&Address::new("B"), 1));
    storage.set_donor_mark(Address::new("B"), 1);
    storage.set_donor_mark(Address::new("B"), 1);
    assert!(storage.has_donor_mark(&Address::new("B"), 1));
    assert!(!storage.has_donor_mark(&Address::new("B"), 2));
    assert!(!storage.has_donor_mark(&Address::new("A"), 1));
    assert_eq!(storage.project(1), Some(&project));
    assert_eq!(storage.donation(1, 2), Some(&gift));
    assert_eq!(storage.donation(u64::MAX, u64::MAX), None);
    storage.set_donation(u64::MAX, u64::MAX, gift.clone());
    assert_eq!(storage.donation(u64::MAX, u64::MAX), Some(&gift));
    assert!(storage.donation(u64::MAX, 0).is_none());
    assert!(storage.donation(0, u64::MAX).is_none());
}

#[test]
fn addresses_compare_by_key() {
    let a = Address::new("GABC");
    assert!(a.same(&Address::new("GABC")));
    assert!(!a.same(&Address::new("GABD")));
    assert!(!a.same(&Address::new("")));
    assert_eq!(a.as_str(), "GABC");
    assert_eq!(a.clone(), a);
}

#[test]
fn a_scan_reads_on_until_the_end_or_the_limit() {
    assert!(reads_on(0, 1, 0, 1));
    assert!(reads_on(4, 5, 9, 10));
    assert!(!reads_on(5, 5, 0, 10));
    assert!(!reads_on(6, 5, 0, 10));
    assert!(!reads_on(0, 5, 10, 10));
    assert!(!reads_on(0, 5, 0, 0));
    assert!(!reads_on(u64::MAX, u64::MAX, u32::MAX, u32::MAX));
    assert!(reads_on(u64::MAX - 1, u64::MAX, u32::MAX - 1, u32::MAX));
}
