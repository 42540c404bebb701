use marketplace::storage::Storage;
use marketplace::{Address, Error, Event, Location, MarketplaceContract, Milestone, Project};

fn text(s: &str) -> Vec<u8> {
    s.as_bytes().to_vec()
}

fn somewhere() -> Location {
    Location {
        latitude: 1,
        longitude: 2,
        country: text("AR"),
        province: text("Cordoba"),
        city: text("Cordoba"),
    }
}

fn step(title: &str) -> Milestone {
    Milestone {
        title: text(title),
        description: text("d"),
        amount_budget: 10,
        completed: false,
    }
}

fn open_project(contract: &mut MarketplaceContract, owner: &str, name: &str) -> u64 {
    contract
        .create_project(
            Address::new(owner),
            text(name),
            100,
            1_000,
            text("why"),
            text("area"),
            somewhere(),
            vec![step("one"), step("two")],
        )
        .unwrap()
}

fn bare_project(id: u64) -> Project {
    Project {
        id,
        owner: Address::new("A"),
        name: text("p"),
        deadline_ts: 0,
        current_amount: 0,
        target_amount: 1,
        problem_statement: Vec::new(),
        impact_area: Vec::new(),
        location: somewhere(),
        milestones: Vec::new(),
        updates: Vec::new(),
    }
}

#[test]
fn collected_amount_equals_sum_of_ledger() {
    let mut contract = MarketplaceContract::new();
    let first = open_project(&mut contract, "A", "first");
    let second = open_project(&mut contract, "A", "second");
    let gifts: [(u64, &str, i128); 6] = [
        (first, "B", 5),
        (second, "C", 7),
        (first, "C", 11),
        (first, "B", 13),
        (second, "B", 17),
        (first, "D", 1),
    ];
    for (i, (project, donor, amount)) in gifts.iter().enumerate() {
        contract.donate(*project, Address::new(donor), *amount, i as i64).unwrap();
        for id in [first, second] {
            let sum: i128 = contract.list_donations(id, 0, u32::MAX).iter().map(|d| d.amount).sum();
            assert_eq!(sum, contract.get_project(id).unwrap().current_amount);
        }
    }
    assert_eq!(contract.get_project(first).unwrap().current_amount, 30);
    assert_eq!(contract.get_project(second).unwrap().current_amount, 24);
}

#[test]
fn sequence_numbers_have_no_gaps_across_projects() {
    let mut contract = MarketplaceContract::new();
    let first = open_project(&mut contract, "A", "first");
    let second = open_project(&mut contract, "B", "second");
    assert_eq!(contract.donate(second, Address::new("X"), 1, 0), Ok(1));
    assert_eq!(contract.donate(first, Address::new("X"), 1, 0), Ok(1));
    assert_eq!(contract.donate(second, Address::new("Y"), 1, 0), Ok(2));
    assert_eq!(contract.donate(second, Address::new("X"), 1, 0), Ok(3));
    assert_eq!(contract.donate(first, Address::new("Z"), 1, 0), Ok(2));
    assert_eq!(contract.donate(first, Address::new("Z"), -1, 0), Err(Error::InvalidArgument));
    assert_eq!(contract.donate(first, Address::new("Z"), 1, 0), Ok(3));
    assert_eq!(contract.donate(second, Address::new("X"), 1, 0), Ok(4));
    let seqs_first: Vec<u64> = contract.list_donations(first, 0, 100).iter().map(|d| d.seq).collect();
    let seqs_second: Vec<u64> =
        contract.list_donations(second, 0, 100).iter().map(|d| d.seq).collect();
    assert_eq!(seqs_first, vec![1, 2, 3]);
    assert_eq!(seqs_second, vec![1, 2, 3, 4]);
    assert!(contract.list_donations(first, 0, 100).iter().all(|d| d.project_id == first));
    assert!(contract.storage.donation(first, 0).is_none());
    assert!(contract.storage.donation(first, 4).is_none());
    assert_eq!(contract.get_dashboard_stats(first).unwrap().donations_count, 3);
    assert_eq!(contract.get_dashboard_stats(second).unwrap().donations_count, 4);
}

#[test]
fn completing_twice_keeps_state_and_announces_again() {
    let mut contract = MarketplaceContract::new();
    let id = open_project(&mut contract, "A", "first");
    contract.ledger_timestamp = 500;
    assert_eq!(contract.complete_milestone(id, Address::new("A"), 1), Ok(()));
    let once = contract.get_project(id).unwrap();
    assert!(once.milestones[1].completed);
    assert!(!once.milestones[0].completed);
    let announced = contract.events.len();
    contract.ledger_timestamp = 600;
    assert_eq!(contract.complete_milestone(id, Address::new("A"), 1), Ok(()));
    assert_eq!(contract.get_project(id).unwrap(), once);
    assert_eq!(contract.events.len(), announced + 1);
    assert_eq!(
        contract.events[announced - 1],
        Event::MilestoneCompleted {
            project_id: id,
            index: 1,
            title: text("two"),
            timestamp: 500
        }
    );
    assert_eq!(
        contract.events[announced],
        Event::MilestoneCompleted {
            project_id: id,
            index: 1,
            title: text("two"),
            timestamp: 600
        }
    );
}

#[test]
fn project_pages_are_ascending_prefixes() {
    let mut contract = MarketplaceContract::new();
    for i in 0..7 {
        let id = open_project(&mut contract, "A", "p");
        assert_eq!(id, i + 1);
    }
    let ids = |c: &MarketplaceContract, k: u64, n: u32| -> Vec<u64> {
        c.list_projects(k, n).iter().map(|p| p.id).collect()
    };
    assert_eq!(ids(&contract, 0, 3), vec![1, 2, 3]);
    assert_eq!(ids(&contract, 3, 3), vec![4, 5, 6]);
    assert_eq!(ids(&contract, 6, 3), vec![7]);
    assert_eq!(ids(&contract, 0, 100), vec![1, 2, 3, 4, 5, 6, 7]);
    assert_eq!(ids(&contract, 5, 0), Vec::<u64>::new());
    assert_eq!(ids(&contract, 7, 5), Vec::<u64>::new());
    assert_eq!(ids(&contract, 8, 5), Vec::<u64>::new());
    assert_eq!(ids(&contract, u64::MAX, 5), Vec::<u64>::new());
    assert_eq!(ids(&contract, 0, u32::MAX), vec![1, 2, 3, 4, 5, 6, 7]);
}

#[test]
fn project_pages_pass_over_missing_records() {
    let mut storage = Storage::new();
    storage.set_project(2, bare_project(2));
    storage.set_project(5, bare_project(5));
    storage.set_project(6, bare_project(6));
    storage.set_project(9, bare_project(9));
    storage.write_next_project_id(7);
    let contract = MarketplaceContract { storage, events: Vec::new(), ledger_timestamp: 0 };
    let ids = |k: u64, n: u32| -> Vec<u64> {
        contract.list_projects(k, n).iter().map(|p| p.id).collect()
    };
    assert_eq!(ids(0, 10), vec![2, 5, 6]);
    assert_eq!(ids(0, 2), vec![2, 5]);
    assert_eq!(ids(2, 1), vec![5]);
    assert_eq!(ids(1, 1), vec![2]);
    assert_eq!(ids(5, 10), vec![6]);
    assert_eq!(ids(6, 10), Vec::<u64>::new());
}

#[test]
fn donor_impact_counts_each_project_once() {
    let mut contract = MarketplaceContract::new();
    let first = open_project(&mut contract, "A", "first");
    let second = open_project(&mut contract, "A", "second");
    let third = open_project(&mut contract, "A", "third");
    contract.set_impacted_people(first, Address::new("A"), 200).unwrap();
    contract.set_impacted_people(second, Address::new("A"), 30).unwrap();
    contract.set_impacted_people(third, Address::new("A"), 4).unwrap();
    assert_eq!(contract.get_donor_impacted_people(Address::new("B")), 0);
    contract.donate(first, Address::new("B"), 1, 0).unwrap();
    assert_eq!(contract.get_donor_impacted_people(Address::new("B")), 200);
    contract.donate(first, Address::new("B"), 1, 0).unwrap();
    contract.donate(first, Address::new("B"), 1, 0).unwrap();
    assert_eq!(contract.get_donor_impacted_people(Address::new("B")), 200);
    contract.donate(third, Address::new("B"), 1, 0).unwrap();
    assert_eq!(contract.get_donor_impacted_people(Address::new("B")), 204);
    contract.donate(second, Address::new("C"), 1, 0).unwrap();
    assert_eq!(contract.get_donor_impacted_people(Address::new("B")), 204);
    assert_eq!(contract.get_donor_impacted_people(Address::new("C")), 30);
    contract.set_impacted_people(third, Address::new("A"), 5).unwrap();
    assert_eq!(contract.get_donor_impacted_people(Address::new("B")), 205);
    assert_eq!(contract.checked_donor_impacted_people(&Address::new("B")), Some(205));
}

#[test]
fn strangers_are_refused_and_change_nothing() {
    let mut contract = MarketplaceContract::new();
    let id = open_project(&mut contract, "A", "first");
    contract.set_impacted_people(id, Address::new("A"), 9).unwrap();
    let before = contract.get_project(id).unwrap();
    let announced = contract.events.len();
    let long = text(&"x".repeat(2_000));
    assert_eq!(
        contract.add_update(id, Address::new("C"), text("t"), text("b"), 1),
        Err(Error::NotAuthorized)
    );
    assert_eq!(
        contract.add_update(id, Address::new("C"), long.clone(), long.clone(), 1),
        Err(Error::NotAuthorized)
    );
    assert_eq!(contract.complete_milestone(id, Address::new("C"), 0), Err(Error::NotAuthorized));
    assert_eq!(contract.complete_milestone(id, Address::new("C"), 99), Err(Error::NotAuthorized));
    assert_eq!(contract.set_impacted_people(id, Address::new("C"), 50), Err(Error::NotAuthorized));
    assert_eq!(contract.set_impacted_people(id, Address::new("C"), -50), Err(Error::NotAuthorized));
    assert_eq!(contract.get_project(id).unwrap(), before);
    assert_eq!(contract.get_impacted_people(id), 9);
    assert_eq!(contract.events.len(), announced);
}

#[test]
fn nothing_recorded_is_taken_back() {
    let mut contract = MarketplaceContract::new();
    let id = open_project(&mut contract, "A", "first");
    contract.donate(id, Address::new("B"), 10, 1).unwrap();
    contract
        .add_update(id, Address::new("A"), text("u0"), text("b0"), 2)
        .unwrap();
    contract.complete_milestone(id, Address::new("A"), 0).unwrap();
    let earlier = contract.get_project(id).unwrap();
    let gift = contract.list_donations(id, 0, 1);
    contract.donate(id, Address::new("C"), 5, 3).unwrap();
    contract
        .add_update(id, Address::new("A"), text("u1"), text("b1"), 4)
        .unwrap();
    contract.complete_milestone(id, Address::new("A"), 1).unwrap();
    open_project(&mut contract, "Z", "second");
    let later = contract.get_project(id).unwrap();
    assert_eq!(later.owner, earlier.owner);
    assert_eq!(later.target_amount, earlier.target_amount);
    assert!(later.current_amount >= earlier.current_amount);
    assert_eq!(later.milestones.len(), earlier.milestones.len());
    assert!(later.milestones[0].completed);
    assert_eq!(later.updates[..earlier.updates.len()], earlier.updates[..]);
    assert_eq!(contract.list_donations(id, 0, 1), gift);
    assert!(contract.storage.has_donor_mark(&Address::new("B"), id));
}
