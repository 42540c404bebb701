use marketplace::{Address, Error, Event, Location, MarketplaceContract, Milestone, Update};

fn text(s: &str) -> Vec<u8> {
    s.as_bytes().to_vec()
}

fn nowhere() -> Location {
    Location {
        latitude: 0,
        longitude: 0,
        country: Vec::new(),
        province: Vec::new(),
        city: Vec::new(),
    }
}

fn create(
    contract: &mut MarketplaceContract,
    name: &str,
    target: i128,
    statement: &str,
    area: &str,
) -> Result<u64, Error> {
    contract.create_project(
        Address::new("A"),
        text(name),
        10,
        target,
        text(statement),
        text(area),
        nowhere(),
        Vec::<Milestone>::new(),
    )
}

#[test]
fn create_rejects_non_positive_target_and_empty_name() {
    let mut contract = MarketplaceContract::new();
    assert_eq!(create(&mut contract, "n", 0, "s", "a"), Err(Error::InvalidArgument));
    assert_eq!(create(&mut contract, "n", -1, "s", "a"), Err(Error::InvalidArgument));
    assert_eq!(create(&mut contract, "n", i128::MIN, "s", "a"), Err(Error::InvalidArgument));
    assert_eq!(create(&mut contract, "", 1, "s", "a"), Err(Error::InvalidArgument));
    assert_eq!(contract.storage.read_next_project_id(), 0);
    assert!(contract.events.is_empty());
    assert!(contract.list_projects(0, 10).is_empty());
    assert_eq!(contract.get_project(1), Err(Error::ProjectNotFound));
}

#[test]
fn create_checks_arguments_before_lengths() {
    let mut contract = MarketplaceContract::new();
    let long = "n".repeat(101);
    assert_eq!(create(&mut contract, &long, 0, "s", "a"), Err(Error::InvalidArgument));
    assert_eq!(create(&mut contract, &long, 1, "s", "a"), Err(Error::StringTooLong));
}

#[test]
fn create_enforces_length_limits_in_bytes() {
    let mut contract = MarketplaceContract::new();
    assert_eq!(create(&mut contract, &"n".repeat(100), 1, "", ""), Ok(1));
    assert_eq!(create(&mut contract, &"n".repeat(101), 1, "", ""), Err(Error::StringTooLong));
    assert_eq!(create(&mut contract, "n", 1, &"s".repeat(500), ""), Ok(2));
    assert_eq!(create(&mut contract, "n", 1, &"s".repeat(501), ""), Err(Error::StringTooLong));
    assert_eq!(create(&mut contract, "n", 1, "", &"a".repeat(50)), Ok(3));
    assert_eq!(create(&mut contract, "n", 1, "", &"a".repeat(51)), Err(Error::StringTooLong));
    // Two bytes each: fifty fit in a name, fifty-one do not.
    assert_eq!(create(&mut contract, &"\u{e9}".repeat(50), 1, "", ""), Ok(4));
    assert_eq!(create(&mut contract, &"\u{e9}".repeat(51), 1, "", ""), Err(Error::StringTooLong));
    assert_eq!(create(&mut contract, "n", 1, "", &"\u{e9}".repeat(25)), Ok(5));
    assert_eq!(create(&mut contract, "n", 1, "", &"\u{e9}".repeat(26)), Err(Error::StringTooLong));
    assert_eq!(contract.storage.read_next_project_id(), 5);
    assert_eq!(contract.events.len(), 5);
}

#[test]
fn create_stores_milestones_as_not_completed() {
    let mut contract = MarketplaceContract::new();
    let milestones = vec![
        Milestone {
            title: text("a"),
            description: text("da"),
            amount_budget: 1,
            completed: false,
        },
        Milestone {
            title: text("b"),
            description: text("db"),
            amount_budget: 2,
            completed: true,
        },
    ];
    let id = contract
        .create_project(
            Address::new("A"),
            text("n"),
            10,
            1,
            Vec::new(),
            Vec::new(),
            nowhere(),
            milestones.clone(),
        )
        .unwrap();
    let stored = contract.list_milestones(id).unwrap();
    assert_eq!(stored.len(), 2);
    assert_eq!(stored[0], milestones[0]);
    assert_eq!(
        stored[1],
        Milestone {
            title: text("b"),
            description: text("db"),
            amount_budget: 2,
            completed: false,
        }
    );
    assert_eq!(contract.get_project(id).unwrap().milestones, stored);
    assert_eq!(contract.get_dashboard_stats(id).unwrap().milestones_total, 2);
    assert_eq!(contract.get_dashboard_stats(id).unwrap().milestones_completed, 0);
    contract.complete_milestone(id, Address::new("A"), 1).unwrap();
    assert!(contract.list_milestones(id).unwrap()[1].completed);
    assert_eq!(contract.get_dashboard_stats(id).unwrap().milestones_completed, 1);
}

#[test]
fn donate_checks_amount_before_project() {
    let mut contract = MarketplaceContract::new();
    assert_eq!(contract.donate(1, Address::new("B"), 0, 0), Err(Error::InvalidArgument));
    assert_eq!(contract.donate(1, Address::new("B"), 1, 0), Err(Error::ProjectNotFound));
    assert_eq!(contract.donate(0, Address::new("B"), 1, 0), Err(Error::ProjectNotFound));
    assert!(contract.events.is_empty());
    assert!(!contract.storage.has_donor_mark(&Address::new("B"), 1));
    assert_eq!(contract.storage.read_project_don_seq(1), 0);
}

#[test]
fn add_update_checks_project_then_owner_then_lengths() {
    let mut contract = MarketplaceContract::new();
    let long_title = text(&"t".repeat(101));
    assert_eq!(
        contract.add_update(1, Address::new("A"), long_title.clone(), Vec::new(), 0),
        Err(Error::ProjectNotFound)
    );
    create(&mut contract, "n", 1, "", "").unwrap();
    assert_eq!(
        contract.add_update(1, Address::new("B"), long_title.clone(), Vec::new(), 0),
        Err(Error::NotAuthorized)
    );
    assert_eq!(
        contract.add_update(1, Address::new("A"), long_title, Vec::new(), 0),
        Err(Error::StringTooLong)
    );
    assert_eq!(
        contract.add_update(1, Address::new("A"), Vec::new(), text(&"b".repeat(1001)), 0),
        Err(Error::StringTooLong)
    );
    assert!(contract.list_updates(1).unwrap().is_empty());
    assert_eq!(contract.events.len(), 1);
}

#[test]
fn add_update_appends_at_the_end() {
    let mut contract = MarketplaceContract::new();
    create(&mut contract, "n", 1, "", "").unwrap();
    assert_eq!(
        contract.add_update(
            1,
            Address::new("A"),
            text(&"t".repeat(100)),
            text(&"b".repeat(1000)),
            7
        ),
        Ok(())
    );
    assert_eq!(
        contract.add_update(1, Address::new("A"), text("second"), Vec::new(), 9),
        Ok(())
    );
    assert_eq!(
        contract.list_updates(1),
        Ok(vec![
            Update { title: text(&"t".repeat(100)), body: text(&"b".repeat(1000)), timestamp: 7 },
            Update { title: text("second"), body: Vec::new(), timestamp: 9 },
        ])
    );
    assert_eq!(
        contract.events[1],
        Event::UpdateAdded { project_id: 1, index: 0, timestamp: 7, title: text(&"t".repeat(100)) }
    );
    assert_eq!(
        contract.events[2],
        Event::UpdateAdded { project_id: 1, index: 1, timestamp: 9, title: text("second") }
    );
    assert_eq!(contract.get_dashboard_stats(1).unwrap().last_update_ts, 9);
}

#[test]
fn complete_milestone_checks_project_then_owner_then_index() {
    let mut contract = MarketplaceContract::new();
    assert_eq!(contract.complete_milestone(1, Address::new("A"), 0), Err(Error::ProjectNotFound));
    create(&mut contract, "n", 1, "", "").unwrap();
    assert_eq!(contract.complete_milestone(1, Address::new("B"), 0), Err(Error::NotAuthorized));
    assert_eq!(contract.complete_milestone(1, Address::new("A"), 0), Err(Error::InvalidArgument));
    assert_eq!(
        contract.complete_milestone(1, Address::new("A"), u32::MAX),
        Err(Error::InvalidArgument)
    );
}

#[test]
fn set_impacted_people_checks_project_then_owner_then_value() {
    let mut contract = MarketplaceContract::new();
    assert_eq!(contract.set_impacted_people(1, Address::new("A"), 5), Err(Error::ProjectNotFound));
    create(&mut contract, "n", 1, "", "").unwrap();
    assert_eq!(contract.get_impacted_people(1), 0);
    assert_eq!(contract.set_impacted_people(1, Address::new("B"), 5), Err(Error::NotAuthorized));
    assert_eq!(contract.set_impacted_people(1, Address::new("A"), -1), Err(Error::InvalidArgument));
    assert_eq!(contract.get_impacted_people(1), 0);
    assert_eq!(contract.set_impacted_people(1, Address::new("A"), 0), Ok(()));
    assert_eq!(contract.set_impacted_people(1, Address::new("A"), 5), Ok(()));
    assert_eq!(contract.set_impacted_people(1, Address::new("A"), 3), Ok(()));
    assert_eq!(contract.get_impacted_people(1), 3);
    assert_eq!(contract.events[3], Event::ImpactSet { project_id: 1, impacted_people: 3 });
    assert_eq!(contract.events.len(), 4);
}

#[test]
fn queries_report_missing_projects() {
    let contract = MarketplaceContract::new();
    assert_eq!(contract.get_project(1), Err(Error::ProjectNotFound));
    assert_eq!(contract.get_summary(1), Err(Error::ProjectNotFound));
    assert_eq!(contract.get_location(1), Err(Error::ProjectNotFound));
    assert_eq!(contract.get_impact_area(1), Err(Error::ProjectNotFound));
    assert_eq!(contract.get_problem_statement(1), Err(Error::ProjectNotFound));
    assert_eq!(contract.list_updates(1), Err(Error::ProjectNotFound));
    assert_eq!(contract.list_milestones(1), Err(Error::ProjectNotFound));
    assert_eq!(contract.get_dashboard_stats(1), Err(Error::ProjectNotFound));
    assert_eq!(contract.get_impacted_people(1), 0);
    assert!(contract.list_donations(1, 0, 10).is_empty());
    assert_eq!(contract.get_donor_impacted_people(Address::new("B")), 0);
}

#[test]
fn error_codes_are_stable() {
    assert_eq!(Error::NotAuthorized.code(), 1);
    assert_eq!(Error::ProjectNotFound.code(), 2);
    assert_eq!(Error::InvalidArgument.code(), 3);
    assert_eq!(Error::StringTooLong.code(), 4);
}

#[test]
fn checks_say_what_the_operations_answer() {
    let mut contract = MarketplaceContract::new();
    let check = |name: &str, target: i128, statement: &str, area: &str| {
        MarketplaceContract::check_create_project(&text(name), target, &text(statement), &text(area))
    };
    assert_eq!(check("n", 1, "s", "a"), Ok(()));
    assert_eq!(check("", 1, "s", "a"), Err(Error::InvalidArgument));
    assert_eq!(check("n", 0, "s", "a"), Err(Error::InvalidArgument));
    assert_eq!(check(&"n".repeat(101), 0, "s", "a"), Err(Error::InvalidArgument));
    assert_eq!(check(&"n".repeat(101), 1, "s", "a"), Err(Error::StringTooLong));
    assert_eq!(check("n", 1, &"s".repeat(501), "a"), Err(Error::StringTooLong));
    assert_eq!(check("n", 1, "s", &"a".repeat(51)), Err(Error::StringTooLong));
    assert_eq!(check(&"n".repeat(100), 1, &"s".repeat(500), &"a".repeat(50)), Ok(()));

    assert_eq!(contract.check_donate(1, 5), Err(Error::ProjectNotFound));
    assert_eq!(contract.check_donate(1, 0), Err(Error::InvalidArgument));
    assert_eq!(
        contract.check_add_update(1, &Address::new("A"), &text("t"), &text("b")),
        Err(Error::ProjectNotFound)
    );
    create(&mut contract, "n", 1, "", "").unwrap();
    assert_eq!(contract.check_donate(1, 5), Ok(()));
    assert_eq!(contract.check_donate(1, -5), Err(Error::InvalidArgument));
    assert_eq!(contract.check_donate(2, 5), Err(Error::ProjectNotFound));
    assert_eq!(
        contract.check_add_update(1, &Address::new("A"), &text("t"), &text("b")),
        Ok(())
    );
    assert_eq!(
        contract.check_add_update(1, &Address::new("B"), &text(&"t".repeat(101)), &text("b")),
        Err(Error::NotAuthorized)
    );
    assert_eq!(
        contract.check_add_update(1, &Address::new("A"), &text(&"t".repeat(101)), &text("b")),
        Err(Error::StringTooLong)
    );
    assert_eq!(
        contract.check_add_update(1, &Address::new("A"), &text("t"), &text(&"b".repeat(1001))),
        Err(Error::StringTooLong)
    );
    assert_eq!(contract.events.len(), 1);
    assert!(contract.list_updates(1).unwrap().is_empty());
}
