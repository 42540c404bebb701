use marketplace::{Address, Location, MarketplaceContract, Milestone};

fn text(s: &str) -> Vec<u8> {
    s.as_bytes().to_vec()
}

#[test]
fn create_and_get() {
    let mut contract = MarketplaceContract::new();
    let owner = Address::new("GOWNER");
    let loc = Location {
        latitude: 0,
        longitude: 0,
        country: text("AR"),
        province: text("Buenos Aires"),
        city: text("La Plata"),
    };
    let milestones: Vec<Milestone> = Vec::new();
    let id = contract
        .create_project(
            owner,
            text("Comedor"),
            1_726_000_000i64,
            30_000i128,
            text("Crear comedor"),
            text("Educacion"),
            loc,
            milestones,
        )
        .unwrap();
    let p = contract.get_project(id).unwrap();
    assert_eq!(p.name, text("Comedor"));
}
