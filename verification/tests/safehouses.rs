use heat_city::safehouses::{Safehouse, SafehouseKind, SafehousePortfolio};

#[test]
fn stash_capacity_limits_items() {
    let mut sh = Safehouse::new("t", SafehouseKind::CrashPad, "z", "a");
    assert!(sh.stash_add("x", 5));
    assert!(!sh.stash_add("y", 1));
}

#[test]
fn garage_capacity_limits_vehicles() {
    let mut sh = Safehouse::new("t", SafehouseKind::Apartment, "z", "a");
    assert!(sh.garage_add("sedan"));
    assert!(!sh.garage_add("van"));
}

#[test]
fn stash_merges_same_item() {
    let mut sh = Safehouse::new("t", SafehouseKind::Apartment, "z", "a");
    assert!(sh.stash_add("pistol", 2));
    assert!(sh.stash_add("ammo", 10));
    assert!(sh.stash_add("pistol", 3));
    assert_eq!(sh.stash.len(), 2);
    assert_eq!(sh.stash[0], ("pistol".to_string(), 5));
    assert_eq!(sh.stash[1], ("ammo".to_string(), 10));
    // 15 of 20 used: 6 more does not fit, 5 does.
    assert!(!sh.stash_add("ammo", 6));
    assert_eq!(sh.stash[1].1, 10);
    assert!(sh.stash_add("ammo", 5));
    assert_eq!(sh.stash[1].1, 15);
}

#[test]
fn crash_pad_has_no_garage() {
    let mut sh = Safehouse::new("t", SafehouseKind::CrashPad, "z", "a");
    assert!(!sh.garage_add("bike"));
    assert!(sh.garage.is_empty());
}

#[test]
fn warehouse_garage_holds_six() {
    let mut sh = Safehouse::new("w", SafehouseKind::Warehouse, "docks", "Pier 4");
    for i in 0..6 {
        assert!(sh.garage_add(&format!("car{}", i)));
    }
    assert!(!sh.garage_add("car6"));
    assert_eq!(sh.garage.len(), 6);
    assert_eq!(sh.garage[5], "car5");
}

#[test]
fn disguise_is_set_and_cleared() {
    let mut sh = Safehouse::new("t", SafehouseKind::Townhouse, "z", "a");
    sh.set_disguise(Some("suit".to_string()));
    assert_eq!(sh.active_disguise.as_deref(), Some("suit"));
    sh.set_disguise(None);
    assert!(sh.active_disguise.is_none());
}

#[test]
fn safehouse_kind_tables() {
    assert_eq!(SafehouseKind::CrashPad.base_price(), 5_000);
    assert_eq!(SafehouseKind::Mansion.base_price(), 500_000);
    assert!(!SafehouseKind::Townhouse.requires_clean());
    assert!(SafehouseKind::Mansion.requires_clean());
    assert!(!SafehouseKind::Warehouse.requires_clean());
    assert_eq!(SafehouseKind::Warehouse.stash_capacity(), 200);
    assert_eq!(SafehouseKind::Mansion.garage_capacity(), 4);
    assert_eq!(SafehouseKind::Mansion.crew_capacity(), 8);
    assert_eq!(SafehouseKind::Apartment.crew_capacity(), 1);
    assert_eq!(SafehouseKind::CrashPad.label(), "Crash Pad");
}

#[test]
fn starter_portfolio() {
    let port = SafehousePortfolio::with_starter();
    assert_eq!(port.owned.len(), 1);
    let home = port.home().expect("home is owned");
    assert_eq!(home.id, "sh_starter");
    assert_eq!(home.kind, SafehouseKind::CrashPad);
    // The ammo does not fit next to the pistol in a crash pad.
    assert_eq!(home.stash, vec![("pistol".to_string(), 1)]);
}

#[test]
fn portfolio_lookup() {
    let mut port = SafehousePortfolio::new();
    assert!(port.home().is_none());
    port.buy(Safehouse::new("a", SafehouseKind::Apartment, "z", "1"));
    port.buy(Safehouse::new("b", SafehouseKind::Mansion, "z", "2"));
    assert_eq!(port.get("b").map(|s| s.kind), Some(SafehouseKind::Mansion));
    assert!(port.get("c").is_none());
    port.home_base = Some("c".to_string());
    assert!(port.home().is_none());
}
