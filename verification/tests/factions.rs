use heat_city::factions::{FactionDef, FactionKind, FactionRegistry};

#[test]
fn default_factions() {
    let defs = FactionDef::all_defaults();
    assert_eq!(defs.len(), 7);
    assert_eq!(defs[0].id, "southline_kings");
    assert_eq!(defs[0].name, "Southline Kings");
    assert_eq!(defs[0].kind, FactionKind::StreetGang);
    assert_eq!(defs[0].home_zones, vec!["east_blocks".to_string()]);
    assert_eq!(defs[0].enemies, vec!["los_cuervos".to_string(), "iron_hounds".to_string()]);
    assert_eq!(defs[2].kind, FactionKind::Mafia);
    assert_eq!(defs[3].home_zones, vec!["desert_outskirts".to_string()]);
    assert!(defs[6].home_zones.is_empty());
    assert!(defs.iter().all(|d| d.allies.is_empty()));
}

#[test]
fn enmity_among_defaults_is_mutual() {
    let defs = FactionDef::all_defaults();
    for a in &defs {
        for e in &a.enemies {
            let b = defs.iter().find(|d| &d.id == e).unwrap();
            assert!(b.enemies.contains(&a.id));
        }
    }
}

#[test]
fn registry_lookup() {
    let reg = FactionRegistry::from_defaults();
    assert_eq!(reg.len(), 7);
    assert_eq!(reg.get("harbor_cartel").unwrap().name, "Harbor Cartel");
    assert!(reg.get("nobody").is_none());
    let ids = reg.ids();
    assert_eq!(ids.len(), 7);
    assert!(ids.contains(&"police".to_string()));
    assert_eq!(reg.defs().len(), 7);
}
