use heat_city::engine::Handle;
use heat_city::heists::HeistManager;
use heat_city::missions::{Mission, MissionStatus, MissionTracker};
use heat_city::world::{build_test_tilemap_def, TileDef, TileRegistry, TileType};

#[test]
fn mission_completes_after_its_last_objective() {
    let mut m = Mission::from_def("steal_rival_car", "Wrong Car, Wrong Block", 3);
    assert_eq!(m.status, MissionStatus::Active);
    assert_eq!(m.current_objective(), Some(0));
    m.advance();
    m.advance();
    assert_eq!(m.status, MissionStatus::Active);
    assert!(!m.is_complete());
    m.advance();
    assert_eq!(m.status, MissionStatus::Completed);
    assert!(m.is_complete());
    assert_eq!(m.current_objective(), None);
    // A completed mission no longer moves.
    m.advance();
    assert_eq!(m.current_objective, 3);
}

#[test]
fn failed_mission_does_not_advance() {
    let mut m = Mission::from_def("deliver_package", "Dead Drop", 3);
    m.fail();
    m.advance();
    assert_eq!(m.status, MissionStatus::Failed);
    assert_eq!(m.current_objective, 0);
}

#[test]
fn tracker_starts_each_mission_once() {
    let mut t = MissionTracker::new();
    t.start(Mission::from_def("a", "A", 2));
    t.start(Mission::from_def("b", "B", 1));
    t.start(Mission::from_def("a", "A again", 5));
    assert_eq!(t.missions.len(), 2);
    assert_eq!(t.missions[0].title, "A");
    assert!(t.is_known("a"));
    assert!(!t.is_known("c"));
    assert_eq!(t.active(), vec![0, 1]);
}

#[test]
fn tracker_records_completed_and_failed() {
    let mut t = MissionTracker::default();
    t.start(Mission::from_def("a", "A", 2));
    t.start(Mission::from_def("b", "B", 1));
    t.start(Mission::from_def("c", "C", 1));
    t.complete(0);
    t.fail(2);
    t.complete(7);
    assert_eq!(t.completed, vec!["a".to_string()]);
    assert_eq!(t.failed, vec!["c".to_string()]);
    assert_eq!(t.active(), vec![1]);
    assert_eq!(t.active_index("b"), Some(1));
    assert_eq!(t.active_index("a"), None);
    // A completed id stays known, so it cannot be started again.
    t.start(Mission::from_def("a", "A", 2));
    assert_eq!(t.missions.len(), 3);
}

#[test]
fn one_heist_at_a_time() {
    let mut h = HeistManager::new();
    h.add_available("armored_van".to_string());
    h.add_available("bank_job".to_string());
    assert!(!h.start("container_heist"));
    assert!(h.start("armored_van"));
    assert!(!h.start("bank_job"));
    assert_eq!(h.active.as_deref(), Some("armored_van"));
    assert_eq!(h.finish(), Some("armored_van".to_string()));
    assert_eq!(h.completed, vec!["armored_van".to_string()]);
    assert!(h.active.is_none());
    assert_eq!(h.finish(), None);
}

#[test]
fn aborted_heist_is_not_completed() {
    let mut h = HeistManager::default();
    h.add_available("bank_job".to_string());
    assert!(h.start("bank_job"));
    assert_eq!(h.abort(), Some("bank_job".to_string()));
    assert!(h.completed.is_empty());
    assert_eq!(h.abort(), None);
    assert!(h.start("bank_job"));
}

fn tile(id: &str, solid: bool) -> TileType {
    TileType { def: TileDef { id: id.to_string(), solid, layer: 0 }, texture: Some(Handle { id: 1 }) }
}

#[test]
fn registry_replaces_on_insert() {
    let mut reg = TileRegistry::new();
    assert!(reg.get("wall").is_none());
    reg.insert("wall".to_string(), tile("wall", false));
    reg.insert("wall".to_string(), tile("wall", true));
    assert!(reg.is_solid("wall"));
    assert!(!reg.is_solid("grass"));
    assert_eq!(reg.get("wall").unwrap().texture, Some(Handle { id: 1 }));
}

#[test]
fn outside_the_map_is_solid() {
    let map = build_test_tilemap_def();
    let mut reg = TileRegistry::new();
    reg.insert("grass".to_string(), tile("grass", false));
    reg.insert("asphalt".to_string(), tile("asphalt", false));
    reg.insert("wall".to_string(), tile("wall", true));
    reg.insert("sidewalk".to_string(), tile("sidewalk", false));
    reg.insert("building".to_string(), tile("building", true));
    assert!(map.is_solid(-1, 0, &reg));
    assert!(map.is_solid(0, -1, &reg));
    assert!(map.is_solid(map.width as i32, 0, &reg));
    assert!(map.is_solid(0, map.height as i32, &reg));
    for y in 0..map.height {
        for x in 0..map.width {
            let id = map.tile_at(x, y).unwrap();
            assert_eq!(map.is_solid(x as i32, y as i32, &reg), id == "building" || id == "wall");
        }
    }
}
