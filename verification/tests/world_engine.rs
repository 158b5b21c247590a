use heat_city::engine::{AppConfig, FpsCounter, Handle, Rect};
use heat_city::save::{migrate_version, SAVE_VERSION};
use heat_city::text::TextRenderer;
use heat_city::world::{build_test_tilemap_def, talk_line, NpcState, NpcType, TimeOfDay, ZoneBounds};

#[test]
fn npc_type_names() {
    assert_eq!(NpcType::from_str("shopkeeper"), NpcType::Shopkeeper);
    assert_eq!(NpcType::from_str("gang_member"), NpcType::GangMember);
    assert_eq!(NpcType::from_str("pedestrian"), NpcType::Pedestrian);
    assert_eq!(NpcType::from_str("Shopkeeper"), NpcType::Pedestrian);
    assert_eq!(NpcState::Panic.label(), "Panic");
}

#[test]
fn night_includes_dawn() {
    assert!(TimeOfDay::Night.is_night());
    assert!(TimeOfDay::Dawn.is_night());
    assert!(!TimeOfDay::Evening.is_night());
    assert_eq!(TimeOfDay::Afternoon.label(), "Afternoon");
}

#[test]
fn zone_bounds_become_rect() {
    let z = ZoneBounds { x: -5, y: 10, w: 800, h: 608 };
    assert_eq!(z.to_rect(), Rect::new(-5, 10, 800, 608));
}

#[test]
fn test_map_layout() {
    let def = build_test_tilemap_def();
    assert_eq!((def.width, def.height), (25, 19));
    assert_eq!(def.tiles.len(), 475);
    let at = |x: usize, y: usize| def.tile_at(x, y).map(|s| s.as_str());
    assert_eq!(at(0, 0), Some("wall"));
    assert_eq!(at(24, 10), Some("wall"));
    assert_eq!(at(5, 9), Some("sidewalk"));
    assert_eq!(at(12, 3), Some("sidewalk"));
    assert_eq!(at(12, 9), Some("sidewalk"));
    assert_eq!(at(11, 9), Some("asphalt"));
    assert_eq!(at(3, 3), Some("grass"));
    assert_eq!(at(5, 3), Some("building"));
    assert_eq!(at(21, 15), Some("grass"));
    assert_eq!(at(1, 1), Some("asphalt"));
    assert_eq!(at(25, 0), None);
    assert_eq!(at(0, 19), None);
}

#[test]
fn npc_talk() {
    assert_eq!(talk_line(NpcType::Shopkeeper, false, TimeOfDay::Night), "We're closing soon. Buy something or move on.");
    assert_eq!(talk_line(NpcType::Shopkeeper, true, TimeOfDay::Dawn), "Welcome. Don't touch anything.");
    assert_eq!(talk_line(NpcType::GangMember, true, TimeOfDay::Morning), "Wrong colors, wrong block, wrong idea.");
    assert_eq!(talk_line(NpcType::Pedestrian, false, TimeOfDay::Morning), "Need something?");
}

#[test]
fn handles_and_config() {
    assert!(Handle::null().is_null());
    assert!(!Handle { id: 3 }.is_null());
    assert_eq!(Handle { id: 3 }.id(), 3);
    let c = AppConfig::default();
    assert_eq!(c.window_title, "Heat City");
    assert_eq!((c.window_width, c.window_height), (1280, 720));
    let mut t = TextRenderer::new();
    assert!(t.font_texture.is_none());
    t.set_font(Handle { id: 9 });
    assert_eq!(t.font_texture, Some(Handle { id: 9 }));
}

#[test]
fn fps_counter_keeps_half_a_second() {
    let mut f = FpsCounter::new();
    f.tick(100);
    f.tick(400_000_000);
    f.tick(700_000_000);
    assert_eq!(f.samples, vec![400_000_000, 700_000_000]);
    f.tick(700_000_000);
    assert_eq!(f.samples.len(), 3);
    let mut g = FpsCounter::default();
    g.tick(5);
    assert_eq!(g.samples, vec![5]);
}

#[test]
fn save_versions() {
    assert_eq!(SAVE_VERSION, 1);
    assert_eq!(migrate_version(0), Ok(1));
    assert_eq!(migrate_version(1), Ok(1));
    assert!(migrate_version(999).is_err());
    assert!(migrate_version(2).unwrap_err().contains("nyere"));
}

#[test]
fn migration_rejects_future_version() {
    let version = 999;
    assert!(migrate_version(version).is_err());
}

#[test]
fn migration_messages() {
    assert_eq!(
        migrate_version(999).unwrap_err(),
        "Save version 999 er nyere end understøttet 1 — opdater spillet."
    );
    assert_eq!(SAVE_VERSION, 1);
}
