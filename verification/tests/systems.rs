use heat_city::ui::HudState;
use heat_city::audio::{AudioSystem, RadioStation, SoundKind};
use heat_city::events::{EventKind, EventManager};
use heat_city::ids::{decimal, numbered};
use heat_city::news::{NewsKind, NewsSystem};
use heat_city::police::{EvidenceKind, EvidenceLedger};
use heat_city::rivals::{RivalAction, RivalDisposition, RivalKind, RivalSystem};
use heat_city::ui::{MenuScreen, UiState};

#[test]
fn decimal_ids() {
    assert_eq!(decimal(0), "0");
    assert_eq!(decimal(7), "7");
    assert_eq!(decimal(10), "10");
    assert_eq!(decimal(4_294_967_295), "4294967295");
    assert_eq!(numbered("event_", 12), "event_12");
}

#[test]
fn evidence_is_not_filed_twice() {
    let mut l = EvidenceLedger::new();
    l.add(EvidenceKind::LicensePlate, "east_blocks", "ABC123");
    l.add(EvidenceKind::LicensePlate, "downtown", "ABC123");
    assert_eq!(l.len(), 1);
    l.add(EvidenceKind::VehicleType, "east_blocks", "ABC123");
    l.add(EvidenceKind::LicensePlate, "east_blocks", "XYZ999");
    assert_eq!(l.len(), 3);
    assert_eq!(l.evidence[0].zone, "east_blocks");
}

#[test]
fn evidence_remove_kind_and_clear() {
    let mut l = EvidenceLedger::new();
    l.add(EvidenceKind::Witness, "z", "old lady");
    l.add(EvidenceKind::LicensePlate, "z", "ABC123");
    l.add(EvidenceKind::Camera, "z", "bank cam");
    l.add(EvidenceKind::LicensePlate, "z", "XYZ999");
    l.remove_kind(EvidenceKind::LicensePlate);
    let kinds: Vec<EvidenceKind> = l.evidence.iter().map(|e| e.kind).collect();
    assert_eq!(kinds, vec![EvidenceKind::Witness, EvidenceKind::Camera]);
    assert!(!l.is_empty());
    l.clear();
    assert!(l.is_empty());
    assert_eq!(l.len(), 0);
}

#[test]
fn rivals_get_numbered_ids() {
    let mut rs = RivalSystem::new();
    let first = rs.add(RivalKind::Cop, "Det. Kane").id.clone();
    let second = rs.add(RivalKind::Journalist, "Vera").id.clone();
    assert_eq!(first, "rival_1");
    assert_eq!(second, "rival_2");
    assert_eq!(rs.get("rival_2").map(|r| r.name.as_str()), Some("Vera"));
    assert!(rs.get("rival_3").is_none());
    assert_eq!(rs.hostile_count(), 2);
    rs.rivals[0].disposition = RivalDisposition::Truce;
    assert_eq!(rs.hostile_count(), 1);
}

#[test]
fn rival_bounty_and_moves() {
    let mut rs = RivalSystem::new();
    rs.add(RivalKind::GangLeader, "Big T");
    rs.add(RivalKind::BountyHunter, "Rook");
    for _ in 0..3 {
        rs.rivals[0].on_humiliated_by_player();
    }
    rs.rivals[1].bounty = u32::MAX;
    rs.rivals[1].on_humiliated_by_player();
    assert_eq!(rs.rivals[0].bounty, 1500);
    assert_eq!(rs.rivals[0].actions_received, 3);
    assert_eq!(rs.rivals[1].bounty, u32::MAX);
    assert_eq!(rs.total_bounty(), 1500 + u32::MAX as u64);
    let r = &mut rs.rivals[0];
    assert_eq!(r.on_action_taken(true, true), RivalAction::AttackBusiness);
    assert_eq!(r.on_action_taken(false, true), RivalAction::TipPolice);
    assert_eq!(r.on_action_taken(false, false), RivalAction::SpreadRumor);
    r.disposition = RivalDisposition::Plotting;
    assert_eq!(r.on_action_taken(true, true), RivalAction::KidnapCrew);
    r.disposition = RivalDisposition::Ally;
    assert_eq!(r.on_action_taken(true, true), RivalAction::NoAction);
    assert_eq!(r.actions_taken, 5);
    r.on_helped_by_player();
    assert_eq!(r.actions_received, 4);
}

#[test]
fn small_bounty_never_attacks_business() {
    let mut rs = RivalSystem::new();
    rs.add(RivalKind::MafiaEnforcer, "Sal");
    rs.rivals[0].bounty = 1000;
    assert_eq!(rs.rivals[0].on_action_taken(true, true), RivalAction::TipPolice);
}

#[test]
fn events_spawn_and_intervene() {
    let mut m = EventManager::new();
    let id = m.spawn(EventKind::GangSkirmish, "east_blocks").id.clone();
    assert_eq!(id, "event_1");
    m.spawn(EventKind::BikerConvoy, "east_blocks");
    assert_eq!(m.active_count(), 2);
    assert_eq!(m.total_spawned, 2);
    assert!(m.intervene("event_2"));
    assert!(m.active[1].intervened);
    assert!(!m.active[0].intervened);
    assert!(!m.intervene("event_9"));
}

#[test]
fn news_publishing() {
    let mut n = NewsSystem::new();
    let id = n.publish(NewsKind::LocalEvent, "Gang skirmish reported", "Two crews...").id.clone();
    assert_eq!(id, "news_1");
    n.publish_player_action("Witnesses describe a red muscle car.");
    n.publish_rumor("A contact wants to reach you.");
    assert_eq!(n.count(), 3);
    assert_eq!(n.items[1].kind, NewsKind::PlayerAction);
    assert_eq!(n.items[1].headline, "Police investigate incident");
    assert_eq!(n.items[1].body, "Police are investigating an incident. Witnesses describe a red muscle car.");
    assert_eq!(n.items[2].headline, "Street rumor");
    assert_eq!(n.items[2].id, "news_3");
}

#[test]
fn audio_queue_radio_and_mute() {
    let mut a = AudioSystem::new();
    a.play_sfx("gunshot");
    a.play_ui("click");
    a.play_voice("hello");
    assert_eq!(a.play_queue.len(), 3);
    assert_eq!(a.play_queue[0], ("gunshot".to_string(), SoundKind::Sfx));
    assert_eq!(a.play_queue[2].1, SoundKind::Voice);
    a.tick();
    assert!(a.play_queue.is_empty());
    a.add_station(RadioStation::new("kfm", "K-FM", "funk"));
    a.set_radio("kfm");
    assert_eq!(a.active_radio.as_deref(), Some("kfm"));
    a.stop_radio();
    assert!(a.active_radio.is_none());
    a.toggle_mute();
    assert!(a.muted);
    a.toggle_mute();
    assert!(!a.muted);
    assert_eq!(a.stations.len(), 1);
}

#[test]
fn menu_toggling() {
    let mut ui = UiState::new();
    ui.toggle_menu(MenuScreen::Pause);
    assert_eq!(ui.current_menu, Some(MenuScreen::Pause));
    ui.toggle_menu(MenuScreen::Phone);
    assert_eq!(ui.current_menu, Some(MenuScreen::Phone));
    ui.toggle_menu(MenuScreen::Phone);
    assert_eq!(ui.current_menu, None);
    ui.open_menu(MenuScreen::Options);
    ui.close_menu();
    assert!(ui.current_menu.is_none());
}

#[test]
fn hud_shows_and_clears() {
    let mut hud = HudState::new();
    assert_eq!(hud.cash, 0);
    assert!(hud.current_objective.is_none());
    hud.set_heat("Local Pursuit");
    hud.set_objective("GoToZone east_blocks");
    hud.set_news_ticker("Gang skirmish reported");
    hud.set_dialog("Yo.", &["Hvad er jobbet?".to_string(), "Ikke lige nu.".to_string()]);
    assert_eq!(hud.heat_label, "Local Pursuit");
    assert_eq!(hud.current_objective.as_deref(), Some("GoToZone east_blocks"));
    assert_eq!(hud.news_ticker.as_deref(), Some("Gang skirmish reported"));
    assert_eq!(hud.dialog_text.as_deref(), Some("Yo."));
    assert_eq!(hud.dialog_choices, vec!["Hvad er jobbet?".to_string(), "Ikke lige nu.".to_string()]);
    hud.clear_objective();
    hud.clear_dialog();
    assert!(hud.current_objective.is_none());
    assert!(hud.dialog_text.is_none());
    assert!(hud.dialog_choices.is_empty());
    assert_eq!(hud.heat_label, "Local Pursuit");
    let mut ui = UiState::default();
    ui.hud = hud;
    ui.toggle_menu(MenuScreen::Phone);
    assert_eq!(ui.hud.heat_label, "Local Pursuit");
}

#[test]
fn background_sounds_loop() {
    assert!(SoundKind::Ambient.loops() && SoundKind::Music.loops() && SoundKind::Radio.loops());
    assert!(!SoundKind::Sfx.loops() && !SoundKind::Voice.loops() && !SoundKind::Ui.loops());
}
