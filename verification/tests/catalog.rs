use heat_city::audio::{RadioStation, SoundKind};
use heat_city::combat::WeaponKind;
use heat_city::director::{DirectorEvent, TensionLevel};
use heat_city::events::EventKind;
use heat_city::factions::{attitude_line, FactionKind, FactionStatus, InvestigationStatus};
use heat_city::heists::{default_heists, Approach, Diversion, EscapeRoute};
use heat_city::missions::{default_missions, Consequence, MissionStatus, Objective, Reward};
use heat_city::crew::CrewRole;
use heat_city::news::NewsKind;
use heat_city::rivals::{RivalAction, RivalDisposition, RivalKind};
use heat_city::ui::MenuScreen;

#[test]
fn heist_choices() {
    assert_eq!(Approach::Loud.preferred_role(), Some(CrewRole::Gunman));
    assert_eq!(Approach::Quiet.preferred_role(), Some(CrewRole::Infiltrator));
    assert_eq!(Approach::Dirty.preferred_role(), Some(CrewRole::Fixer));
    assert_eq!(Approach::Social.label(), "Social");
    assert_eq!(EscapeRoute::BackAlleys.label(), "Back Alleys");
    assert_eq!(Diversion::NoDiversion.cost(), 0);
    assert_eq!(Diversion::Explosive.cost(), 2_000);
    assert_eq!(Diversion::FireAlarm.cost(), 50);
    assert_eq!(Diversion::NoDiversion.label(), "None");
}

#[test]
fn weapons() {
    assert_eq!(WeaponKind::Shotgun.pellets(), 6);
    assert_eq!(WeaponKind::Pistol.pellets(), 1);
    assert!(WeaponKind::Melee.is_melee());
    assert!(!WeaponKind::Sniper.is_melee());
    assert_eq!(WeaponKind::Smg.label(), "SMG");
}

#[test]
fn radio_cycles_through_tracks() {
    let mut r = RadioStation::new("kfm", "K-FM", "funk");
    r.next_track();
    assert_eq!(r.current_track, 0);
    r.tracks = vec!["a".into(), "b".into(), "c".into()];
    r.next_track();
    r.next_track();
    assert_eq!(r.current_track, 2);
    r.next_track();
    assert_eq!(r.current_track, 0);
    assert_eq!(r.name, "K-FM");
}

#[test]
fn more_labels() {
    assert_eq!(SoundKind::Sfx.label(), "SFX");
    assert_eq!(SoundKind::Ui.label(), "UI");
    assert_eq!(TensionLevel::Chaos.label(), "Chaos");
    assert_eq!(DirectorEvent::RandomStreetEvent.label(), "Random Street Event");
    assert_eq!(EventKind::InformantChased.label(), "Informant Chased");
    assert_eq!(EventKind::StormWeather.label(), "Storm Weather");
    assert_eq!(NewsKind::PoliceBlotter.label(), "Police Blotter");
    assert_eq!(RivalKind::CorruptChief.label(), "Corrupt Chief");
    assert_eq!(RivalDisposition::Wavering.label(), "Wavering");
    assert_eq!(RivalAction::NoAction.label(), "None");
    assert_eq!(RivalAction::SetBounty.label(), "Set Bounty");
    assert_eq!(FactionKind::Biker.label(), "Biker Gang");
    assert_eq!(FactionStatus::Hunted.label(), "Hunted");
    assert_eq!(InvestigationStatus::default(), InvestigationStatus::Unknown);
    assert_eq!(InvestigationStatus::PersonOfInterest.label(), "Person of Interest");
    assert_eq!(MenuScreen::NoMenu.label(), "");
    assert_eq!(MenuScreen::SaveLoad.label(), "Save/Load");
}

#[test]
fn faction_attitudes() {
    assert_eq!(attitude_line(FactionStatus::Family, true), "My friend! What do you need?");
    assert_eq!(attitude_line(FactionStatus::Neutral, true), "Put that away. Not here.");
    assert_eq!(attitude_line(FactionStatus::Neutral, false), "Don't know you. Move along.");
    assert_eq!(attitude_line(FactionStatus::Hunted, false), "Get out. Now. Before I call them.");
}

#[test]
fn default_heist_table() {
    let heists = default_heists();
    assert_eq!(heists.len(), 3);
    let van = &heists[0];
    assert_eq!(van.id, "armored_van");
    assert_eq!(van.approaches, vec![Approach::Loud, Approach::Quiet, Approach::Social, Approach::Dirty]);
    assert_eq!((van.recommended_crew, van.min_loyalty, van.reward_cash, van.reward_clean, van.evidence_on_fail), (3, 40, 25_000, 0, 40));
    assert_eq!(heists[1].beneficiary_faction.as_deref(), Some("southline_kings"));
    assert_eq!(heists[1].target_faction, "harbor_cartel");
    let bank = &heists[2];
    assert_eq!((bank.id.as_str(), bank.reward_cash, bank.reward_clean, bank.min_loyalty), ("bank_job", 100_000, 5_000, 60));
    assert!(bank.beneficiary_faction.is_none());
}

#[test]
fn default_mission_table() {
    let missions = default_missions();
    assert_eq!(missions.len(), 2);
    let car = &missions[0];
    assert_eq!((car.id.as_str(), car.required_trust), ("steal_rival_car", -20));
    assert!(matches!(&car.objectives[1], Objective::StealVehicle { def_id } if def_id == "lowrider"));
    assert!(matches!(&car.rewards[1], Reward::FactionTrust { faction, delta: 10 } if faction == "southline_kings"));
    assert!(matches!(&car.consequences[0], Consequence::FactionTrust { faction, delta: -15 } if faction == "los_cuervos"));
    let drop = &missions[1];
    assert!(matches!(&drop.objectives[1], Objective::DeliverItem { item_id, count: 1, zone } if item_id == "package" && zone == "industrial_zone"));
    assert!(matches!(drop.objectives[2], Objective::EscapePolice { heat_max: 1 }));
    assert!(matches!(drop.consequences[0], Consequence::Heat { points: 5 }));
    let m = car.to_mission();
    assert_eq!((m.id.as_str(), m.title.as_str(), m.objective_count, m.current_objective), ("steal_rival_car", "Wrong Car, Wrong Block", 3, 0));
    assert_eq!(m.status, MissionStatus::Active);
}
