use heat_city::world::TimeOfDay;
use heat_city::factions::{FactionStatus, InvestigationStatus};
use heat_city::businesses::BusinessKind;
use heat_city::combat::WeaponKind;
use heat_city::director::{choose_event, DirectorEvent, TensionLevel};
use heat_city::events::EventKind;
use heat_city::heists::{Approach, Diversion, EscapeRoute};
use heat_city::police::{CrimeType, EvidenceKind, HeatLevel};

#[test]
fn loud_generates_more_heat_than_quiet() {
    assert!(Approach::Loud.base_heat() > Approach::Quiet.base_heat());
}

#[test]
fn heist_heat_tables() {
    assert_eq!(Approach::Loud.base_heat(), 40);
    assert_eq!(Approach::Social.evidence_weight(), 3);
    assert_eq!(EscapeRoute::SwitchCar.heat_reduction(), 15);
    assert_eq!(Diversion::NoDiversion.heat_reduction(), 0);
    assert_eq!(Diversion::Explosive.heat_reduction(), 20);
}

#[test]
fn weapon_tables() {
    assert_eq!(WeaponKind::Sniper.damage(), 80);
    assert_eq!(WeaponKind::Melee.projectile_speed(), 0);
    assert_eq!(WeaponKind::Shotgun.range(), 250);
    assert_eq!(WeaponKind::Smg.heat_per_shot(), 2);
}

#[test]
fn event_and_crime_tables() {
    assert_eq!(EventKind::RivalHunt.heat_on_intervention(), 20);
    assert_eq!(EventKind::StormWeather.heat_on_intervention(), 0);
    assert_eq!(EventKind::StormWeather.duration(), 900);
    assert_eq!(CrimeType::CopKilled.heat_points(), 50);
    assert_eq!(EvidenceKind::Fingerprints.weight(), 25);
    assert_eq!(BusinessKind::Nightclub.laundering_rate(), 30);
}

#[test]
fn heat_level_thresholds() {
    assert_eq!(HeatLevel::for_points(0), HeatLevel::Clean);
    assert_eq!(HeatLevel::for_points(1), HeatLevel::Suspicion);
    assert_eq!(HeatLevel::for_points(14), HeatLevel::Suspicion);
    assert_eq!(HeatLevel::for_points(15), HeatLevel::LocalPursuit);
    assert_eq!(HeatLevel::for_points(30), HeatLevel::ActiveSearch);
    assert_eq!(HeatLevel::for_points(50), HeatLevel::TaskForce);
    assert_eq!(HeatLevel::for_points(70), HeatLevel::Lockdown);
    assert_eq!(HeatLevel::for_points(89), HeatLevel::Lockdown);
    assert_eq!(HeatLevel::for_points(90), HeatLevel::Manhunt);
    assert_eq!(HeatLevel::for_points(u32::MAX), HeatLevel::Manhunt);
    let mut last = 0;
    for p in 0..200 {
        let rank = HeatLevel::for_points(p).as_u8();
        assert!(rank >= last);
        last = rank;
    }
}

#[test]
fn director_choices() {
    assert_eq!(TensionLevel::Calm.quiet_threshold(), Some(60));
    assert_eq!(TensionLevel::Chaos.quiet_threshold(), None);
    assert_eq!(TensionLevel::High.cooldown_after_event(), 120);
    assert_eq!(choose_event(TensionLevel::Calm, false, true), Some(DirectorEvent::RandomStreetEvent));
    assert_eq!(choose_event(TensionLevel::Medium, false, true), Some(DirectorEvent::AmbientFlavor));
    assert_eq!(choose_event(TensionLevel::High, false, true), Some(DirectorEvent::PolicePressure));
    assert_eq!(choose_event(TensionLevel::Chaos, false, true), None);
    assert_eq!(choose_event(TensionLevel::Calm, true, true), None);
    assert_eq!(choose_event(TensionLevel::Calm, false, false), None);
}

#[test]
fn faction_and_investigation_stages() {
    assert_eq!(FactionStatus::for_trust(0), FactionStatus::Neutral);
    assert_eq!(FactionStatus::for_trust(60), FactionStatus::Family);
    assert_eq!(FactionStatus::for_trust(59), FactionStatus::Trusted);
    assert_eq!(FactionStatus::for_trust(-20), FactionStatus::Neutral);
    assert_eq!(FactionStatus::for_trust(-21), FactionStatus::Suspicious);
    assert_eq!(FactionStatus::for_trust(-61), FactionStatus::Hunted);
    assert_eq!(InvestigationStatus::for_identification(9), InvestigationStatus::Unknown);
    assert_eq!(InvestigationStatus::for_identification(10), InvestigationStatus::PersonOfInterest);
    assert_eq!(InvestigationStatus::for_identification(59), InvestigationStatus::Identified);
    assert_eq!(InvestigationStatus::for_identification(84), InvestigationStatus::WarrantActive);
    assert_eq!(InvestigationStatus::for_identification(85), InvestigationStatus::Manhunt);
}

#[test]
fn time_of_day_by_hour() {
    assert_eq!(TimeOfDay::from_hour(4), TimeOfDay::Night);
    assert_eq!(TimeOfDay::from_hour(5), TimeOfDay::Dawn);
    assert_eq!(TimeOfDay::from_hour(8), TimeOfDay::Morning);
    assert_eq!(TimeOfDay::from_hour(12), TimeOfDay::Afternoon);
    assert_eq!(TimeOfDay::from_hour(17), TimeOfDay::Evening);
    assert_eq!(TimeOfDay::from_hour(21), TimeOfDay::Night);
    assert_eq!(TimeOfDay::from_hour(24 + 9), TimeOfDay::Morning);
    assert!(TimeOfDay::from_hour(6).is_night());
}
