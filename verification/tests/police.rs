use heat_city::police::{CrimeType, EvidenceKind, HeatLevel, PoliceState};

#[test]
fn heat_level_numbers_round_trip() {
    for v in 0u8..=6 {
        assert_eq!(HeatLevel::from_u8(v).as_u8(), v);
    }
    assert_eq!(HeatLevel::from_u8(7), HeatLevel::Manhunt);
    assert_eq!(HeatLevel::from_u8(255), HeatLevel::Manhunt);
    assert_eq!(HeatLevel::Clean.as_u8(), 0);
}

#[test]
fn heat_level_response() {
    let units: Vec<u32> = (0u8..=6).map(|v| HeatLevel::from_u8(v).response_units()).collect();
    assert_eq!(units, vec![0, 1, 2, 4, 6, 8, 12]);
    assert!(!HeatLevel::LocalPursuit.has_helicopter());
    assert!(HeatLevel::ActiveSearch.has_helicopter());
    assert!(!HeatLevel::ActiveSearch.has_roadblocks());
    assert!(HeatLevel::TaskForce.has_roadblocks());
    assert!(!HeatLevel::TaskForce.has_checkpoints());
    assert!(HeatLevel::Lockdown.has_checkpoints());
    assert!(HeatLevel::Manhunt.has_checkpoints());
}

#[test]
fn heat_level_order_follows_numbers() {
    assert!(HeatLevel::TaskForce > HeatLevel::ActiveSearch);
    assert!(HeatLevel::Clean < HeatLevel::Suspicion);
}

#[test]
fn police_labels() {
    assert_eq!(HeatLevel::Clean.label(), "Clean");
    assert_eq!(HeatLevel::LocalPursuit.label(), "Local Pursuit");
    assert_eq!(CrimeType::HitAndRun.label(), "Hit and Run");
    assert_eq!(CrimeType::MassCasualty.label(), "Mass Casualty");
    assert_eq!(EvidenceKind::LicensePlate.label(), "License Plate");
    assert_eq!(EvidenceKind::KnownAssociate.label(), "Known Associate");
    assert_eq!(PoliceState::ReturnToPatrol.label(), "Return");
    assert_eq!(PoliceState::Roadblock.label(), "Roadblock");
}

#[test]
fn police_state_machine() {
    assert_eq!(PoliceState::Patrol.next(true, false), PoliceState::Pursue);
    assert_eq!(PoliceState::Pursue.next(false, true), PoliceState::Search);
    assert_eq!(PoliceState::Search.next(false, false), PoliceState::ReturnToPatrol);
    assert_eq!(PoliceState::Pursue.next(false, false), PoliceState::ReturnToPatrol);
    assert_eq!(PoliceState::ReturnToPatrol.next(false, false), PoliceState::Patrol);
    assert_eq!(PoliceState::Roadblock.next(false, false), PoliceState::Patrol);
}
