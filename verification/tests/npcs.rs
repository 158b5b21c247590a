use heat_city::world::{generate_line, NpcState, NpcType, TimeOfDay};

#[test]
fn panicking_npc_shouts_by_distance() {
    let line = generate_line(NpcState::Panic, NpcType::Pedestrian, TimeOfDay::Morning, false, 0);
    assert_eq!(line.as_deref(), Some("Hey! What are you doing?!"));
    let line = generate_line(NpcState::Panic, NpcType::Pedestrian, TimeOfDay::Morning, false, 5);
    assert_eq!(line.as_deref(), Some("Someone call the cops!"));
    let line = generate_line(NpcState::Flee, NpcType::GangMember, TimeOfDay::Night, true, 203);
    assert_eq!(line.as_deref(), Some("This is not my problem."));
}

#[test]
fn talking_npc_uses_its_talk_line() {
    let line = generate_line(NpcState::Talk, NpcType::Shopkeeper, TimeOfDay::Night, false, 10);
    assert_eq!(line.as_deref(), Some("We're closing soon. Buy something or move on."));
    // Too far to talk and not armed: a talker says nothing.
    assert_eq!(generate_line(NpcState::Talk, NpcType::Shopkeeper, TimeOfDay::Night, false, 30), None);
}

#[test]
fn armed_player_gets_warned() {
    let line = generate_line(NpcState::Walk, NpcType::Shopkeeper, TimeOfDay::Evening, true, 58);
    assert_eq!(line.as_deref(), Some("You're gonna get us both killed."));
    assert_eq!(generate_line(NpcState::Walk, NpcType::Shopkeeper, TimeOfDay::Evening, true, 60), None);
}

#[test]
fn pedestrians_greet_by_time_of_day() {
    let line = generate_line(NpcState::Walk, NpcType::Pedestrian, TimeOfDay::Dawn, false, 34);
    assert_eq!(line.as_deref(), Some("Early bird, huh?"));
    assert_eq!(generate_line(NpcState::Walk, NpcType::Pedestrian, TimeOfDay::Dawn, false, 35), None);
    assert_eq!(generate_line(NpcState::Idle, NpcType::GangMember, TimeOfDay::Dawn, false, 10), None);
}

#[test]
fn npc_state_machine() {
    assert_eq!(NpcState::Walk.next(true, true, false, false), NpcState::Panic);
    assert_eq!(NpcState::Walk.next(false, true, false, false), NpcState::Flee);
    assert_eq!(NpcState::Walk.next(false, false, true, true), NpcState::Talk);
    assert_eq!(NpcState::Flee.next(false, false, false, false), NpcState::Flee);
    assert_eq!(NpcState::Flee.next(false, false, false, true), NpcState::Walk);
    assert_eq!(NpcState::Idle.next(false, false, false, false), NpcState::Walk);
}
