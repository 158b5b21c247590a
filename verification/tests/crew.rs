use heat_city::crew::{loyalty_status, will_do_violence, STARTING_FEAR, STARTING_LOYALTY, STARTING_MORALS};
use heat_city::crew::{Crew, CrewMember, CrewRole};

#[test]
fn hire_respects_max_size() {
    let mut crew = Crew::new();
    for i in 0..6 {
        assert!(crew.hire(CrewMember::new(&format!("m{}", i), "M", CrewRole::Runner)));
    }
    assert!(!crew.hire(CrewMember::new("m6", "M", CrewRole::Runner)));
    assert_eq!(crew.members.len(), 6);
    let mut none = Crew::default();
    assert!(!none.hire(CrewMember::new("x", "X", CrewRole::Medic)));
}

#[test]
fn fire_removes_every_member_with_the_id() {
    let mut crew = Crew::with_starter();
    crew.hire(CrewMember::new("crew_vito", "Vito II", CrewRole::Gunman));
    crew.fire("crew_vito");
    assert_eq!(crew.members.len(), 1);
    assert_eq!(crew.members[0].id, "crew_dana");
    assert!(crew.get("crew_vito").is_none());
    crew.fire("nobody");
    assert_eq!(crew.members.len(), 1);
}

#[test]
fn get_finds_first_member() {
    let crew = Crew::with_starter();
    assert_eq!(crew.get("crew_dana").map(|m| m.role), Some(CrewRole::Infiltrator));
    assert_eq!(crew.get("crew_vito").map(|m| m.name.as_str()), Some("Vito"));
}

#[test]
fn ready_lists_ready_members_in_order() {
    let mut crew = Crew::with_starter();
    crew.members[0].ready = false;
    crew.hire(CrewMember::new("crew_sal", "Sal", CrewRole::Fixer));
    let ready: Vec<&str> = crew.ready().iter().map(|m| m.id.as_str()).collect();
    assert_eq!(ready, vec!["crew_dana", "crew_sal"]);
}

#[test]
fn roles_cost_and_labels() {
    assert_eq!(CrewRole::Runner.hire_cost(), 500);
    assert_eq!(CrewRole::Fixer.hire_cost(), 4_000);
    assert_eq!(CrewRole::Infiltrator.label(), "Ghost");
    assert_eq!(CrewRole::Medic.label(), "Medic");
    let m = CrewMember::new("x", "X", CrewRole::Driver);
    assert!(m.ready && !m.compromised && m.level == 1 && m.home_safehouse.is_none());
}

#[test]
fn loyal_member_does_violence_if_low_morals() {
    // A new member: morals 30, fear 20.
    assert!(will_do_violence(STARTING_MORALS, STARTING_FEAR));
}

#[test]
fn high_morals_rejects_violence() {
    let morals = 80;
    assert!(!will_do_violence(morals, STARTING_FEAR));
}

#[test]
fn fear_also_rejects_violence() {
    assert!(will_do_violence(69, 59));
    assert!(!will_do_violence(69, 60));
    assert!(!will_do_violence(70, 0));
}

#[test]
fn loyalty_readings() {
    assert_eq!(loyalty_status(STARTING_LOYALTY), "Reliable");
    assert_eq!(loyalty_status(80), "Family");
    assert_eq!(loyalty_status(79), "Loyal");
    assert_eq!(loyalty_status(20), "Shaky");
    assert_eq!(loyalty_status(19), "Risky");
    assert_eq!(loyalty_status(0), "Risky");
}
