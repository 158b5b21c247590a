use heat_city::dialog::{
    advance_dialog, demo_tree, ActiveDialog, DialogChoice, DialogCondition, DialogEffect, DialogNode, DialogTree,
};

#[test]
fn demo_dialog_offers_the_job() {
    let tree = demo_tree();
    assert_eq!(tree.start, "greet");
    let mut d = ActiveDialog::new(tree, "greet").unwrap();
    assert_eq!(d.current_node().speaker, "Lil' P");
    let c = d.pick(0).unwrap();
    assert_eq!(c.text, "Hvad er jobbet?");
    assert_eq!(d.current, "details");
    let c = d.pick(0).unwrap();
    assert!(c.next.is_none());
    assert_eq!(c.effects.len(), 1);
    match &c.effects[0] {
        DialogEffect::StartMission { mission_id } => assert_eq!(mission_id, "steal_rival_car"),
        other => panic!("unexpected effect {:?}", other),
    }
    // A choice that ends the dialog leaves the dialog where it was.
    assert_eq!(d.current, "details");
    assert!(d.pick(5).is_none());
}

#[test]
fn dialog_needs_its_start_node() {
    assert!(ActiveDialog::new(demo_tree(), "nowhere").is_none());
    assert!(ActiveDialog::new(DialogTree::new("greet"), "greet").is_none());
}

#[test]
fn adding_a_node_twice_replaces_it() {
    let mut tree = DialogTree::new("a");
    tree.add(DialogNode { id: "a".into(), speaker: "X".into(), text: "first".into(), choices: vec![] });
    tree.add(DialogNode { id: "a".into(), speaker: "X".into(), text: "second".into(), choices: vec![] });
    assert_eq!(tree.get("a").unwrap().text, "second");
    assert!(tree.get("b").is_none());
}

#[test]
fn advancing_walks_the_first_choices() {
    let mut active = ActiveDialog::new(demo_tree(), "greet");
    let effects = advance_dialog(&mut active);
    assert!(effects.is_empty());
    assert_eq!(active.as_ref().unwrap().current, "details");
    let effects = advance_dialog(&mut active);
    assert_eq!(effects.len(), 1);
    assert!(active.is_none());
    assert!(advance_dialog(&mut active).is_empty());
}

#[test]
fn a_node_without_choices_ends_the_dialog() {
    let mut tree = DialogTree::new("end");
    tree.add(DialogNode { id: "end".into(), speaker: "X".into(), text: "Bye.".into(), choices: vec![] });
    let mut active = ActiveDialog::new(tree, "end");
    assert!(advance_dialog(&mut active).is_empty());
    assert!(active.is_none());
    let choice = DialogChoice { text: "ok".into(), next: None, condition: None, effects: vec![] };
    assert_eq!(choice.clone().text, "ok");
}

#[test]
fn choices_keep_their_conditions() {
    let tree = demo_tree();
    let greet = tree.get("greet").unwrap();
    assert!(greet.choices.iter().all(|c| c.condition.is_none()));
    let choice = DialogChoice {
        text: "Deal".into(),
        next: Some("details".into()),
        condition: Some(DialogCondition::FactionTrustMin { faction: "southline_kings".into(), min_hundredths: 2550 }),
        effects: vec![DialogEffect::GiveCash { amount: 100, clean: false }],
    };
    let copy = choice.clone();
    match copy.condition {
        Some(DialogCondition::FactionTrustMin { faction, min_hundredths }) => {
            assert_eq!(faction, "southline_kings");
            assert_eq!(min_hundredths, 2550);
        }
        _ => panic!("condition lost"),
    }
}
