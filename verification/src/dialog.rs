//! Dialog: trees of nodes whose choices lead to other nodes and carry
//! effects on the game, and the dialog in progress.

use vstd::prelude::*;

verus! {

/// Effect of picking a dialog choice.
#[derive(Debug)]
pub enum DialogEffect {
    StartMission { mission_id: String },
    AdvanceMission { mission_id: String, objective_idx: usize },
    GiveItem { item_id: String, count: u32 },
    TakeItem { item_id: String, count: u32 },
    GiveCash { amount: u32, clean: bool },
    TakeCash { amount: u32, clean: bool },
    ReputationEvent { event_kind: String },
}

impl Clone for DialogEffect {
    fn clone(&self) -> (c: DialogEffect)
        ensures
            c == *self,
    {
        match self {
            DialogEffect::StartMission { mission_id } => DialogEffect::StartMission {
                mission_id: mission_id.clone(),
            },
            DialogEffect::AdvanceMission { mission_id, objective_idx } => DialogEffect::AdvanceMission {
                mission_id: mission_id.clone(),
                objective_idx: *objective_idx,
            },
            DialogEffect::GiveItem { item_id, count } => DialogEffect::GiveItem {
                item_id: item_id.clone(),
                count: *count,
            },
            DialogEffect::TakeItem { item_id, count } => DialogEffect::TakeItem {
                item_id: item_id.clone(),
                count: *count,
            },
            DialogEffect::GiveCash { amount, clean } => DialogEffect::GiveCash {
                amount: *amount,
                clean: *clean,
            },
            DialogEffect::TakeCash { amount, clean } => DialogEffect::TakeCash {
                amount: *amount,
                clean: *clean,
            },
            DialogEffect::ReputationEvent { event_kind } => DialogEffect::ReputationEvent {
                event_kind: event_kind.clone(),
            },
        }
    }
}

/// Condition for a choice to be offered. A faction trust threshold is held
/// in hundredths of a trust point.
#[derive(Debug)]
pub enum DialogCondition {
    HasItem { item_id: String },
    HasCash { amount: u32 },
    FactionTrustMin { faction: String, min_hundredths: i32 },
    MissionActive { mission_id: String },
    MissionCompleted { mission_id: String },
}

impl Clone for DialogCondition {
    fn clone(&self) -> (c: DialogCondition)
        ensures
            c == *self,
    {
        match self {
            DialogCondition::HasItem { item_id } => DialogCondition::HasItem { item_id: item_id.clone() },
            DialogCondition::HasCash { amount } => DialogCondition::HasCash { amount: *amount },
            DialogCondition::FactionTrustMin { faction, min_hundredths } => DialogCondition::FactionTrustMin {
                faction: faction.clone(),
                min_hundredths: *min_hundredths,
            },
            DialogCondition::MissionActive { mission_id } => DialogCondition::MissionActive {
                mission_id: mission_id.clone(),
            },
            DialogCondition::MissionCompleted { mission_id } => DialogCondition::MissionCompleted {
                mission_id: mission_id.clone(),
            },
        }
    }
}

/// A choice the player can pick: its text, the node it leads to (none ends
/// the dialog), the condition for offering it (none: always) and its
/// effects.
#[derive(Debug)]
pub struct DialogChoice {
    pub text: String,
    pub next: Option<String>,
    pub condition: Option<DialogCondition>,
    pub effects: Vec<DialogEffect>,
}

/// Two choices with the same text, next node, condition and effects.
pub open spec fn same_choice(a: DialogChoice, b: DialogChoice) -> bool {
    a.text == b.text && a.next == b.next && a.condition == b.condition && a.effects@ == b.effects@
}

impl Clone for DialogChoice {
    fn clone(&self) -> (c: DialogChoice)
        ensures
            same_choice(c, *self),
    {
        let next = match &self.next {
            Some(n) => Some(n.clone()),
            None => None,
        };
        let condition = match &self.condition {
            Some(c) => Some(c.clone()),
            None => None,
        };
        let effects = self.effects.clone();
        proof {
            assert forall|i: int| 0 <= i < effects@.len() implies effects@[i] == self.effects@[i] by {
                assert(cloned::<DialogEffect>(self.effects[i], effects[i]));
            }
            assert(effects@ =~= self.effects@);
        }
        DialogChoice { text: self.text.clone(), next, condition, effects }
    }
}

/// A node of a dialog: who speaks, what they say, and the choices.
#[derive(Debug)]
pub struct DialogNode {
    pub id: String,
    pub speaker: String,
    pub text: String,
    pub choices: Vec<DialogChoice>,
}

/// A dialog tree: its start node's id and its nodes by id. Adding a node
/// whose id is already present replaces that node.
#[derive(Debug)]
pub struct DialogTree {
    pub start: String,
    pub nodes: Vec<DialogNode>,
}

/// The nodes by id that a sequence of additions builds: later ones win.
pub open spec fn node_map(nodes: Seq<DialogNode>) -> Map<Seq<char>, DialogNode>
    decreases nodes.len(),
{
    if nodes.len() == 0 {
        Map::empty()
    } else {
        node_map(nodes.drop_last()).insert(nodes.last().id@, nodes.last())
    }
}

/// Nodes past `i` that do not have id `k` do not change what `k` maps to.
proof fn lemma_node_map_skip(nodes: Seq<DialogNode>, i: int, k: Seq<char>)
    requires
        0 <= i <= nodes.len(),
        forall|j: int| i <= j < nodes.len() ==> (#[trigger] nodes[j]).id@ != k,
    ensures
        node_map(nodes).contains_key(k) == node_map(nodes.take(i)).contains_key(k),
        node_map(nodes).contains_key(k) ==> node_map(nodes)[k] == node_map(nodes.take(i))[k],
    decreases nodes.len() - i,
{
    if i == nodes.len() {
        assert(nodes.take(i) =~= nodes);
    } else {
        let rest = nodes.drop_last();
        assert forall|j: int| i <= j < rest.len() implies (#[trigger] rest[j]).id@ != k by {
            assert(rest[j] == nodes[j]);
        }
        lemma_node_map_skip(rest, i, k);
        assert(rest.take(i) =~= nodes.take(i));
    }
}

impl View for DialogTree {
    type V = Map<Seq<char>, DialogNode>;

    /// The nodes by id.
    open spec fn view(&self) -> Map<Seq<char>, DialogNode> {
        node_map(self.nodes@)
    }
}

impl DialogTree {
    /// A tree with no nodes yet that will start at `start`.
    pub fn new(start: &str) -> (t: DialogTree)
        ensures
            t.start@ == start@,
            t@ == Map::<Seq<char>, DialogNode>::empty(),
    {
        DialogTree { start: start.to_owned(), nodes: Vec::new() }
    }

    /// Adds `node` under its id, replacing any node with that id.
    pub fn add(&mut self, node: DialogNode)
        ensures
            final(self).start == old(self).start,
            final(self)@ == old(self)@.insert(node.id@, node),
    {
        let ghost before = self.nodes@;
        self.nodes.push(node);
        assert(self.nodes@.drop_last() =~= before);
    }

    /// The node with id `id`.
    pub fn get(&self, id: &str) -> (r: Option<&DialogNode>)
        ensures
            r == (if self@.contains_key(id@) { Some(&self@[id@]) } else { None }),
    {
        let key: String = id.to_owned();
        let mut i: usize = self.nodes.len();
        while i > 0
            invariant
                0 <= i <= self.nodes@.len(),
                key@ == id@,
                forall|j: int| i <= j < self.nodes@.len() ==> (#[trigger] self.nodes@[j]).id@ != id@,
            decreases i,
        {
            i = i - 1;
            if self.nodes[i].id == key {
                proof {
                    let upto = self.nodes@.take(i as int + 1);
                    lemma_node_map_skip(self.nodes@, i as int + 1, id@);
                    assert(upto.drop_last() =~= self.nodes@.take(i as int));
                    assert(upto.last() == self.nodes@[i as int]);
                }
                return Some(&self.nodes[i]);
            }
        }
        proof {
            lemma_node_map_skip(self.nodes@, 0, id@);
        }
        None
    }
}

/// A dialog in progress: its tree and the id of the node it is at.
#[derive(Debug)]
pub struct ActiveDialog {
    pub tree: DialogTree,
    pub current: String,
}

impl ActiveDialog {
    /// Opens `tree` at node `start`; `None` when the tree has no such node.
    pub fn new(tree: DialogTree, start: &str) -> (d: Option<ActiveDialog>)
        ensures
            d is Some <==> tree@.contains_key(start@),
            d matches Some(a) ==> a.tree == tree && a.current@ == start@,
    {
        if tree.get(start).is_none() {
            return None;
        }
        Some(ActiveDialog { tree, current: start.to_owned() })
    }

    /// The node the dialog is at. A choice may lead to an id the tree does
    /// not hold; `requires` excludes reading the node then.
    pub fn current_node(&self) -> (n: &DialogNode)
        requires
            self.tree@.contains_key(self.current@),
        ensures
            *n == self.tree@[self.current@],
    {
        match self.tree.get(self.current.as_str()) {
            Some(n) => n,
            None => {
                proof {
                    assert(false);
                }
                self.tree.get(self.current.as_str()).unwrap()
            },
        }
    }

    /// Picks choice `choice_idx` of the current node: the dialog moves to the
    /// node it leads to (it stays put when the choice ends the dialog), and
    /// the choice is returned. `None`, with nothing changed, when the node
    /// has no such choice.
    pub fn pick(&mut self, choice_idx: usize) -> (r: Option<DialogChoice>)
        requires
            old(self).tree@.contains_key(old(self).current@),
        ensures
            final(self).tree == old(self).tree,
            choice_idx >= old(self).tree@[old(self).current@].choices@.len() ==> {
                &&& r is None
                &&& final(self).current == old(self).current
            },
            choice_idx < old(self).tree@[old(self).current@].choices@.len() ==> {
                let c = old(self).tree@[old(self).current@].choices@[choice_idx as int];
                &&& (r matches Some(rc) && same_choice(rc, c))
                &&& final(self).current@ == match c.next {
                    Some(n) => n@,
                    None => old(self).current@,
                }
            },
    {
        let node = self.current_node();
        if choice_idx >= node.choices.len() {
            return None;
        }
        let choice = node.choices[choice_idx].clone();
        match &choice.next {
            Some(n) => {
                self.current = n.clone();
            },
            None => {},
        }
        Some(choice)
    }
}


/// A choice with this text and next node, always offered, with no effects.
pub open spec fn plain_choice(c: DialogChoice, text: Seq<char>, next: Option<Seq<char>>) -> bool {
    &&& c.text@ == text
    &&& c.condition is None
    &&& match (c.next, next) {
        (Some(n), Some(m)) => n@ == m,
        (None, None) => true,
        _ => false,
    }
    &&& c.effects@.len() == 0
}

/// The demo conversation with Lil' P: at "greet" he offers a job ("What
/// is the job?" leads to "details", "Not now." ends it); at "details" he
/// explains it ("I'll do it." starts the mission `steal_rival_car`, "Too
/// risky." ends it).
pub open spec fn is_demo_tree(t: DialogTree) -> bool {
    let greet = t@["greet"@];
    let details = t@["details"@];
    &&& t.start@ == "greet"@
    &&& t@.dom() == set!["greet"@, "details"@]
    &&& greet.id@ == "greet"@
    &&& greet.speaker@ == "Lil' P"@
    &&& greet.text@ == "Yo, du ser ud som en der mangler arbejde. Jeg har et job til dig."@
    &&& greet.choices@.len() == 2
    &&& plain_choice(greet.choices@[0], "Hvad er jobbet?"@, Some("details"@))
    &&& plain_choice(greet.choices@[1], "Ikke lige nu."@, None)
    &&& details.id@ == "details"@
    &&& details.speaker@ == "Lil' P"@
    &&& details.text@ == "En rival-bandes bil holder ved den gamle garage. Stjæl den og bring den tilbage."@
    &&& details.choices@.len() == 2
    &&& details.choices@[0].text@ == "Jeg gør det."@
    &&& details.choices@[0].next is None
    &&& details.choices@[0].condition is None
    &&& details.choices@[0].effects@.len() == 1
    &&& (details.choices@[0].effects@[0] matches DialogEffect::StartMission { mission_id } && mission_id@
        == "steal_rival_car"@)
    &&& plain_choice(details.choices@[1], "For risikabelt."@, None)
}

/// The demo conversation with Lil' P.
pub fn demo_tree() -> (t: DialogTree)
    ensures
        is_demo_tree(t),
{
    let mut tree = DialogTree::new("greet");
    tree.add(
        DialogNode {
            id: "greet".to_owned(),
            speaker: "Lil' P".to_owned(),
            text: "Yo, du ser ud som en der mangler arbejde. Jeg har et job til dig.".to_owned(),
            choices: vec![
                DialogChoice {
                    text: "Hvad er jobbet?".to_owned(),
                    next: Some("details".to_owned()),
                    condition: None,
                    effects: vec![],
                },
                DialogChoice { text: "Ikke lige nu.".to_owned(), next: None, condition: None, effects: vec![] },
            ],
        },
    );
    tree.add(
        DialogNode {
            id: "details".to_owned(),
            speaker: "Lil' P".to_owned(),
            text: "En rival-bandes bil holder ved den gamle garage. Stjæl den og bring den tilbage.".to_owned(),
            choices: vec![
                DialogChoice {
                    text: "Jeg gør det.".to_owned(),
                    next: None,
                    condition: None,
                    effects: vec![DialogEffect::StartMission { mission_id: "steal_rival_car".to_owned() }],
                },
                DialogChoice { text: "For risikabelt.".to_owned(), next: None, condition: None, effects: vec![] },
            ],
        },
    );
    proof {
        reveal_strlit("greet");
        reveal_strlit("details");
        assert("greet"@[0] != "details"@[0]);
        assert(tree@.dom() =~= set!["greet"@, "details"@]);
    }
    tree
}


/// Every choice of every node leads to a node of the tree (or ends the
/// dialog), so a dialog walked through it never reaches a missing node.
pub open spec fn closed_tree(t: DialogTree) -> bool {
    forall|id: Seq<char>, i: int|
        #![trigger t@[id].choices@[i]]
        t@.contains_key(id) && 0 <= i < t@[id].choices@.len() ==> match t@[id].choices@[i].next {
            Some(n) => t@.contains_key(n@),
            None => true,
        }
}

/// The demo conversation never leads to a missing node.
pub proof fn lemma_demo_tree_closed(t: DialogTree)
    requires
        is_demo_tree(t),
    ensures
        closed_tree(t),
{
    assert forall|id: Seq<char>, i: int|
        #![trigger t@[id].choices@[i]]
        t@.contains_key(id) && 0 <= i < t@[id].choices@.len() implies match t@[id].choices@[i].next {
        Some(n) => t@.contains_key(n@),
        None => true,
    } by {
        assert(t@.dom().contains(id));
        if id == "greet"@ {
            if i == 0 {
                assert(t@.dom().contains("details"@));
            }
        }
    }
}

/// Moves a dialog one step by picking its first choice, and returns that
/// choice's effects. The dialog ends (becomes `None`) when its node has no
/// choices or the choice leads nowhere; nothing happens without a dialog.
pub fn advance_dialog(active: &mut Option<ActiveDialog>) -> (effects: Vec<DialogEffect>)
    requires
        *old(active) matches Some(d) ==> d.tree@.contains_key(d.current@),
    ensures
        *old(active) is None ==> (*final(active) is None && effects@.len() == 0),
        *old(active) matches Some(d) ==> {
            let node = d.tree@[d.current@];
            &&& node.choices@.len() == 0 ==> (*final(active) is None && effects@.len() == 0)
            &&& node.choices@.len() > 0 ==> {
                let c = node.choices@[0];
                &&& effects@ == c.effects@
                &&& match c.next {
                    None => *final(active) is None,
                    Some(n) => (*final(active) matches Some(a) && a.tree == d.tree && a.current@ == n@),
                }
            }
        },
{
    let has_choices = match active {
        Some(d) => d.current_node().choices.len() > 0,
        None => {
            return Vec::new();
        },
    };
    if !has_choices {
        *active = None;
        return Vec::new();
    }
    let mut d = active.take().unwrap();
    let picked = d.pick(0);
    match picked {
        Some(choice) => {
            if choice.next.is_some() {
                *active = Some(d);
            }
            choice.effects
        },
        None => {
            proof {
                assert(false);
            }
            Vec::new()
        },
    }
}

/// Walking a closed tree keeps the dialog on a node of the tree, so the
/// next step can read it.
pub proof fn lemma_advance_stays_in_tree(d: ActiveDialog, after: ActiveDialog, n: Seq<char>)
    requires
        closed_tree(d.tree),
        d.tree@.contains_key(d.current@),
        d.tree@[d.current@].choices@.len() > 0,
        d.tree@[d.current@].choices@[0].next matches Some(next) && next@ == n,
        after.tree == d.tree,
        after.current@ == n,
    ensures
        after.tree@.contains_key(after.current@),
{
    let c = d.tree@[d.current@].choices@[0];
    assert(c == d.tree@[d.current@].choices@[0]);
}

} // verus!
