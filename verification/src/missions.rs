//! Missions: the progress of each mission the player has taken on, and
//! the tracker that keeps every mission id known once, as active,
//! completed or failed.
//!
//! A mission's definition holds its objectives, rewards and consequences;
//! the tracker only needs its id, its title and how many objectives it
//! has. Trust, reputation and influence changes and heat are in whole
//! points.

use vstd::prelude::*;

verus! {

/// Where a mission stands.
#[derive(Debug, Clone, Copy, PartialEq, Eq, Structural)]
pub enum MissionStatus {
    Inactive,
    Active,
    Completed,
    Failed,
}

/// A mission in play: which objective the player is on out of how many.
#[derive(Debug, Clone)]
pub struct Mission {
    pub id: String,
    pub title: String,
    pub status: MissionStatus,
    pub current_objective: usize,
    pub objective_count: usize,
}

impl Mission {
    /// A mission just taken on: active, at its first objective.
    pub fn from_def(id: &str, title: &str, objective_count: usize) -> (m: Mission)
        ensures
            m.id@ == id@,
            m.title@ == title@,
            m.status == MissionStatus::Active,
            m.current_objective == 0,
            m.objective_count == objective_count,
    {
        Mission {
            id: id.to_owned(),
            title: title.to_owned(),
            status: MissionStatus::Active,
            current_objective: 0,
            objective_count,
        }
    }

    /// Completed, or past its last objective.
    pub fn is_complete(&self) -> (b: bool)
        ensures
            b == (self.status == MissionStatus::Completed || self.current_objective
                >= self.objective_count),
    {
        self.status == MissionStatus::Completed || self.current_objective >= self.objective_count
    }

    /// The index of the objective the player is on, if any is left.
    pub fn current_objective(&self) -> (i: Option<usize>)
        ensures
            i == (if self.current_objective < self.objective_count {
                Some(self.current_objective)
            } else {
                None
            }),
    {
        if self.current_objective < self.objective_count {
            Some(self.current_objective)
        } else {
            None
        }
    }

    /// Moves an active mission to its next objective; past the last one
    /// the mission is completed. Other missions do not move.
    pub fn advance(&mut self)
        requires
            old(self).status == MissionStatus::Active ==> old(self).current_objective < usize::MAX,
        ensures
            final(self).id == old(self).id,
            final(self).title == old(self).title,
            final(self).objective_count == old(self).objective_count,
            (final(self).status, final(self).current_objective as nat) == advance_step(
                old(self).status,
                old(self).current_objective as nat,
                old(self).objective_count as nat,
            ),
    {
        if self.status == MissionStatus::Active {
            self.current_objective = self.current_objective + 1;
            if self.current_objective >= self.objective_count {
                self.status = MissionStatus::Completed;
            }
        }
    }

    pub fn fail(&mut self)
        ensures
            final(self).status == MissionStatus::Failed,
            final(self).id == old(self).id,
            final(self).title == old(self).title,
            final(self).current_objective == old(self).current_objective,
            final(self).objective_count == old(self).objective_count,
    {
        self.status = MissionStatus::Failed;
    }
}

/// Every mission taken on, and the ids of those completed and failed.
#[derive(Debug, Clone)]
pub struct MissionTracker {
    pub missions: Vec<Mission>,
    pub completed: Vec<String>,
    pub failed: Vec<String>,
}

/// Some mission of `ms` has this id.
pub open spec fn has_mission(ms: Seq<Mission>, id: Seq<char>) -> bool {
    exists|i: int| 0 <= i < ms.len() && (#[trigger] ms[i]).id@ == id
}

/// Some string of `ids` is this id.
pub open spec fn has_id(ids: Seq<String>, id: Seq<char>) -> bool {
    exists|i: int| 0 <= i < ids.len() && (#[trigger] ids[i])@ == id
}

/// The tracker has seen this mission id: in play, completed or failed.
pub open spec fn known(t: MissionTracker, id: Seq<char>) -> bool {
    has_mission(t.missions@, id) || has_id(t.completed@, id) || has_id(t.failed@, id)
}

/// The indices of the active missions of `ms`, in order.
pub open spec fn active_indices(ms: Seq<Mission>) -> Seq<usize>
    decreases ms.len(),
{
    if ms.len() == 0 {
        Seq::empty()
    } else if ms.last().status == MissionStatus::Active {
        active_indices(ms.drop_last()).push((ms.len() - 1) as usize)
    } else {
        active_indices(ms.drop_last())
    }
}

fn contains_mission(ms: &Vec<Mission>, id: &String) -> (b: bool)
    ensures
        b == has_mission(ms@, id@),
{
    let mut i: usize = 0;
    while i < ms.len()
        invariant
            0 <= i <= ms.len(),
            forall|j: int| 0 <= j < i ==> (#[trigger] ms@[j]).id@ != id@,
        decreases ms.len() - i,
    {
        if ms[i].id == *id {
            return true;
        }
        i = i + 1;
    }
    false
}

fn contains_id(ids: &Vec<String>, id: &String) -> (b: bool)
    ensures
        b == has_id(ids@, id@),
{
    let mut i: usize = 0;
    while i < ids.len()
        invariant
            0 <= i <= ids.len(),
            forall|j: int| 0 <= j < i ==> (#[trigger] ids@[j])@ != id@,
        decreases ids.len() - i,
    {
        if ids[i] == *id {
            return true;
        }
        i = i + 1;
    }
    false
}

impl Default for MissionTracker {
    fn default() -> (t: MissionTracker)
        ensures
            t.missions@.len() == 0,
            t.completed@.len() == 0,
            t.failed@.len() == 0,
    {
        MissionTracker::new()
    }
}

impl MissionTracker {
    pub fn new() -> (t: MissionTracker)
        ensures
            t.missions@.len() == 0,
            t.completed@.len() == 0,
            t.failed@.len() == 0,
    {
        MissionTracker { missions: Vec::new(), completed: Vec::new(), failed: Vec::new() }
    }

    /// Whether the tracker has seen this mission id.
    pub fn is_known(&self, id: &str) -> (b: bool)
        ensures
            b == known(*self, id@),
    {
        let key: String = id.to_owned();
        contains_mission(&self.missions, &key) || contains_id(&self.completed, &key) || contains_id(
            &self.failed,
            &key,
        )
    }

    /// Takes a mission on, unless its id is already known.
    pub fn start(&mut self, mission: Mission)
        ensures
            known(*old(self), mission.id@) ==> *final(self) == *old(self),
            !known(*old(self), mission.id@) ==> final(self).missions@ == old(self).missions@.push(
                mission,
            ),
            final(self).completed == old(self).completed,
            final(self).failed == old(self).failed,
    {
        if self.is_known(&mission.id) {
            return;
        }
        self.missions.push(mission);
    }

    /// The indices of the active missions, in order.
    pub fn active(&self) -> (r: Vec<usize>)
        ensures
            r@ == active_indices(self.missions@),
    {
        let mut r: Vec<usize> = Vec::new();
        let mut i: usize = 0;
        while i < self.missions.len()
            invariant
                0 <= i <= self.missions@.len(),
                r@ == active_indices(self.missions@.take(i as int)),
            decreases self.missions@.len() - i,
        {
            proof {
                assert(self.missions@.take(i as int + 1).drop_last() =~= self.missions@.take(
                    i as int,
                ));
            }
            if self.missions[i].status == MissionStatus::Active {
                r.push(i);
            }
            i = i + 1;
        }
        proof {
            assert(self.missions@.take(i as int) =~= self.missions@);
        }
        r
    }

    /// Marks the mission at `idx` completed and records its id; does
    /// nothing when there is no such mission.
    pub fn complete(&mut self, idx: usize)
        ensures
            idx < old(self).missions@.len() ==> {
                &&& final(self).missions@ == old(self).missions@.update(
                    idx as int,
                    Mission { status: MissionStatus::Completed, ..old(self).missions@[idx as int] },
                )
                &&& final(self).completed@.len() == old(self).completed@.len() + 1
                &&& final(self).completed@.drop_last() == old(self).completed@
                &&& final(self).completed@.last()@ == old(self).missions@[idx as int].id@
            },
            idx >= old(self).missions@.len() ==> *final(self) == *old(self),
            final(self).failed == old(self).failed,
    {
        if idx < self.missions.len() {
            let id = self.missions[idx].id.clone();
            let mut m = self.missions.remove(idx);
            m.status = MissionStatus::Completed;
            self.missions.insert(idx, m);
            let ghost before = self.completed@;
            self.completed.push(id);
            assert(self.completed@.drop_last() =~= before);
        }
    }

    /// Marks the mission at `idx` failed and records its id; does nothing
    /// when there is no such mission.
    pub fn fail(&mut self, idx: usize)
        ensures
            idx < old(self).missions@.len() ==> {
                &&& final(self).missions@ == old(self).missions@.update(
                    idx as int,
                    Mission { status: MissionStatus::Failed, ..old(self).missions@[idx as int] },
                )
                &&& final(self).failed@.len() == old(self).failed@.len() + 1
                &&& final(self).failed@.drop_last() == old(self).failed@
                &&& final(self).failed@.last()@ == old(self).missions@[idx as int].id@
            },
            idx >= old(self).missions@.len() ==> *final(self) == *old(self),
            final(self).completed == old(self).completed,
    {
        if idx < self.missions.len() {
            let id = self.missions[idx].id.clone();
            let mut m = self.missions.remove(idx);
            m.status = MissionStatus::Failed;
            self.missions.insert(idx, m);
            let ghost before = self.failed@;
            self.failed.push(id);
            assert(self.failed@.drop_last() =~= before);
        }
    }

    /// The index of the first active mission with this id.
    pub fn active_index(&self, id: &str) -> (r: Option<usize>)
        ensures
            r is None ==> forall|i: int|
                0 <= i < self.missions@.len() ==> !((#[trigger] self.missions@[i]).id@ == id@
                    && self.missions@[i].status == MissionStatus::Active),
            r matches Some(i) ==> {
                &&& i < self.missions@.len()
                &&& self.missions@[i as int].id@ == id@
                &&& self.missions@[i as int].status == MissionStatus::Active
                &&& forall|j: int|
                    0 <= j < i ==> !((#[trigger] self.missions@[j]).id@ == id@
                        && self.missions@[j].status == MissionStatus::Active)
            },
    {
        let key: String = id.to_owned();
        let mut i: usize = 0;
        while i < self.missions.len()
            invariant
                0 <= i <= self.missions@.len(),
                key@ == id@,
                forall|j: int|
                    0 <= j < i ==> !((#[trigger] self.missions@[j]).id@ == id@
                        && self.missions@[j].status == MissionStatus::Active),
            decreases self.missions@.len() - i,
        {
            if self.missions[i].id == key && self.missions[i].status == MissionStatus::Active {
                return Some(i);
            }
            i = i + 1;
        }
        None
    }
}

/// No two missions in play share an id.
pub open spec fn ids_distinct(ms: Seq<Mission>) -> bool {
    forall|i: int, j: int| 0 <= i < j < ms.len() ==> (#[trigger] ms[i]).id@ != (#[trigger] ms[j]).id@
}

/// The tracker as `start` leaves it: unchanged when the id was known,
/// otherwise with the mission appended.
pub open spec fn start_result(before: MissionTracker, after: MissionTracker, m: Mission) -> bool {
    &&& known(before, m.id@) ==> after == before
    &&& !known(before, m.id@) ==> after.missions@ == before.missions@.push(m)
    &&& after.completed == before.completed
    &&& after.failed == before.failed
}

/// After `start`, the mission's id is known; starting it again therefore
/// changes nothing.
pub proof fn lemma_start_makes_known(before: MissionTracker, after: MissionTracker, m: Mission)
    requires
        start_result(before, after, m),
    ensures
        known(after, m.id@),
{
    if !known(before, m.id@) {
        assert(after.missions@[before.missions@.len() as int] == m);
    }
}

/// `start` never lets two missions in play share an id.
pub proof fn lemma_start_keeps_ids_distinct(before: MissionTracker, after: MissionTracker, m: Mission)
    requires
        ids_distinct(before.missions@),
        start_result(before, after, m),
    ensures
        ids_distinct(after.missions@),
{
    if !known(before, m.id@) {
        let ms = after.missions@;
        assert forall|i: int, j: int| 0 <= i < j < ms.len() implies (#[trigger] ms[i]).id@
            != (#[trigger] ms[j]).id@ by {
            if j == before.missions@.len() {
                assert(ms[i] == before.missions@[i]);
            } else {
                assert(ms[i] == before.missions@[i]);
                assert(ms[j] == before.missions@[j]);
            }
        }
    }
}

/// Completing or failing a mission keeps the ids in play as they were.
pub proof fn lemma_status_change_keeps_ids_distinct(ms: Seq<Mission>, idx: int, status: MissionStatus)
    requires
        ids_distinct(ms),
        0 <= idx < ms.len(),
    ensures
        ids_distinct(ms.update(idx, Mission { status: status, ..ms[idx] })),
{
    let after = ms.update(idx, Mission { status: status, ..ms[idx] });
    assert forall|i: int, j: int| 0 <= i < j < after.len() implies (#[trigger] after[i]).id@
        != (#[trigger] after[j]).id@ by {
        assert(after[i].id == ms[i].id);
        assert(after[j].id == ms[j].id);
    }
}

/// Status and objective index after one `advance`.
pub open spec fn advance_step(status: MissionStatus, current: nat, count: nat) -> (MissionStatus, nat) {
    if status == MissionStatus::Active {
        (if current + 1 >= count { MissionStatus::Completed } else { MissionStatus::Active }, current + 1)
    } else {
        (status, current)
    }
}

/// Status and objective index after `k` calls of `advance` from a fresh
/// mission.
pub open spec fn advanced(count: nat, k: nat) -> (MissionStatus, nat)
    decreases k,
{
    if k == 0 {
        (MissionStatus::Active, 0)
    } else {
        let prev = advanced(count, (k - 1) as nat);
        advance_step(prev.0, prev.1, count)
    }
}

/// A fresh mission with `count >= 1` objectives stays active through its
/// first `count - 1` advances and is completed by the `count`-th.
pub proof fn lemma_advance_completes_at_last_objective(count: nat, k: nat)
    requires
        count >= 1,
        k <= count,
    ensures
        advanced(count, k) == (if k == count { (MissionStatus::Completed, k) } else {
            (MissionStatus::Active, k)
        }),
    decreases k,
{
    if k > 0 {
        lemma_advance_completes_at_last_objective(count, (k - 1) as nat);
    }
}

/// What a mission asks the player to do next.
#[derive(Debug, Clone)]
pub enum Objective {
    GoToZone { zone: String },
    StealVehicle { def_id: String },
    DeliverItem { item_id: String, count: u32, zone: String },
    KillOrNeutralize { target: String },
    TalkTo { npc_id: String },
    EscapePolice { heat_max: u8 },
    SurviveTime { seconds: u32 },
}

/// What completing a mission gives.
#[derive(Debug, Clone)]
pub enum Reward {
    Cash { amount: u32, clean: bool },
    Item { item_id: String, count: u32 },
    FactionTrust { faction: String, delta: i32 },
    StreetRep { delta: i32 },
    Influence { zone: String, faction: String, delta: i32 },
}

/// What a mission costs the player.
#[derive(Debug, Clone)]
pub enum Consequence {
    FactionTrust { faction: String, delta: i32 },
    StreetRep { delta: i32 },
    Heat { points: u32 },
}

/// A mission's definition: who gives it and how much trust it takes, its
/// objectives in order, and its rewards and consequences.
#[derive(Debug, Clone)]
pub struct MissionDef {
    pub id: String,
    pub title: String,
    pub description: String,
    pub giver_faction: String,
    pub required_trust: i32,
    pub objectives: Vec<Objective>,
    pub rewards: Vec<Reward>,
    pub consequences: Vec<Consequence>,
}

impl MissionDef {
    /// The mission in play, at its first objective.
    pub fn to_mission(&self) -> (m: Mission)
        ensures
            m.id@ == self.id@,
            m.title@ == self.title@,
            m.status == MissionStatus::Active,
            m.current_objective == 0,
            m.objective_count == self.objectives@.len(),
    {
        Mission::from_def(self.id.as_str(), self.title.as_str(), self.objectives.len())
    }
}

/// The city's two missions. "Wrong Car, Wrong Block" from the Southline
/// Kings (trust -20 needed): go to the East Blocks, steal the lowrider,
/// bring it back; pays 500 in cash and 10 Kings trust, costs 15 Los Cuervos
/// trust. "Dead Drop" from the Harbor Cartel (trust -10 needed): talk to the
/// cartel contact, deliver one package in the industrial zone, get the heat
/// down to level 1; pays 300 in cash and 20 rounds of pistol ammo, costs 5
/// heat.
pub open spec fn is_default_missions(defs: Seq<MissionDef>) -> bool {
    let car = defs[0];
    let dead_drop = defs[1];
    &&& defs.len() == 2
    &&& car.id@ == "steal_rival_car"@
    &&& car.title@ == "Wrong Car, Wrong Block"@
    &&& car.description@ == "Stjæl en rival-bandes bil fra garagen og kør den tilbage."@
    &&& car.giver_faction@ == "southline_kings"@
    &&& car.required_trust == -20
    &&& car.objectives@.len() == 3
    &&& (car.objectives@[0] matches Objective::GoToZone { zone } && zone@ == "east_blocks"@)
    &&& (car.objectives@[1] matches Objective::StealVehicle { def_id } && def_id@ == "lowrider"@)
    &&& (car.objectives@[2] matches Objective::GoToZone { zone } && zone@ == "east_blocks"@)
    &&& car.rewards@.len() == 2
    &&& (car.rewards@[0] matches Reward::Cash { amount, clean } && amount == 500 && !clean)
    &&& (car.rewards@[1] matches Reward::FactionTrust { faction, delta } && faction@ == "southline_kings"@
        && delta == 10)
    &&& car.consequences@.len() == 1
    &&& (car.consequences@[0] matches Consequence::FactionTrust { faction, delta } && faction@
        == "los_cuervos"@ && delta == -15)
    &&& dead_drop.id@ == "deliver_package"@
    &&& dead_drop.title@ == "Dead Drop"@
    &&& dead_drop.description@ == "Aflever en pakke i den angivne zone uden at tiltrække politi."@
    &&& dead_drop.giver_faction@ == "harbor_cartel"@
    &&& dead_drop.required_trust == -10
    &&& dead_drop.objectives@.len() == 3
    &&& (dead_drop.objectives@[0] matches Objective::TalkTo { npc_id } && npc_id@ == "cartel_contact"@)
    &&& (dead_drop.objectives@[1] matches Objective::DeliverItem { item_id, count, zone } && item_id@ == "package"@
        && count == 1 && zone@ == "industrial_zone"@)
    &&& (dead_drop.objectives@[2] matches Objective::EscapePolice { heat_max } && heat_max == 1)
    &&& dead_drop.rewards@.len() == 2
    &&& (dead_drop.rewards@[0] matches Reward::Cash { amount, clean } && amount == 300 && !clean)
    &&& (dead_drop.rewards@[1] matches Reward::Item { item_id, count } && item_id@ == "pistol_ammo"@ && count == 20)
    &&& dead_drop.consequences@.len() == 1
    &&& (dead_drop.consequences@[0] matches Consequence::Heat { points } && points == 5)
}

/// The missions the city offers.
pub fn default_missions() -> (defs: Vec<MissionDef>)
    ensures
        is_default_missions(defs@),
{
    vec![
        MissionDef {
            id: "steal_rival_car".to_owned(),
            title: "Wrong Car, Wrong Block".to_owned(),
            description: "Stjæl en rival-bandes bil fra garagen og kør den tilbage.".to_owned(),
            giver_faction: "southline_kings".to_owned(),
            required_trust: -20,
            objectives: vec![
                Objective::GoToZone { zone: "east_blocks".to_owned() },
                Objective::StealVehicle { def_id: "lowrider".to_owned() },
                Objective::GoToZone { zone: "east_blocks".to_owned() },
            ],
            rewards: vec![
                Reward::Cash { amount: 500, clean: false },
                Reward::FactionTrust { faction: "southline_kings".to_owned(), delta: 10 },
            ],
            consequences: vec![Consequence::FactionTrust { faction: "los_cuervos".to_owned(), delta: -15 }],
        },
        MissionDef {
            id: "deliver_package".to_owned(),
            title: "Dead Drop".to_owned(),
            description: "Aflever en pakke i den angivne zone uden at tiltrække politi.".to_owned(),
            giver_faction: "harbor_cartel".to_owned(),
            required_trust: -10,
            objectives: vec![
                Objective::TalkTo { npc_id: "cartel_contact".to_owned() },
                Objective::DeliverItem {
                    item_id: "package".to_owned(),
                    count: 1,
                    zone: "industrial_zone".to_owned(),
                },
                Objective::EscapePolice { heat_max: 1 },
            ],
            rewards: vec![
                Reward::Cash { amount: 300, clean: false },
                Reward::Item { item_id: "pistol_ammo".to_owned(), count: 20 },
            ],
            consequences: vec![Consequence::Heat { points: 5 }],
        },
    ]
}

} // verus!
