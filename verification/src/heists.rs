//! Heists: approaches, escape routes, diversions, heist status and the
//! heists the city offers.

use crate::crew::CrewRole;
use vstd::prelude::*;

verus! {

/// Strategy for a heist.
#[derive(Debug, Clone, Copy, PartialEq, Eq, Structural, Hash)]
pub enum Approach {
    /// Fast and violent: lots of heat, little planning.
    Loud,
    /// More planning, less heat; needs stealth and lockpicks.
    Quiet,
    /// Relations, disguises, access and bribes; needs reputation.
    Social,
    /// Frame another faction: little personal heat, faction conflict.
    Dirty,
}

/// Display name of a `Approach`.
pub open spec fn approach_label(x: Approach) -> Seq<char> {
    match x {
        Approach::Loud => "Loud"@,
        Approach::Quiet => "Quiet"@,
        Approach::Social => "Social"@,
        Approach::Dirty => "Dirty"@,
    }
}

impl Approach {
    pub fn label(&self) -> (s: &'static str)
        ensures
            s@ == approach_label(*self),
    {
        match self {
            Approach::Loud => "Loud",
            Approach::Quiet => "Quiet",
            Approach::Social => "Social",
            Approach::Dirty => "Dirty",
        }
    }
}
/// The crew role an approach calls for.
pub open spec fn preferred_role_of(a: Approach) -> Option<CrewRole> {
    match a {
        Approach::Loud => Some(CrewRole::Gunman),
        Approach::Quiet => Some(CrewRole::Infiltrator),
        Approach::Social => Some(CrewRole::Fixer),
        Approach::Dirty => Some(CrewRole::Fixer),
    }
}

impl Approach {
    /// The crew role the approach calls for.
    pub fn preferred_role(&self) -> (r: Option<CrewRole>)
        ensures
            r == preferred_role_of(*self),
    {
        match self {
            Approach::Loud => Some(CrewRole::Gunman),
            Approach::Quiet => Some(CrewRole::Infiltrator),
            Approach::Social => Some(CrewRole::Fixer),
            Approach::Dirty => Some(CrewRole::Fixer),
        }
    }
}

/// How the player gets away after a heist.
#[derive(Debug, Clone, Copy, PartialEq, Eq, Structural, Hash)]
pub enum EscapeRoute {
    Direct,
    BackAlleys,
    Safehouse,
    SwitchCar,
    Tunnel,
    Rooftop,
}

/// Display name of a `EscapeRoute`.
pub open spec fn escape_route_label(x: EscapeRoute) -> Seq<char> {
    match x {
        EscapeRoute::Direct => "Direct"@,
        EscapeRoute::BackAlleys => "Back Alleys"@,
        EscapeRoute::Safehouse => "Safehouse"@,
        EscapeRoute::SwitchCar => "Switch Car"@,
        EscapeRoute::Tunnel => "Tunnel"@,
        EscapeRoute::Rooftop => "Rooftop"@,
    }
}

impl EscapeRoute {
    pub fn label(&self) -> (s: &'static str)
        ensures
            s@ == escape_route_label(*self),
    {
        match self {
            EscapeRoute::Direct => "Direct",
            EscapeRoute::BackAlleys => "Back Alleys",
            EscapeRoute::Safehouse => "Safehouse",
            EscapeRoute::SwitchCar => "Switch Car",
            EscapeRoute::Tunnel => "Tunnel",
            EscapeRoute::Rooftop => "Rooftop",
        }
    }
}
/// A way to distract the police during a heist.
#[derive(Debug, Clone, Copy, PartialEq, Eq, Structural, Hash)]
pub enum Diversion {
    NoDiversion,
    FakeCall,
    FireAlarm,
    DecoyCar,
    GangSkirmish,
    Explosive,
}

/// Display name of a `Diversion`.
pub open spec fn diversion_label(x: Diversion) -> Seq<char> {
    match x {
        Diversion::NoDiversion => "None"@,
        Diversion::FakeCall => "Fake Call"@,
        Diversion::FireAlarm => "Fire Alarm"@,
        Diversion::DecoyCar => "Decoy Car"@,
        Diversion::GangSkirmish => "Gang Skirmish"@,
        Diversion::Explosive => "Explosive"@,
    }
}

impl Diversion {
    pub fn label(&self) -> (s: &'static str)
        ensures
            s@ == diversion_label(*self),
    {
        match self {
            Diversion::NoDiversion => "None",
            Diversion::FakeCall => "Fake Call",
            Diversion::FireAlarm => "Fire Alarm",
            Diversion::DecoyCar => "Decoy Car",
            Diversion::GangSkirmish => "Gang Skirmish",
            Diversion::Explosive => "Explosive",
        }
    }
}
/// What a diversion costs.
pub open spec fn diversion_cost_of(d: Diversion) -> u32 {
    match d {
        Diversion::NoDiversion => 0,
        Diversion::FakeCall => 100,
        Diversion::FireAlarm => 50,
        Diversion::DecoyCar => 500,
        Diversion::GangSkirmish => 1_000,
        Diversion::Explosive => 2_000,
    }
}

impl Diversion {
    /// What the diversion costs.
    pub fn cost(&self) -> (c: u32)
        ensures
            c == diversion_cost_of(*self),
    {
        match self {
            Diversion::NoDiversion => 0,
            Diversion::FakeCall => 100,
            Diversion::FireAlarm => 50,
            Diversion::DecoyCar => 500,
            Diversion::GangSkirmish => 1_000,
            Diversion::Explosive => 2_000,
        }
    }
}

/// Where a heist stands.
#[derive(Debug, Clone, Copy, PartialEq, Eq, Structural)]
pub enum HeistStatus {
    Planned,
    InProgress,
    Success,
    Failed,
    Aborted,
}

/// Which heists can be pulled, which one is running, and which were
/// pulled off; heists are known by their definition ids. Only one heist
/// runs at a time.
#[derive(Debug, Clone)]
pub struct HeistManager {
    pub available: Vec<String>,
    pub active: Option<String>,
    pub completed: Vec<String>,
}

/// Some string of `ids` is this id.
pub open spec fn lists(ids: Seq<String>, id: Seq<char>) -> bool {
    exists|i: int| 0 <= i < ids.len() && (#[trigger] ids[i])@ == id
}

impl Default for HeistManager {
    fn default() -> (m: HeistManager)
        ensures
            m.available@.len() == 0,
            m.active is None,
            m.completed@.len() == 0,
    {
        HeistManager::new()
    }
}

impl HeistManager {
    pub fn new() -> (m: HeistManager)
        ensures
            m.available@.len() == 0,
            m.active is None,
            m.completed@.len() == 0,
    {
        HeistManager { available: Vec::new(), active: None, completed: Vec::new() }
    }

    /// Makes a heist available.
    pub fn add_available(&mut self, def_id: String)
        ensures
            final(self).available@ == old(self).available@.push(def_id),
            final(self).active == old(self).active,
            final(self).completed == old(self).completed,
    {
        self.available.push(def_id);
    }

    /// Starts the heist `def_id`. Refused (`false`, nothing changes) while
    /// another heist runs or when no such heist is available.
    pub fn start(&mut self, def_id: &str) -> (started: bool)
        ensures
            started == (old(self).active is None && lists(old(self).available@, def_id@)),
            started ==> (final(self).active matches Some(id) && id@ == def_id@),
            !started ==> final(self).active == old(self).active,
            final(self).available == old(self).available,
            final(self).completed == old(self).completed,
    {
        if self.active.is_some() {
            return false;
        }
        let key: String = def_id.to_owned();
        let mut i: usize = 0;
        while i < self.available.len()
            invariant
                0 <= i <= self.available@.len(),
                key@ == def_id@,
                self.active is None,
                old(self).active is None,
                self.available == old(self).available,
                self.completed == old(self).completed,
                forall|j: int| 0 <= j < i ==> (#[trigger] self.available@[j])@ != def_id@,
            decreases self.available@.len() - i,
        {
            if self.available[i] == key {
                assert(self.available@[i as int]@ == def_id@);
                self.active = Some(key);
                return true;
            }
            i = i + 1;
        }
        false
    }

    /// Ends the running heist as pulled off: its id joins `completed` and
    /// is returned. `None`, with nothing changed, when no heist runs.
    pub fn finish(&mut self) -> (done: Option<String>)
        ensures
            done == old(self).active,
            final(self).active is None,
            final(self).available == old(self).available,
            old(self).active matches Some(id) ==> final(self).completed@ == old(
                self,
            ).completed@.push(id),
            old(self).active is None ==> final(self).completed == old(self).completed,
    {
        match self.active.take() {
            Some(id) => {
                self.completed.push(id.clone());
                Some(id)
            },
            None => None,
        }
    }

    /// Calls off the running heist and returns its id; `completed` is
    /// unchanged. `None` when no heist runs.
    pub fn abort(&mut self) -> (aborted: Option<String>)
        ensures
            aborted == old(self).active,
            final(self).active is None,
            final(self).available == old(self).available,
            final(self).completed == old(self).completed,
    {
        self.active.take()
    }
}

/// A heist started and then aborted leaves the manager with no heist
/// running and nothing recorded as completed.
pub proof fn lemma_start_then_abort(
    m0: HeistManager,
    m1: HeistManager,
    m2: HeistManager,
    id: Seq<char>,
    aborted: Option<String>,
)
    requires
        m0.active is None,
        lists(m0.available@, id),
        (m1.active matches Some(a) && a@ == id),
        m1.available == m0.available,
        m1.completed == m0.completed,
        aborted == m1.active,
        m2.active is None,
        m2.available == m1.available,
        m2.completed == m1.completed,
    ensures
        m2.active is None,
        m2.available == m0.available,
        m2.completed == m0.completed,
        (aborted matches Some(a) && a@ == id),
{
}

/// Heat the approach draws when carried out.
pub open spec fn base_heat_of(k: Approach) -> u32 {
    match k {
        Approach::Loud => 40,
        Approach::Quiet => 10,
        Approach::Social => 5,
        Approach::Dirty => 15,
    }
}

impl Approach {
    /// Heat the approach draws when carried out.
    pub fn base_heat(&self) -> (v: u32)
        ensures
            v == base_heat_of(*self),
    {
        match self {
            Approach::Loud => 40,
            Approach::Quiet => 10,
            Approach::Social => 5,
            Approach::Dirty => 15,
        }
    }
}

/// Evidence the approach typically leaves behind.
pub open spec fn evidence_weight_of(k: Approach) -> u32 {
    match k {
        Approach::Loud => 30,
        Approach::Quiet => 8,
        Approach::Social => 3,
        Approach::Dirty => 12,
    }
}

impl Approach {
    /// Evidence the approach typically leaves behind.
    pub fn evidence_weight(&self) -> (v: u32)
        ensures
            v == evidence_weight_of(*self),
    {
        match self {
            Approach::Loud => 30,
            Approach::Quiet => 8,
            Approach::Social => 3,
            Approach::Dirty => 12,
        }
    }
}

/// Heat shed by getting away this way (more is a better escape).
pub open spec fn escape_heat_reduction_of(k: EscapeRoute) -> u32 {
    match k {
        EscapeRoute::Direct => 2,
        EscapeRoute::BackAlleys => 6,
        EscapeRoute::Safehouse => 12,
        EscapeRoute::SwitchCar => 15,
        EscapeRoute::Tunnel => 10,
        EscapeRoute::Rooftop => 8,
    }
}

impl EscapeRoute {
    /// Heat shed by getting away this way (more is a better escape).
    pub fn heat_reduction(&self) -> (v: u32)
        ensures
            v == escape_heat_reduction_of(*self),
    {
        match self {
            EscapeRoute::Direct => 2,
            EscapeRoute::BackAlleys => 6,
            EscapeRoute::Safehouse => 12,
            EscapeRoute::SwitchCar => 15,
            EscapeRoute::Tunnel => 10,
            EscapeRoute::Rooftop => 8,
        }
    }
}

/// Heat the diversion draws away from the job.
pub open spec fn diversion_heat_reduction_of(k: Diversion) -> u32 {
    match k {
        Diversion::NoDiversion => 0,
        Diversion::FakeCall => 8,
        Diversion::FireAlarm => 5,
        Diversion::DecoyCar => 12,
        Diversion::GangSkirmish => 15,
        Diversion::Explosive => 20,
    }
}

impl Diversion {
    /// Heat the diversion draws away from the job.
    pub fn heat_reduction(&self) -> (v: u32)
        ensures
            v == diversion_heat_reduction_of(*self),
    {
        match self {
            Diversion::NoDiversion => 0,
            Diversion::FakeCall => 8,
            Diversion::FireAlarm => 5,
            Diversion::DecoyCar => 12,
            Diversion::GangSkirmish => 15,
            Diversion::Explosive => 20,
        }
    }
}

/// A heist's definition: where and against whom, the approaches it
/// allows, the crew it calls for, the loyalty a crew member needs not to
/// betray the job and the evidence a failure leaves (both in whole points),
/// the rewards, and the faction that gains when another is framed.
#[derive(Debug, Clone)]
pub struct HeistDef {
    pub id: String,
    pub title: String,
    pub description: String,
    pub zone: String,
    pub approaches: Vec<Approach>,
    pub recommended_crew: u32,
    pub min_loyalty: u32,
    pub reward_cash: u32,
    pub reward_clean: u32,
    pub evidence_on_fail: u32,
    pub target_faction: String,
    pub beneficiary_faction: Option<String>,
}

/// The text of an optional string.
pub open spec fn opt_text(o: Option<String>) -> Option<Seq<char>> {
    match o {
        Some(s) => Some(s@),
        None => None,
    }
}

/// `d` is the heist with these texts, approaches, numbers and factions.
pub open spec fn is_heist(
    d: HeistDef,
    id: Seq<char>,
    title: Seq<char>,
    description: Seq<char>,
    zone: Seq<char>,
    approaches: Seq<Approach>,
    numbers: (u32, u32, u32, u32, u32),
    target: Seq<char>,
    beneficiary: Option<Seq<char>>,
) -> bool {
    &&& d.id@ == id
    &&& d.title@ == title
    &&& d.description@ == description
    &&& d.zone@ == zone
    &&& d.approaches@ == approaches
    &&& (d.recommended_crew, d.min_loyalty, d.reward_cash, d.reward_clean, d.evidence_on_fail) == numbers
    &&& d.target_faction@ == target
    &&& opt_text(d.beneficiary_faction) == beneficiary
}

/// The city's three heists; their numbers are (crew, loyalty floor, cash
/// reward, clean reward, evidence on failure). The armored van in downtown
/// against the police, any approach; the container from the harbour against
/// the Harbor Cartel, to the Southline Kings' gain; the Downtown Bank against
/// the police, not by framing anyone.
pub open spec fn is_default_heists(defs: Seq<HeistDef>) -> bool {
    &&& defs.len() == 3
    &&& is_heist(
        defs[0],
        "armored_van"@,
        "Armored Van Heist"@,
        "Ram en pansret værditransport. Kan gøres loud eller via insider-rute."@,
        "downtown"@,
        seq![Approach::Loud, Approach::Quiet, Approach::Social, Approach::Dirty],
        (3u32, 40u32, 25_000u32, 0u32, 40u32),
        "police"@,
        None,
    )
    &&& is_heist(
        defs[1],
        "container_heist"@,
        "Container Heist"@,
        "Stjæl en container fra havnen med ukendt indhold."@,
        "industrial_zone"@,
        seq![Approach::Quiet, Approach::Loud, Approach::Dirty],
        (2u32, 30u32, 15_000u32, 0u32, 25u32),
        "harbor_cartel"@,
        Some("southline_kings"@),
    )
    &&& is_heist(
        defs[2],
        "bank_job"@,
        "Bank Job"@,
        "Ran Downtown Bank. Høj reward, høj risiko, kræver planlægning."@,
        "downtown"@,
        seq![Approach::Loud, Approach::Quiet, Approach::Social],
        (4u32, 60u32, 100_000u32, 5_000u32, 60u32),
        "police"@,
        None,
    )
}

/// The heists the city offers.
pub fn default_heists() -> (defs: Vec<HeistDef>)
    ensures
        is_default_heists(defs@),
{
    let defs = vec![
        HeistDef {
            id: "armored_van".to_owned(),
            title: "Armored Van Heist".to_owned(),
            description: "Ram en pansret værditransport. Kan gøres loud eller via insider-rute.".to_owned(),
            zone: "downtown".to_owned(),
            approaches: vec![Approach::Loud, Approach::Quiet, Approach::Social, Approach::Dirty],
            recommended_crew: 3,
            min_loyalty: 40,
            reward_cash: 25_000,
            reward_clean: 0,
            evidence_on_fail: 40,
            target_faction: "police".to_owned(),
            beneficiary_faction: None,
        },
        HeistDef {
            id: "container_heist".to_owned(),
            title: "Container Heist".to_owned(),
            description: "Stjæl en container fra havnen med ukendt indhold.".to_owned(),
            zone: "industrial_zone".to_owned(),
            approaches: vec![Approach::Quiet, Approach::Loud, Approach::Dirty],
            recommended_crew: 2,
            min_loyalty: 30,
            reward_cash: 15_000,
            reward_clean: 0,
            evidence_on_fail: 25,
            target_faction: "harbor_cartel".to_owned(),
            beneficiary_faction: Some("southline_kings".to_owned()),
        },
        HeistDef {
            id: "bank_job".to_owned(),
            title: "Bank Job".to_owned(),
            description: "Ran Downtown Bank. Høj reward, høj risiko, kræver planlægning.".to_owned(),
            zone: "downtown".to_owned(),
            approaches: vec![Approach::Loud, Approach::Quiet, Approach::Social],
            recommended_crew: 4,
            min_loyalty: 60,
            reward_cash: 100_000,
            reward_clean: 5_000,
            evidence_on_fail: 60,
            target_faction: "police".to_owned(),
            beneficiary_faction: None,
        },
    ];
    proof {
        assert(defs@[0].approaches@ =~= seq![Approach::Loud, Approach::Quiet, Approach::Social, Approach::Dirty]);
        assert(defs@[1].approaches@ =~= seq![Approach::Quiet, Approach::Loud, Approach::Dirty]);
        assert(defs@[2].approaches@ =~= seq![Approach::Loud, Approach::Quiet, Approach::Social]);
    }
    defs
}

} // verus!
