//! Street events that happen on their own.

use crate::ids::{decimal_text, numbered};
use vstd::prelude::*;

verus! {

/// Kind of street event.
#[derive(Debug, Clone, Copy, PartialEq, Eq, Structural, Hash)]
pub enum EventKind {
    GangSkirmish,
    TrafficStop,
    AmbulanceRun,
    StoreRobbery,
    CarAccident,
    StreetRace,
    FootChase,
    RivalHunt,
    InformantChased,
    Demonstration,
    BuildingFire,
    MafiaFuneral,
    BikerConvoy,
    Blackout,
    StormWeather,
}

/// Display name of a `EventKind`.
pub open spec fn event_label(x: EventKind) -> Seq<char> {
    match x {
        EventKind::GangSkirmish => "Gang Skirmish"@,
        EventKind::TrafficStop => "Traffic Stop"@,
        EventKind::AmbulanceRun => "Ambulance Run"@,
        EventKind::StoreRobbery => "Store Robbery"@,
        EventKind::CarAccident => "Car Accident"@,
        EventKind::StreetRace => "Street Race"@,
        EventKind::FootChase => "Foot Chase"@,
        EventKind::RivalHunt => "Rival Hunt"@,
        EventKind::InformantChased => "Informant Chased"@,
        EventKind::Demonstration => "Demonstration"@,
        EventKind::BuildingFire => "Building Fire"@,
        EventKind::MafiaFuneral => "Mafia Funeral"@,
        EventKind::BikerConvoy => "Biker Convoy"@,
        EventKind::Blackout => "Blackout"@,
        EventKind::StormWeather => "Storm Weather"@,
    }
}

impl EventKind {
    pub fn label(&self) -> (s: &'static str)
        ensures
            s@ == event_label(*self),
    {
        match self {
            EventKind::GangSkirmish => "Gang Skirmish",
            EventKind::TrafficStop => "Traffic Stop",
            EventKind::AmbulanceRun => "Ambulance Run",
            EventKind::StoreRobbery => "Store Robbery",
            EventKind::CarAccident => "Car Accident",
            EventKind::StreetRace => "Street Race",
            EventKind::FootChase => "Foot Chase",
            EventKind::RivalHunt => "Rival Hunt",
            EventKind::InformantChased => "Informant Chased",
            EventKind::Demonstration => "Demonstration",
            EventKind::BuildingFire => "Building Fire",
            EventKind::MafiaFuneral => "Mafia Funeral",
            EventKind::BikerConvoy => "Biker Convoy",
            EventKind::Blackout => "Blackout",
            EventKind::StormWeather => "Storm Weather",
        }
    }
}
/// A street event under way: its id, kind, zone, and whether the player
/// has stepped in.
#[derive(Debug)]
pub struct WorldEvent {
    pub id: String,
    pub kind: EventKind,
    pub zone: String,
    pub intervened: bool,
}

impl WorldEvent {
    /// A fresh event the player has not stepped into.
    pub fn new(id: &str, kind: EventKind, zone: &str) -> (e: WorldEvent)
        ensures
            e.id@ == id@,
            e.kind == kind,
            e.zone@ == zone@,
            !e.intervened,
    {
        WorldEvent { id: id.to_owned(), kind, zone: zone.to_owned(), intervened: false }
    }
}

/// `k` is the first active event with this id.
pub open spec fn first_event(es: Seq<WorldEvent>, id: Seq<char>, k: int) -> bool {
    &&& 0 <= k < es.len()
    &&& es[k].id@ == id
    &&& forall|j: int| 0 <= j < k ==> es[j].id@ != id
}

/// Active events, how many were ever spawned, and the id counter.
#[derive(Debug)]
pub struct EventManager {
    pub active: Vec<WorldEvent>,
    pub total_spawned: u32,
    pub id_counter: u32,
}

impl Default for EventManager {
    fn default() -> (m: EventManager)
        ensures
            m.active@.len() == 0,
            m.total_spawned == 0,
            m.id_counter == 0,
    {
        EventManager { active: Vec::new(), total_spawned: 0, id_counter: 0 }
    }
}

impl EventManager {
    /// No events.
    pub fn new() -> (m: EventManager)
        ensures
            m.active@.len() == 0,
            m.total_spawned == 0,
            m.id_counter == 0,
    {
        EventManager { active: Vec::new(), total_spawned: 0, id_counter: 0 }
    }

    /// Starts an event with the next id ("event_1", "event_2", ...).
    pub fn spawn(&mut self, kind: EventKind, zone: &str) -> (e: &WorldEvent)
        requires
            old(self).id_counter < u32::MAX,
            old(self).total_spawned < u32::MAX,
        ensures
            final(self).id_counter == old(self).id_counter + 1,
            final(self).total_spawned == old(self).total_spawned + 1,
            final(self).active@.len() == old(self).active@.len() + 1,
            final(self).active@.drop_last() == old(self).active@,
            final(self).active@.last().id@ == "event_"@ + decimal_text(final(self).id_counter as nat),
            final(self).active@.last().kind == kind,
            final(self).active@.last().zone@ == zone@,
            !final(self).active@.last().intervened,
            *e == final(self).active@.last(),
    {
        self.id_counter = self.id_counter + 1;
        let id = numbered("event_", self.id_counter);
        self.active.push(WorldEvent::new(id.as_str(), kind, zone));
        self.total_spawned = self.total_spawned + 1;
        proof {
            assert(self.active@.drop_last() =~= old(self).active@);
        }
        let last = self.active.len() - 1;
        &self.active[last]
    }

    pub fn active_count(&self) -> (n: usize)
        ensures
            n == self.active@.len(),
    {
        self.active.len()
    }

    /// Marks the first event with this id as one the player stepped into.
    /// False when no active event has the id.
    pub fn intervene(&mut self, event_id: &str) -> (found: bool)
        ensures
            found == (exists|k: int| 0 <= k < old(self).active@.len() && old(self).active@[k].id@ == event_id@),
            !found ==> final(self).active@ == old(self).active@,
            forall|k: int| #[trigger] first_event(old(self).active@, event_id@, k) ==> final(self).active@
                == old(self).active@.update(k, (WorldEvent { intervened: true, ..old(self).active@[k] })),
            final(self).total_spawned == old(self).total_spawned,
            final(self).id_counter == old(self).id_counter,
    {
        let key: String = event_id.to_owned();
        let n = self.active.len();
        let mut i: usize = 0;
        while i < n
            invariant
                n == self.active@.len(),
                *self == *old(self),
                key@ == event_id@,
                0 <= i <= n,
                forall|j: int| 0 <= j < i ==> (#[trigger] self.active@[j]).id@ != event_id@,
            decreases n - i,
        {
            if self.active[i].id == key {
                self.active[i].intervened = true;
                proof {
                    assert forall|k: int| #[trigger] first_event(old(self).active@, event_id@, k) implies k == i as int by {
                        if k < i as int {} else if k > i as int {
                            assert(old(self).active@[i as int].id@ == event_id@);
                        }
                    }
                    assert(self.active@ =~= old(self).active@.update(i as int,
                        (WorldEvent { intervened: true, ..old(self).active@[i as int] })));
                }
                return true;
            }
            i = i + 1;
        }
        false
    }
}

/// Heat the player draws by stepping into the event.
pub open spec fn intervention_heat_of(k: EventKind) -> u32 {
    match k {
        EventKind::GangSkirmish => 10,
        EventKind::TrafficStop => 5,
        EventKind::AmbulanceRun => 2,
        EventKind::StoreRobbery => 8,
        EventKind::CarAccident => 3,
        EventKind::StreetRace => 15,
        EventKind::FootChase => 5,
        EventKind::RivalHunt => 20,
        EventKind::InformantChased => 12,
        EventKind::Demonstration => 8,
        EventKind::BuildingFire => 5,
        EventKind::MafiaFuneral => 10,
        EventKind::BikerConvoy => 7,
        EventKind::Blackout => 15,
        EventKind::StormWeather => 0,
    }
}

impl EventKind {
    /// Heat the player draws by stepping into the event.
    pub fn heat_on_intervention(&self) -> (v: u32)
        ensures
            v == intervention_heat_of(*self),
    {
        match self {
            EventKind::GangSkirmish => 10,
            EventKind::TrafficStop => 5,
            EventKind::AmbulanceRun => 2,
            EventKind::StoreRobbery => 8,
            EventKind::CarAccident => 3,
            EventKind::StreetRace => 15,
            EventKind::FootChase => 5,
            EventKind::RivalHunt => 20,
            EventKind::InformantChased => 12,
            EventKind::Demonstration => 8,
            EventKind::BuildingFire => 5,
            EventKind::MafiaFuneral => 10,
            EventKind::BikerConvoy => 7,
            EventKind::Blackout => 15,
            EventKind::StormWeather => 0,
        }
    }
}

/// How long the event lasts, in sim-seconds.
pub open spec fn event_duration_of(k: EventKind) -> u32 {
    match k {
        EventKind::GangSkirmish => 30,
        EventKind::TrafficStop => 20,
        EventKind::AmbulanceRun => 15,
        EventKind::StoreRobbery => 25,
        EventKind::CarAccident => 40,
        EventKind::StreetRace => 60,
        EventKind::FootChase => 20,
        EventKind::RivalHunt => 120,
        EventKind::InformantChased => 30,
        EventKind::Demonstration => 300,
        EventKind::BuildingFire => 180,
        EventKind::MafiaFuneral => 200,
        EventKind::BikerConvoy => 90,
        EventKind::Blackout => 600,
        EventKind::StormWeather => 900,
    }
}

impl EventKind {
    /// How long the event lasts, in sim-seconds.
    pub fn duration(&self) -> (v: u32)
        ensures
            v == event_duration_of(*self),
    {
        match self {
            EventKind::GangSkirmish => 30,
            EventKind::TrafficStop => 20,
            EventKind::AmbulanceRun => 15,
            EventKind::StoreRobbery => 25,
            EventKind::CarAccident => 40,
            EventKind::StreetRace => 60,
            EventKind::FootChase => 20,
            EventKind::RivalHunt => 120,
            EventKind::InformantChased => 30,
            EventKind::Demonstration => 300,
            EventKind::BuildingFire => 180,
            EventKind::MafiaFuneral => 200,
            EventKind::BikerConvoy => 90,
            EventKind::Blackout => 600,
            EventKind::StormWeather => 900,
        }
    }
}

} // verus!
