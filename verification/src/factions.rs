//! Factions: who the city's groups are (kinds, home zones, enemies), how
//! they stand towards the player, and how far the police investigation has
//! got.

use vstd::prelude::*;

verus! {

/// Faction type: decides overall behaviour.
#[derive(Debug, Clone, Copy, PartialEq, Eq, Structural, Hash)]
pub enum FactionKind {
    StreetGang,
    Mafia,
    Biker,
    Cartel,
    Police,
    Civilian,
}

/// Display name of a `FactionKind`.
pub open spec fn faction_kind_label(x: FactionKind) -> Seq<char> {
    match x {
        FactionKind::StreetGang => "Street Gang"@,
        FactionKind::Mafia => "Mafia"@,
        FactionKind::Biker => "Biker Gang"@,
        FactionKind::Cartel => "Cartel"@,
        FactionKind::Police => "Police"@,
        FactionKind::Civilian => "Civilian"@,
    }
}

impl FactionKind {
    pub fn label(&self) -> (s: &'static str)
        ensures
            s@ == faction_kind_label(*self),
    {
        match self {
            FactionKind::StreetGang => "Street Gang",
            FactionKind::Mafia => "Mafia",
            FactionKind::Biker => "Biker Gang",
            FactionKind::Cartel => "Cartel",
            FactionKind::Police => "Police",
            FactionKind::Civilian => "Civilian",
        }
    }
}
/// A faction's attitude to the player, by trust band.
#[derive(Debug, Clone, Copy, PartialEq, Eq, Structural)]
pub enum FactionStatus {
    Family,
    Trusted,
    Neutral,
    Suspicious,
    Hunted,
}

/// Display name of a `FactionStatus`.
pub open spec fn faction_status_label(x: FactionStatus) -> Seq<char> {
    match x {
        FactionStatus::Family => "Family"@,
        FactionStatus::Trusted => "Trusted"@,
        FactionStatus::Neutral => "Neutral"@,
        FactionStatus::Suspicious => "Suspicious"@,
        FactionStatus::Hunted => "Hunted"@,
    }
}

impl FactionStatus {
    pub fn label(&self) -> (s: &'static str)
        ensures
            s@ == faction_status_label(*self),
    {
        match self {
            FactionStatus::Family => "Family",
            FactionStatus::Trusted => "Trusted",
            FactionStatus::Neutral => "Neutral",
            FactionStatus::Suspicious => "Suspicious",
            FactionStatus::Hunted => "Hunted",
        }
    }
}
/// How far the police investigation of the player has come.
#[derive(Debug, Clone, Copy, PartialEq, Eq, Structural)]
pub enum InvestigationStatus {
    Unknown,
    PersonOfInterest,
    Identified,
    WarrantActive,
    Manhunt,
}

/// Display name of a `InvestigationStatus`.
pub open spec fn investigation_label(x: InvestigationStatus) -> Seq<char> {
    match x {
        InvestigationStatus::Unknown => "Unknown"@,
        InvestigationStatus::PersonOfInterest => "Person of Interest"@,
        InvestigationStatus::Identified => "Identified"@,
        InvestigationStatus::WarrantActive => "Warrant Active"@,
        InvestigationStatus::Manhunt => "Manhunt"@,
    }
}

impl InvestigationStatus {
    pub fn label(&self) -> (s: &'static str)
        ensures
            s@ == investigation_label(*self),
    {
        match self {
            InvestigationStatus::Unknown => "Unknown",
            InvestigationStatus::PersonOfInterest => "Person of Interest",
            InvestigationStatus::Identified => "Identified",
            InvestigationStatus::WarrantActive => "Warrant Active",
            InvestigationStatus::Manhunt => "Manhunt",
        }
    }
}
impl Default for InvestigationStatus {
    fn default() -> (s: InvestigationStatus)
        ensures
            s == InvestigationStatus::Unknown,
    {
        InvestigationStatus::Unknown
    }
}

/// What a faction member says to the player, by the faction's attitude and
/// whether the player is armed.
pub open spec fn attitude_text(status: FactionStatus, player_armed: bool) -> Seq<char> {
    match status {
        FactionStatus::Family => "My friend! What do you need?"@,
        FactionStatus::Trusted => "Good to see you. We're cool."@,
        FactionStatus::Neutral => if player_armed {
            "Put that away. Not here."@
        } else {
            "Don't know you. Move along."@
        },
        FactionStatus::Suspicious => "I've heard about you. Not good things."@,
        FactionStatus::Hunted => if player_armed {
            "You're dead meat, you hear me?"@
        } else {
            "Get out. Now. Before I call them."@
        },
    }
}

/// An NPC's greeting to the player, given its faction's attitude.
pub fn attitude_line(status: FactionStatus, player_armed: bool) -> (s: &'static str)
    ensures
        s@ == attitude_text(status, player_armed),
{
    match status {
        FactionStatus::Family => "My friend! What do you need?",
        FactionStatus::Trusted => "Good to see you. We're cool.",
        FactionStatus::Neutral => {
            if player_armed {
                "Put that away. Not here."
            } else {
                "Don't know you. Move along."
            }
        },
        FactionStatus::Suspicious => "I've heard about you. Not good things.",
        FactionStatus::Hunted => {
            if player_armed {
                "You're dead meat, you hear me?"
            } else {
                "Get out. Now. Before I call them."
            }
        },
    }
}


/// A faction's stance at a trust of `trust` whole points (trust runs from
/// -100 to 100): family from 60, trusted from 20, neutral from -20,
/// suspicious from -60, hunted below. (For a fractional trust the stance is
/// that of its whole part, rounded down: every bound is a whole number.)
pub open spec fn status_for_trust(trust: int) -> FactionStatus {
    if trust >= 60 {
        FactionStatus::Family
    } else if trust >= 20 {
        FactionStatus::Trusted
    } else if trust >= -20 {
        FactionStatus::Neutral
    } else if trust >= -60 {
        FactionStatus::Suspicious
    } else {
        FactionStatus::Hunted
    }
}

impl FactionStatus {
    /// The stance at a trust of `trust` whole points.
    pub fn for_trust(trust: i32) -> (s: FactionStatus)
        ensures
            s == status_for_trust(trust as int),
    {
        if trust >= 60 {
            FactionStatus::Family
        } else if trust >= 20 {
            FactionStatus::Trusted
        } else if trust >= -20 {
            FactionStatus::Neutral
        } else if trust >= -60 {
            FactionStatus::Suspicious
        } else {
            FactionStatus::Hunted
        }
    }
}

/// The investigation's stage at an identification score of `score` whole
/// points (0 to 100): unknown below 10, a person of interest below 30,
/// identified below 60, a warrant below 85, a manhunt from 85. (For a
/// fractional score the stage is that of its whole part.)
pub open spec fn status_for_identification(score: int) -> InvestigationStatus {
    if score < 10 {
        InvestigationStatus::Unknown
    } else if score < 30 {
        InvestigationStatus::PersonOfInterest
    } else if score < 60 {
        InvestigationStatus::Identified
    } else if score < 85 {
        InvestigationStatus::WarrantActive
    } else {
        InvestigationStatus::Manhunt
    }
}

impl InvestigationStatus {
    /// The stage at an identification score of `score` whole points.
    pub fn for_identification(score: u32) -> (s: InvestigationStatus)
        ensures
            s == status_for_identification(score as int),
    {
        if score < 10 {
            InvestigationStatus::Unknown
        } else if score < 30 {
            InvestigationStatus::PersonOfInterest
        } else if score < 60 {
            InvestigationStatus::Identified
        } else if score < 85 {
            InvestigationStatus::WarrantActive
        } else {
            InvestigationStatus::Manhunt
        }
    }
}

/// How far an investigation has got, 0 (unknown) to 4 (manhunt).
pub open spec fn investigation_rank(s: InvestigationStatus) -> int {
    match s {
        InvestigationStatus::Unknown => 0,
        InvestigationStatus::PersonOfInterest => 1,
        InvestigationStatus::Identified => 2,
        InvestigationStatus::WarrantActive => 3,
        InvestigationStatus::Manhunt => 4,
    }
}

/// How warm a stance is, 0 (hunted) to 4 (family).
pub open spec fn warmth(s: FactionStatus) -> int {
    match s {
        FactionStatus::Hunted => 0,
        FactionStatus::Suspicious => 1,
        FactionStatus::Neutral => 2,
        FactionStatus::Trusted => 3,
        FactionStatus::Family => 4,
    }
}

/// More trust never makes a faction colder, and more identification never
/// sets an investigation back.
pub proof fn lemma_stances_monotone(a: int, b: int)
    requires
        a <= b,
    ensures
        warmth(status_for_trust(a)) <= warmth(status_for_trust(b)),
        investigation_rank(status_for_identification(a)) <= investigation_rank(
            status_for_identification(b),
        ),
{
}


/// The texts of a sequence of strings.
pub open spec fn names(v: Seq<String>) -> Seq<Seq<char>> {
    v.map_values(|s: String| s@)
}

/// Who a faction is: its id and name, its kind, the zones it calls home,
/// and the factions it is allied with or hostile to (by id).
#[derive(Debug, Clone)]
pub struct FactionDef {
    pub id: String,
    pub name: String,
    pub kind: FactionKind,
    pub home_zones: Vec<String>,
    pub allies: Vec<String>,
    pub enemies: Vec<String>,
}

/// `d` is the faction with these id, name, kind, home zones and enemies, and
/// no allies.
pub open spec fn is_faction(
    d: FactionDef,
    id: Seq<char>,
    name: Seq<char>,
    kind: FactionKind,
    home_zones: Seq<Seq<char>>,
    enemies: Seq<Seq<char>>,
) -> bool {
    &&& d.id@ == id
    &&& d.name@ == name
    &&& d.kind == kind
    &&& names(d.home_zones@) == home_zones
    &&& d.allies@.len() == 0
    &&& names(d.enemies@) == enemies
}

/// The city's factions: four street gangs' worth of trouble (Southline
/// Kings and Los Cuervos in the East Blocks, at war with each other; the
/// Kings also feud with the Iron Hounds bikers of the desert outskirts), the
/// Old Harbor Mafia, the Harbor Cartel, the police and the civilians.
pub open spec fn is_default_factions(defs: Seq<FactionDef>) -> bool {
    &&& defs.len() == 7
    &&& is_faction(defs[0], "southline_kings"@, "Southline Kings"@, FactionKind::StreetGang, seq!["east_blocks"@], seq!["los_cuervos"@, "iron_hounds"@])
    &&& is_faction(defs[1], "los_cuervos"@, "Los Cuervos"@, FactionKind::StreetGang, seq!["east_blocks"@], seq!["southline_kings"@])
    &&& is_faction(defs[2], "old_harbor_mafia"@, "Old Harbor Mafia"@, FactionKind::Mafia, seq!["old_town"@], Seq::<Seq<char>>::empty())
    &&& is_faction(defs[3], "iron_hounds"@, "Iron Hounds"@, FactionKind::Biker, seq!["desert_outskirts"@], seq!["southline_kings"@])
    &&& is_faction(defs[4], "harbor_cartel"@, "Harbor Cartel"@, FactionKind::Cartel, seq!["industrial_zone"@], Seq::<Seq<char>>::empty())
    &&& is_faction(defs[5], "police"@, "Police Department"@, FactionKind::Police, seq!["government_district"@], Seq::<Seq<char>>::empty())
    &&& is_faction(defs[6], "civilians"@, "Civilians"@, FactionKind::Civilian, Seq::<Seq<char>>::empty(), Seq::<Seq<char>>::empty())
}

impl FactionDef {
    /// The city's factions.
    pub fn all_defaults() -> (defs: Vec<FactionDef>)
        ensures
            is_default_factions(defs@),
    {
        let defs = vec![
            FactionDef {
                id: "southline_kings".to_owned(),
                name: "Southline Kings".to_owned(),
                kind: FactionKind::StreetGang,
                home_zones: vec!["east_blocks".to_owned()],
                allies: Vec::new(),
                enemies: vec!["los_cuervos".to_owned(), "iron_hounds".to_owned()],
            },
            FactionDef {
                id: "los_cuervos".to_owned(),
                name: "Los Cuervos".to_owned(),
                kind: FactionKind::StreetGang,
                home_zones: vec!["east_blocks".to_owned()],
                allies: Vec::new(),
                enemies: vec!["southline_kings".to_owned()],
            },
            FactionDef {
                id: "old_harbor_mafia".to_owned(),
                name: "Old Harbor Mafia".to_owned(),
                kind: FactionKind::Mafia,
                home_zones: vec!["old_town".to_owned()],
                allies: Vec::new(),
                enemies: Vec::new(),
            },
            FactionDef {
                id: "iron_hounds".to_owned(),
                name: "Iron Hounds".to_owned(),
                kind: FactionKind::Biker,
                home_zones: vec!["desert_outskirts".to_owned()],
                allies: Vec::new(),
                enemies: vec!["southline_kings".to_owned()],
            },
            FactionDef {
                id: "harbor_cartel".to_owned(),
                name: "Harbor Cartel".to_owned(),
                kind: FactionKind::Cartel,
                home_zones: vec!["industrial_zone".to_owned()],
                allies: Vec::new(),
                enemies: Vec::new(),
            },
            FactionDef {
                id: "police".to_owned(),
                name: "Police Department".to_owned(),
                kind: FactionKind::Police,
                home_zones: vec!["government_district".to_owned()],
                allies: Vec::new(),
                enemies: Vec::new(),
            },
            FactionDef {
                id: "civilians".to_owned(),
                name: "Civilians".to_owned(),
                kind: FactionKind::Civilian,
                home_zones: Vec::new(),
                allies: Vec::new(),
                enemies: Vec::new(),
            },
        ];
        proof {
            assert(names(defs@[0].home_zones@) =~= seq!["east_blocks"@]);
            assert(names(defs@[0].enemies@) =~= seq!["los_cuervos"@, "iron_hounds"@]);
            assert(names(defs@[1].home_zones@) =~= seq!["east_blocks"@]);
            assert(names(defs@[1].enemies@) =~= seq!["southline_kings"@]);
            assert(names(defs@[2].home_zones@) =~= seq!["old_town"@]);
            assert(names(defs@[2].enemies@) =~= Seq::<Seq<char>>::empty());
            assert(names(defs@[3].home_zones@) =~= seq!["desert_outskirts"@]);
            assert(names(defs@[3].enemies@) =~= seq!["southline_kings"@]);
            assert(names(defs@[4].home_zones@) =~= seq!["industrial_zone"@]);
            assert(names(defs@[4].enemies@) =~= Seq::<Seq<char>>::empty());
            assert(names(defs@[5].home_zones@) =~= seq!["government_district"@]);
            assert(names(defs@[5].enemies@) =~= Seq::<Seq<char>>::empty());
            assert(names(defs@[6].home_zones@) =~= Seq::<Seq<char>>::empty());
            assert(names(defs@[6].enemies@) =~= Seq::<Seq<char>>::empty());
        }
        defs
    }
}


/// The default factions have distinct ids.
pub proof fn lemma_default_ids_distinct(defs: Seq<FactionDef>)
    requires
        is_default_factions(defs),
    ensures
        forall|i: int, j: int| 0 <= i < j < defs.len() ==> (#[trigger] defs[i]).id@ != (#[trigger] defs[j]).id@,
{
        reveal_strlit("southline_kings");
        reveal_strlit("los_cuervos");
        reveal_strlit("old_harbor_mafia");
        reveal_strlit("iron_hounds");
        reveal_strlit("harbor_cartel");
        reveal_strlit("police");
        reveal_strlit("civilians");
    assert forall|i: int, j: int| 0 <= i < j < defs.len() implies (#[trigger] defs[i]).id@ != (
    #[trigger] defs[j]).id@ by {
        assert(defs[i].id@[0] != defs[j].id@[0]);
    }
}

/// Among the default factions, enmity is mutual: when one names another
/// as an enemy, the other names it back.
pub proof fn lemma_default_enmity_mutual(defs: Seq<FactionDef>)
    requires
        is_default_factions(defs),
    ensures
        forall|i: int, j: int|
            0 <= i < defs.len() && 0 <= j < defs.len() && names((#[trigger] defs[i]).enemies@).contains(
                (#[trigger] defs[j]).id@,
            ) ==> names(defs[j].enemies@).contains(defs[i].id@),
{
        reveal_strlit("southline_kings");
        reveal_strlit("los_cuervos");
        reveal_strlit("old_harbor_mafia");
        reveal_strlit("iron_hounds");
        reveal_strlit("harbor_cartel");
        reveal_strlit("police");
        reveal_strlit("civilians");
    assert forall|i: int, j: int|
        0 <= i < defs.len() && 0 <= j < defs.len() && names((#[trigger] defs[i]).enemies@).contains(
            (#[trigger] defs[j]).id@,
        ) implies names(defs[j].enemies@).contains(defs[i].id@) by {
        let e = names(defs[i].enemies@);
        let k = choose|k: int| 0 <= k < e.len() && e[k] == defs[j].id@;
        assert(defs[j].id@[0] == e[k][0]);
        if i == 0 {
            if k == 0 {
                assert(j == 1);
                assert(names(defs[1].enemies@)[0] == defs[0].id@);
            } else {
                assert(j == 3);
                assert(names(defs[3].enemies@)[0] == defs[0].id@);
            }
        } else {
            assert(j == 0);
            assert(names(defs[0].enemies@)[if i == 1 { 0int } else { 1int }] == defs[i].id@);
        }
    }
}

/// The factions by id.
#[derive(Debug, Clone)]
pub struct FactionRegistry {
    defs: Vec<FactionDef>,
}

impl View for FactionRegistry {
    type V = Seq<FactionDef>;

    closed spec fn view(&self) -> Seq<FactionDef> {
        self.defs@
    }
}

impl FactionRegistry {
    /// The registry of the default factions.
    pub fn from_defaults() -> (r: FactionRegistry)
        ensures
            is_default_factions(r@),
    {
        FactionRegistry { defs: FactionDef::all_defaults() }
    }

    /// The faction with this id.
    pub fn get(&self, id: &str) -> (r: Option<&FactionDef>)
        ensures
            r is None <==> forall|k: int| 0 <= k < self@.len() ==> (#[trigger] self@[k]).id@ != id@,
            r matches Some(d) ==> exists|k: int|
                0 <= k < self@.len() && self@[k] == *d && d.id@ == id@ && forall|j: int|
                    0 <= j < k ==> (#[trigger] self@[j]).id@ != id@,
    {
        let key: String = id.to_owned();
        let mut i: usize = 0;
        while i < self.defs.len()
            invariant
                0 <= i <= self.defs@.len(),
                key@ == id@,
                forall|k: int| 0 <= k < i ==> (#[trigger] self.defs@[k]).id@ != id@,
            decreases self.defs@.len() - i,
        {
            if self.defs[i].id == key {
                return Some(&self.defs[i]);
            }
            i = i + 1;
        }
        None
    }

    /// The factions' ids, in registry order.
    pub fn ids(&self) -> (r: Vec<String>)
        ensures
            names(r@) == self@.map_values(|d: FactionDef| d.id@),
    {
        let mut r: Vec<String> = Vec::new();
        let mut i: usize = 0;
        while i < self.defs.len()
            invariant
                0 <= i <= self.defs@.len(),
                names(r@) == self.defs@.take(i as int).map_values(|d: FactionDef| d.id@),
            decreases self.defs@.len() - i,
        {
            let id = self.defs[i].id.clone();
            proof {
                assert(names(r@.push(id)) =~= names(r@).push(id@));
                assert(self.defs@.take(i as int + 1).map_values(|d: FactionDef| d.id@) =~= self.defs@.take(
                    i as int,
                ).map_values(|d: FactionDef| d.id@).push(self.defs@[i as int].id@));
            }
            r.push(id);
            i = i + 1;
        }
        proof {
            assert(self.defs@.take(i as int) =~= self.defs@);
        }
        r
    }

    /// Every faction definition.
    pub fn defs(&self) -> (r: &Vec<FactionDef>)
        ensures
            r@ == self@,
    {
        &self.defs
    }

    pub fn len(&self) -> (n: usize)
        ensures
            n == self@.len(),
    {
        self.defs.len()
    }
}

/// The trust bands: neutral exactly from -20 up to 20, centred on zero, and
/// every band between the extremes forty points wide, so that from -100 up
/// to 60 forty more points of trust warm the stance by exactly one step.
pub proof fn lemma_trust_bands(t: int)
    ensures
        status_for_trust(t) == FactionStatus::Neutral <==> -20 <= t < 20,
        -100 <= t < 60 ==> warmth(status_for_trust(t + 40)) == warmth(status_for_trust(t)) + 1,
{
}

} // verus!
