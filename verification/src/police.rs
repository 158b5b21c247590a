//! Police: wanted levels (heat 0-6), crime and evidence categories, and the
//! states a patrol unit can be in.

use vstd::prelude::*;

verus! {

/// Wanted level, from no heat up to a manhunt.
#[derive(Debug, Clone, Copy, PartialEq, Eq, Structural, PartialOrd, Ord, Hash)]
pub enum HeatLevel {
    Clean,
    Suspicion,
    LocalPursuit,
    ActiveSearch,
    TaskForce,
    Lockdown,
    Manhunt,
}

/// The level's number, 0 (no heat) to 6 (manhunt).
pub open spec fn heat_rank(h: HeatLevel) -> u8 {
    match h {
        HeatLevel::Clean => 0,
        HeatLevel::Suspicion => 1,
        HeatLevel::LocalPursuit => 2,
        HeatLevel::ActiveSearch => 3,
        HeatLevel::TaskForce => 4,
        HeatLevel::Lockdown => 5,
        HeatLevel::Manhunt => 6,
    }
}

/// The level with a given number; every number above 6 means a manhunt.
pub open spec fn heat_from_rank(v: u8) -> HeatLevel {
    if v == 0 {
        HeatLevel::Clean
    } else if v == 1 {
        HeatLevel::Suspicion
    } else if v == 2 {
        HeatLevel::LocalPursuit
    } else if v == 3 {
        HeatLevel::ActiveSearch
    } else if v == 4 {
        HeatLevel::TaskForce
    } else if v == 5 {
        HeatLevel::Lockdown
    } else {
        HeatLevel::Manhunt
    }
}

/// How many police units respond at a level.
pub open spec fn response_units_of(h: HeatLevel) -> u32 {
    match h {
        HeatLevel::Clean => 0,
        HeatLevel::Suspicion => 1,
        HeatLevel::LocalPursuit => 2,
        HeatLevel::ActiveSearch => 4,
        HeatLevel::TaskForce => 6,
        HeatLevel::Lockdown => 8,
        HeatLevel::Manhunt => 12,
    }
}

/// Display name of a `HeatLevel`.
pub open spec fn heat_label(x: HeatLevel) -> Seq<char> {
    match x {
        HeatLevel::Clean => "Clean"@,
        HeatLevel::Suspicion => "Suspicion"@,
        HeatLevel::LocalPursuit => "Local Pursuit"@,
        HeatLevel::ActiveSearch => "Active Search"@,
        HeatLevel::TaskForce => "Task Force"@,
        HeatLevel::Lockdown => "Lockdown"@,
        HeatLevel::Manhunt => "Manhunt"@,
    }
}

impl HeatLevel {
    pub fn label(&self) -> (s: &'static str)
        ensures
            s@ == heat_label(*self),
    {
        match self {
            HeatLevel::Clean => "Clean",
            HeatLevel::Suspicion => "Suspicion",
            HeatLevel::LocalPursuit => "Local Pursuit",
            HeatLevel::ActiveSearch => "Active Search",
            HeatLevel::TaskForce => "Task Force",
            HeatLevel::Lockdown => "Lockdown",
            HeatLevel::Manhunt => "Manhunt",
        }
    }
}

impl HeatLevel {
    /// The level with number `v`; anything above 6 is a manhunt.
    pub fn from_u8(v: u8) -> (h: HeatLevel)
        ensures
            h == heat_from_rank(v),
    {
        match v {
            0 => HeatLevel::Clean,
            1 => HeatLevel::Suspicion,
            2 => HeatLevel::LocalPursuit,
            3 => HeatLevel::ActiveSearch,
            4 => HeatLevel::TaskForce,
            5 => HeatLevel::Lockdown,
            _ => HeatLevel::Manhunt,
        }
    }

    /// The level's number.
    pub fn as_u8(self) -> (v: u8)
        ensures
            v == heat_rank(self),
    {
        match self {
            HeatLevel::Clean => 0,
            HeatLevel::Suspicion => 1,
            HeatLevel::LocalPursuit => 2,
            HeatLevel::ActiveSearch => 3,
            HeatLevel::TaskForce => 4,
            HeatLevel::Lockdown => 5,
            HeatLevel::Manhunt => 6,
        }
    }

    /// Police units that respond at this level.
    pub fn response_units(&self) -> (n: u32)
        ensures
            n == response_units_of(*self),
    {
        match self {
            HeatLevel::Clean => 0,
            HeatLevel::Suspicion => 1,
            HeatLevel::LocalPursuit => 2,
            HeatLevel::ActiveSearch => 4,
            HeatLevel::TaskForce => 6,
            HeatLevel::Lockdown => 8,
            HeatLevel::Manhunt => 12,
        }
    }

    /// A helicopter flies from active search (3) upward.
    pub fn has_helicopter(&self) -> (b: bool)
        ensures
            b == (heat_rank(*self) >= 3),
    {
        match self {
            HeatLevel::ActiveSearch | HeatLevel::TaskForce | HeatLevel::Lockdown | HeatLevel::Manhunt => true,
            _ => false,
        }
    }

    /// Roadblocks stand from task force (4) upward.
    pub fn has_roadblocks(&self) -> (b: bool)
        ensures
            b == (heat_rank(*self) >= 4),
    {
        match self {
            HeatLevel::TaskForce | HeatLevel::Lockdown | HeatLevel::Manhunt => true,
            _ => false,
        }
    }

    /// Checkpoints close the zone from lockdown (5) upward.
    pub fn has_checkpoints(&self) -> (b: bool)
        ensures
            b == (heat_rank(*self) >= 5),
    {
        match self {
            HeatLevel::Lockdown | HeatLevel::Manhunt => true,
            _ => false,
        }
    }
}

/// Turning a level into its number and back gives the same level; a number
/// turned into a level and back is capped at 6.
pub proof fn lemma_heat_rank_round_trip(h: HeatLevel, v: u8)
    ensures
        heat_from_rank(heat_rank(h)) == h,
        heat_rank(heat_from_rank(v)) == if v <= 6 { v } else { 6 },
{
}

/// More heat never means fewer responding units, and the escalations nest:
/// checkpoints imply roadblocks, roadblocks imply a helicopter.
pub proof fn lemma_heat_escalation_monotone(a: HeatLevel, b: HeatLevel)
    ensures
        heat_rank(a) <= heat_rank(b) ==> response_units_of(a) <= response_units_of(b),
        heat_rank(a) < heat_rank(b) ==> response_units_of(a) < response_units_of(b),
        heat_rank(a) >= 5 ==> heat_rank(a) >= 4,
        heat_rank(a) >= 4 ==> heat_rank(a) >= 3,
{
}

/// A crime and, by its category, the heat it raises.
#[derive(Debug, Clone, Copy, PartialEq, Eq, Structural)]
pub enum CrimeType {
    Speeding,
    RecklessDriving,
    HitAndRun,
    Assault,
    WeaponDischarge,
    Murder,
    CarTheft,
    Robbery,
    CopKilled,
    MassCasualty,
}

/// Display name of a `CrimeType`.
pub open spec fn crime_label(x: CrimeType) -> Seq<char> {
    match x {
        CrimeType::Speeding => "Speeding"@,
        CrimeType::RecklessDriving => "Reckless Driving"@,
        CrimeType::HitAndRun => "Hit and Run"@,
        CrimeType::Assault => "Assault"@,
        CrimeType::WeaponDischarge => "Weapon Discharge"@,
        CrimeType::Murder => "Murder"@,
        CrimeType::CarTheft => "Car Theft"@,
        CrimeType::Robbery => "Robbery"@,
        CrimeType::CopKilled => "Cop Killed"@,
        CrimeType::MassCasualty => "Mass Casualty"@,
    }
}

impl CrimeType {
    pub fn label(&self) -> (s: &'static str)
        ensures
            s@ == crime_label(*self),
    {
        match self {
            CrimeType::Speeding => "Speeding",
            CrimeType::RecklessDriving => "Reckless Driving",
            CrimeType::HitAndRun => "Hit and Run",
            CrimeType::Assault => "Assault",
            CrimeType::WeaponDischarge => "Weapon Discharge",
            CrimeType::Murder => "Murder",
            CrimeType::CarTheft => "Car Theft",
            CrimeType::Robbery => "Robbery",
            CrimeType::CopKilled => "Cop Killed",
            CrimeType::MassCasualty => "Mass Casualty",
        }
    }
}
/// A kind of evidence the police can hold against the player.
#[derive(Debug, Clone, Copy, PartialEq, Eq, Structural, Hash)]
pub enum EvidenceKind {
    Witness,
    Camera,
    LicensePlate,
    WeaponType,
    VehicleType,
    Fingerprints,
    KnownAssociate,
    LastPosition,
}

/// Display name of a `EvidenceKind`.
pub open spec fn evidence_label(x: EvidenceKind) -> Seq<char> {
    match x {
        EvidenceKind::Witness => "Witness"@,
        EvidenceKind::Camera => "Camera"@,
        EvidenceKind::LicensePlate => "License Plate"@,
        EvidenceKind::WeaponType => "Weapon Type"@,
        EvidenceKind::VehicleType => "Vehicle Type"@,
        EvidenceKind::Fingerprints => "Fingerprints"@,
        EvidenceKind::KnownAssociate => "Known Associate"@,
        EvidenceKind::LastPosition => "Last Position"@,
    }
}

impl EvidenceKind {
    pub fn label(&self) -> (s: &'static str)
        ensures
            s@ == evidence_label(*self),
    {
        match self {
            EvidenceKind::Witness => "Witness",
            EvidenceKind::Camera => "Camera",
            EvidenceKind::LicensePlate => "License Plate",
            EvidenceKind::WeaponType => "Weapon Type",
            EvidenceKind::VehicleType => "Vehicle Type",
            EvidenceKind::Fingerprints => "Fingerprints",
            EvidenceKind::KnownAssociate => "Known Associate",
            EvidenceKind::LastPosition => "Last Position",
        }
    }
}
/// One piece of evidence: its kind, the zone it was gathered in and a
/// description ("red muscle car", "9mm pistol").
#[derive(Debug)]
pub struct Evidence {
    pub kind: EvidenceKind,
    pub zone: String,
    pub detail: String,
}

/// Evidence that duplicates a new piece: same kind and same description.
pub open spec fn same_evidence(e: Evidence, kind: EvidenceKind, detail: Seq<char>) -> bool {
    e.kind == kind && e.detail@ == detail
}

/// Keeps evidence of every other kind.
pub open spec fn other_kind(kind: EvidenceKind) -> spec_fn(Evidence) -> bool {
    |e: Evidence| e.kind != kind
}

/// Everything the police hold on the player.
#[derive(Debug)]
pub struct EvidenceLedger {
    pub evidence: Vec<Evidence>,
}

impl Default for EvidenceLedger {
    fn default() -> (l: EvidenceLedger)
        ensures
            l.evidence@.len() == 0,
    {
        EvidenceLedger { evidence: Vec::new() }
    }
}

impl EvidenceLedger {
    /// An empty ledger.
    pub fn new() -> (l: EvidenceLedger)
        ensures
            l.evidence@.len() == 0,
    {
        EvidenceLedger { evidence: Vec::new() }
    }

    /// Records a piece of evidence, unless one of the same kind with the
    /// same description is already on file.
    pub fn add(&mut self, kind: EvidenceKind, zone: &str, detail: &str)
        ensures
            (exists|k: int| 0 <= k < old(self).evidence@.len()
                && same_evidence(#[trigger] old(self).evidence@[k], kind, detail@))
                ==> final(self).evidence@ == old(self).evidence@,
            !(exists|k: int| 0 <= k < old(self).evidence@.len()
                && same_evidence(#[trigger] old(self).evidence@[k], kind, detail@)) ==> {
                &&& final(self).evidence@.len() == old(self).evidence@.len() + 1
                &&& final(self).evidence@.drop_last() == old(self).evidence@
                &&& final(self).evidence@.last().kind == kind
                &&& final(self).evidence@.last().zone@ == zone@
                &&& final(self).evidence@.last().detail@ == detail@
            },
    {
        let key: String = detail.to_owned();
        let n = self.evidence.len();
        let mut i: usize = 0;
        while i < n
            invariant
                n == self.evidence@.len(),
                self.evidence@ == old(self).evidence@,
                key@ == detail@,
                0 <= i <= n,
                forall|j: int| 0 <= j < i ==> !same_evidence(#[trigger] self.evidence@[j], kind, detail@),
            decreases n - i,
        {
            if self.evidence[i].kind == kind && self.evidence[i].detail == key {
                return;
            }
            i = i + 1;
        }
        self.evidence.push(Evidence { kind, zone: zone.to_owned(), detail: key });
        proof {
            assert(self.evidence@.drop_last() =~= old(self).evidence@);
        }
    }

    /// Drops all evidence of one kind (a new car drops the plate and
    /// vehicle type); the rest keeps its order.
    pub fn remove_kind(&mut self, kind: EvidenceKind)
        ensures
            final(self).evidence@ == old(self).evidence@.filter(other_kind(kind)),
    {
        let mut all: Vec<Evidence> = Vec::new();
        std::mem::swap(&mut all, &mut self.evidence);
        let ghost orig = all@;
        let n = all.len();
        let mut i: usize = 0;
        while i < n
            invariant
                n == orig.len(),
                0 <= i <= n,
                all@ == orig.subrange(i as int, n as int),
                self.evidence@ == orig.take(i as int).filter(other_kind(kind)),
            decreases n - i,
        {
            let e = all.remove(0);
            proof {
                assert(e == orig[i as int]);
                assert(orig.take(i as int + 1) =~= orig.take(i as int).push(e));
                orig.take(i as int).lemma_filter_push(e, other_kind(kind));
                assert(all@ =~= orig.subrange(i as int + 1, n as int));
            }
            if e.kind != kind {
                self.evidence.push(e);
            }
            i = i + 1;
        }
        proof {
            assert(orig.take(n as int) =~= orig);
        }
    }

    /// Drops all evidence.
    pub fn clear(&mut self)
        ensures
            final(self).evidence@.len() == 0,
    {
        self.evidence.clear();
    }

    pub fn len(&self) -> (n: usize)
        ensures
            n == self.evidence@.len(),
    {
        self.evidence.len()
    }

    pub fn is_empty(&self) -> (b: bool)
        ensures
            b == (self.evidence@.len() == 0),
    {
        self.evidence.len() == 0
    }
}

/// Filing the same evidence twice changes nothing the second time.
pub proof fn lemma_evidence_add_idempotent(before: Seq<Evidence>, after: Seq<Evidence>, kind: EvidenceKind, detail: Seq<char>)
    requires
        after.len() == before.len() + 1,
        after.last().kind == kind,
        after.last().detail@ == detail,
    ensures
        exists|k: int| 0 <= k < after.len() && same_evidence(#[trigger] after[k], kind, detail),
{
    assert(same_evidence(after[after.len() - 1], kind, detail));
}

/// After dropping a kind, no evidence of that kind is left and nothing new
/// appears.
pub proof fn lemma_remove_kind_clears_kind(ev: Seq<Evidence>, kind: EvidenceKind)
    ensures
        forall|k: int| 0 <= k < ev.filter(other_kind(kind)).len() ==> (#[trigger] ev.filter(other_kind(kind))[k]).kind != kind,
        ev.filter(other_kind(kind)).len() <= ev.len(),
        forall|e: Evidence| #[trigger] ev.filter(other_kind(kind)).contains(e) ==> ev.contains(e),
{
    ev.lemma_filter_len(other_kind(kind));
    assert forall|k: int| 0 <= k < ev.filter(other_kind(kind)).len() implies (#[trigger] ev.filter(other_kind(kind))[k]).kind != kind by {
        ev.lemma_filter_pred(other_kind(kind), k);
    }
    assert forall|e: Evidence| #[trigger] ev.filter(other_kind(kind)).contains(e) implies ev.contains(e) by {
        ev.lemma_filter_contains_rev(other_kind(kind), e);
    }
}

/// What a police unit is doing.
#[derive(Debug, Clone, Copy, PartialEq, Eq, Structural)]
pub enum PoliceState {
    Patrol,
    Search,
    Pursue,
    ReturnToPatrol,
    Roadblock,
}

/// Display name of a `PoliceState`.
pub open spec fn police_state_label(x: PoliceState) -> Seq<char> {
    match x {
        PoliceState::Patrol => "Patrol"@,
        PoliceState::Search => "Search"@,
        PoliceState::Pursue => "Pursue"@,
        PoliceState::ReturnToPatrol => "Return"@,
        PoliceState::Roadblock => "Roadblock"@,
    }
}

impl PoliceState {
    pub fn label(&self) -> (s: &'static str)
        ensures
            s@ == police_state_label(*self),
    {
        match self {
            PoliceState::Patrol => "Patrol",
            PoliceState::Search => "Search",
            PoliceState::Pursue => "Pursue",
            PoliceState::ReturnToPatrol => "Return",
            PoliceState::Roadblock => "Roadblock",
        }
    }
}
/// Heat points the crime adds.
pub open spec fn crime_heat_of(k: CrimeType) -> u32 {
    match k {
        CrimeType::Speeding => 2,
        CrimeType::RecklessDriving => 5,
        CrimeType::HitAndRun => 15,
        CrimeType::Assault => 10,
        CrimeType::WeaponDischarge => 12,
        CrimeType::Murder => 30,
        CrimeType::CarTheft => 5,
        CrimeType::Robbery => 15,
        CrimeType::CopKilled => 50,
        CrimeType::MassCasualty => 80,
    }
}

impl CrimeType {
    /// Heat points the crime adds.
    pub fn heat_points(&self) -> (v: u32)
        ensures
            v == crime_heat_of(*self),
    {
        match self {
            CrimeType::Speeding => 2,
            CrimeType::RecklessDriving => 5,
            CrimeType::HitAndRun => 15,
            CrimeType::Assault => 10,
            CrimeType::WeaponDischarge => 12,
            CrimeType::Murder => 30,
            CrimeType::CarTheft => 5,
            CrimeType::Robbery => 15,
            CrimeType::CopKilled => 50,
            CrimeType::MassCasualty => 80,
        }
    }
}

/// How much the piece of evidence counts towards identifying the player.
pub open spec fn evidence_kind_weight_of(k: EvidenceKind) -> u32 {
    match k {
        EvidenceKind::Witness => 10,
        EvidenceKind::Camera => 15,
        EvidenceKind::LicensePlate => 20,
        EvidenceKind::WeaponType => 10,
        EvidenceKind::VehicleType => 10,
        EvidenceKind::Fingerprints => 25,
        EvidenceKind::KnownAssociate => 15,
        EvidenceKind::LastPosition => 5,
    }
}

impl EvidenceKind {
    /// How much the piece of evidence counts towards identifying the player.
    pub fn weight(&self) -> (v: u32)
        ensures
            v == evidence_kind_weight_of(*self),
    {
        match self {
            EvidenceKind::Witness => 10,
            EvidenceKind::Camera => 15,
            EvidenceKind::LicensePlate => 20,
            EvidenceKind::WeaponType => 10,
            EvidenceKind::VehicleType => 10,
            EvidenceKind::Fingerprints => 25,
            EvidenceKind::KnownAssociate => 15,
            EvidenceKind::LastPosition => 5,
        }
    }
}

/// The wanted level at a heat of `points` whole points: under 1 clean,
/// under 15 suspicion, under 30 local pursuit, under 50 an active search,
/// under 70 a task force, under 90 a lockdown, and a manhunt from 90 on.
/// (For a fractional heat the level is that of its whole part: every
/// bound is a whole number.)
pub open spec fn level_for_points(points: int) -> HeatLevel {
    if points < 1 {
        HeatLevel::Clean
    } else if points < 15 {
        HeatLevel::Suspicion
    } else if points < 30 {
        HeatLevel::LocalPursuit
    } else if points < 50 {
        HeatLevel::ActiveSearch
    } else if points < 70 {
        HeatLevel::TaskForce
    } else if points < 90 {
        HeatLevel::Lockdown
    } else {
        HeatLevel::Manhunt
    }
}

impl HeatLevel {
    /// The wanted level at a heat of `points` whole points.
    pub fn for_points(points: u32) -> (h: HeatLevel)
        ensures
            h == level_for_points(points as int),
    {
        if points < 1 {
            HeatLevel::Clean
        } else if points < 15 {
            HeatLevel::Suspicion
        } else if points < 30 {
            HeatLevel::LocalPursuit
        } else if points < 50 {
            HeatLevel::ActiveSearch
        } else if points < 70 {
            HeatLevel::TaskForce
        } else if points < 90 {
            HeatLevel::Lockdown
        } else {
            HeatLevel::Manhunt
        }
    }
}

/// More heat never lowers the wanted level.
pub proof fn lemma_level_for_points_monotone(a: int, b: int)
    requires
        a <= b,
    ensures
        heat_rank(level_for_points(a)) <= heat_rank(level_for_points(b)),
{
}



/// A police unit's next state while the player is wanted: it pursues the
/// player it can see; otherwise it searches while the player was seen
/// recently; otherwise a unit that was pursuing or searching heads back to
/// its patrol route, and any other patrols.
pub open spec fn next_police_state(prev: PoliceState, can_see: bool, seen_recently: bool) -> PoliceState {
    if can_see {
        PoliceState::Pursue
    } else if seen_recently {
        PoliceState::Search
    } else if prev == PoliceState::Pursue || prev == PoliceState::Search {
        PoliceState::ReturnToPatrol
    } else {
        PoliceState::Patrol
    }
}

impl PoliceState {
    /// The unit's next state (see `next_police_state`); the caller decides
    /// from positions and headings whether the unit sees the player and
    /// whether the player was seen recently.
    pub fn next(self, can_see: bool, seen_recently: bool) -> (s: PoliceState)
        ensures
            s == next_police_state(self, can_see, seen_recently),
    {
        if can_see {
            PoliceState::Pursue
        } else if seen_recently {
            PoliceState::Search
        } else if self == PoliceState::Pursue || self == PoliceState::Search {
            PoliceState::ReturnToPatrol
        } else {
            PoliceState::Patrol
        }
    }
}

/// A unit never gives up on a player in sight, never stands at a roadblock
/// by itself, and goes back to its route only after a chase or a search.
pub proof fn lemma_police_transitions(prev: PoliceState, can_see: bool, seen_recently: bool)
    ensures
        can_see ==> next_police_state(prev, can_see, seen_recently) == PoliceState::Pursue,
        next_police_state(prev, can_see, seen_recently) != PoliceState::Roadblock,
        next_police_state(prev, can_see, seen_recently) == PoliceState::ReturnToPatrol ==> (prev
            == PoliceState::Pursue || prev == PoliceState::Search),
{
}

/// A unit that has lost sight of a player seen recently searches for them,
/// whatever it was doing before; what it was doing matters only once the
/// player is neither in sight nor recently seen, and then it neither
/// pursues nor searches.
pub proof fn lemma_recent_sighting_means_search(
    prev: PoliceState,
    other: PoliceState,
    can_see: bool,
    seen_recently: bool,
)
    ensures
        !can_see && seen_recently ==> next_police_state(prev, can_see, seen_recently) == PoliceState::Search,
        can_see || seen_recently ==> next_police_state(prev, can_see, seen_recently) == next_police_state(
            other,
            can_see,
            seen_recently,
        ),
        !can_see && !seen_recently ==> next_police_state(prev, can_see, seen_recently) != PoliceState::Search
            && next_police_state(prev, can_see, seen_recently) != PoliceState::Pursue,
{
}

/// Every crime draws heat, at least two points, so on a clean record any
/// single crime makes the player wanted; a murder alone brings at least an
/// active search, a killed cop at least a task force, a mass casualty at
/// least a lockdown. Graver crimes draw more: speeding least, then reckless
/// driving and car theft alike, assault, weapon discharge, hit-and-run and
/// robbery alike, murder, a killed cop, and a mass casualty most.
pub proof fn lemma_crime_heat(k: CrimeType)
    ensures
        crime_heat_of(k) >= 2,
        level_for_points(crime_heat_of(k) as int) != HeatLevel::Clean,
        heat_rank(level_for_points(crime_heat_of(CrimeType::Murder) as int)) >= heat_rank(HeatLevel::ActiveSearch),
        heat_rank(level_for_points(crime_heat_of(CrimeType::CopKilled) as int)) >= heat_rank(HeatLevel::TaskForce),
        heat_rank(level_for_points(crime_heat_of(CrimeType::MassCasualty) as int)) >= heat_rank(HeatLevel::Lockdown),
        crime_heat_of(CrimeType::Speeding) < crime_heat_of(CrimeType::RecklessDriving),
        crime_heat_of(CrimeType::RecklessDriving) == crime_heat_of(CrimeType::CarTheft),
        crime_heat_of(CrimeType::CarTheft) < crime_heat_of(CrimeType::Assault),
        crime_heat_of(CrimeType::Assault) < crime_heat_of(CrimeType::WeaponDischarge),
        crime_heat_of(CrimeType::WeaponDischarge) < crime_heat_of(CrimeType::HitAndRun),
        crime_heat_of(CrimeType::HitAndRun) == crime_heat_of(CrimeType::Robbery),
        crime_heat_of(CrimeType::Robbery) < crime_heat_of(CrimeType::Murder),
        crime_heat_of(CrimeType::Murder) < crime_heat_of(CrimeType::CopKilled),
        crime_heat_of(CrimeType::CopKilled) < crime_heat_of(CrimeType::MassCasualty),
        crime_heat_of(k) <= crime_heat_of(CrimeType::MassCasualty),
{
}

} // verus!
