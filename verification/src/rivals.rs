//! Rivals: kinds, dispositions and the actions they take.

use crate::ids::{decimal_text, numbered};
use vstd::prelude::*;

verus! {

/// Kind of personal enemy.
#[derive(Debug, Clone, Copy, PartialEq, Eq, Structural, Hash)]
pub enum RivalKind {
    GangLeader,
    Cop,
    BountyHunter,
    FormerCrew,
    Journalist,
    MafiaEnforcer,
    StreetRacer,
    CorruptChief,
}

/// Display name of a `RivalKind`.
pub open spec fn rival_kind_label(x: RivalKind) -> Seq<char> {
    match x {
        RivalKind::GangLeader => "Gang Leader"@,
        RivalKind::Cop => "Cop"@,
        RivalKind::BountyHunter => "Bounty Hunter"@,
        RivalKind::FormerCrew => "Former Crew"@,
        RivalKind::Journalist => "Journalist"@,
        RivalKind::MafiaEnforcer => "Mafia Enforcer"@,
        RivalKind::StreetRacer => "Street Racer"@,
        RivalKind::CorruptChief => "Corrupt Chief"@,
    }
}

impl RivalKind {
    pub fn label(&self) -> (s: &'static str)
        ensures
            s@ == rival_kind_label(*self),
    {
        match self {
            RivalKind::GangLeader => "Gang Leader",
            RivalKind::Cop => "Cop",
            RivalKind::BountyHunter => "Bounty Hunter",
            RivalKind::FormerCrew => "Former Crew",
            RivalKind::Journalist => "Journalist",
            RivalKind::MafiaEnforcer => "Mafia Enforcer",
            RivalKind::StreetRacer => "Street Racer",
            RivalKind::CorruptChief => "Corrupt Chief",
        }
    }
}
/// A rival's current stance towards the player.
#[derive(Debug, Clone, Copy, PartialEq, Eq, Structural, Hash)]
pub enum RivalDisposition {
    /// Active enemy.
    Hostile,
    /// Waiting for revenge.
    Plotting,
    /// Temporary ceasefire.
    Truce,
    /// Could become an ally if helped.
    Wavering,
    /// Former enemy, now an ally.
    Ally,
}

/// Display name of a `RivalDisposition`.
pub open spec fn rival_disposition_label(x: RivalDisposition) -> Seq<char> {
    match x {
        RivalDisposition::Hostile => "Hostile"@,
        RivalDisposition::Plotting => "Plotting"@,
        RivalDisposition::Truce => "Truce"@,
        RivalDisposition::Wavering => "Wavering"@,
        RivalDisposition::Ally => "Ally"@,
    }
}

impl RivalDisposition {
    pub fn label(&self) -> (s: &'static str)
        ensures
            s@ == rival_disposition_label(*self),
    {
        match self {
            RivalDisposition::Hostile => "Hostile",
            RivalDisposition::Plotting => "Plotting",
            RivalDisposition::Truce => "Truce",
            RivalDisposition::Wavering => "Wavering",
            RivalDisposition::Ally => "Ally",
        }
    }
}
/// What a rival can do against the player.
#[derive(Debug, Clone, Copy, PartialEq, Eq, Structural, Hash)]
pub enum RivalAction {
    NoAction,
    TipPolice,
    AttackBusiness,
    KidnapCrew,
    SpreadRumor,
    SabotageVehicle,
    Challenge,
    SetBounty,
}

/// Display name of a `RivalAction`.
pub open spec fn rival_action_label(x: RivalAction) -> Seq<char> {
    match x {
        RivalAction::NoAction => "None"@,
        RivalAction::TipPolice => "Tip Police"@,
        RivalAction::AttackBusiness => "Attack Business"@,
        RivalAction::KidnapCrew => "Kidnap Crew"@,
        RivalAction::SpreadRumor => "Spread Rumor"@,
        RivalAction::SabotageVehicle => "Sabotage Vehicle"@,
        RivalAction::Challenge => "Challenge"@,
        RivalAction::SetBounty => "Set Bounty"@,
    }
}

impl RivalAction {
    pub fn label(&self) -> (s: &'static str)
        ensures
            s@ == rival_action_label(*self),
    {
        match self {
            RivalAction::NoAction => "None",
            RivalAction::TipPolice => "Tip Police",
            RivalAction::AttackBusiness => "Attack Business",
            RivalAction::KidnapCrew => "Kidnap Crew",
            RivalAction::SpreadRumor => "Spread Rumor",
            RivalAction::SabotageVehicle => "Sabotage Vehicle",
            RivalAction::Challenge => "Challenge",
            RivalAction::SetBounty => "Set Bounty",
        }
    }
}
/// A rival's standing record: identity, stance, the bounty they have put on
/// the player and how many moves each side has made.
#[derive(Debug)]
pub struct Rival {
    pub id: String,
    pub name: String,
    pub kind: RivalKind,
    pub faction: Option<String>,
    pub disposition: RivalDisposition,
    /// Bounty on the player (0 = none).
    pub bounty: u32,
    /// Moves the rival has made against the player.
    pub actions_taken: u32,
    /// Moves the player has made against (or for) the rival.
    pub actions_received: u32,
}

/// The move a rival makes: a hostile one attacks a business when their
/// grudge is over 80 and the bounty over 1000, tips the police when the
/// grudge is over 60, else spreads rumours; a plotting one kidnaps crew;
/// any other does nothing.
pub open spec fn rival_move(disposition: RivalDisposition, grudge_over_80: bool, grudge_over_60: bool, bounty: u32) -> RivalAction {
    if disposition == RivalDisposition::Hostile {
        if grudge_over_80 && bounty > 1000 {
            RivalAction::AttackBusiness
        } else if grudge_over_60 {
            RivalAction::TipPolice
        } else {
            RivalAction::SpreadRumor
        }
    } else if disposition == RivalDisposition::Plotting {
        RivalAction::KidnapCrew
    } else {
        RivalAction::NoAction
    }
}

impl Rival {
    /// A hostile rival with no bounty and no history.
    pub fn new(id: &str, name: &str, kind: RivalKind) -> (r: Rival)
        ensures
            r.id@ == id@,
            r.name@ == name@,
            r.kind == kind,
            r.faction.is_none(),
            r.disposition == RivalDisposition::Hostile,
            r.bounty == 0,
            r.actions_taken == 0,
            r.actions_received == 0,
    {
        Rival {
            id: id.to_owned(),
            name: name.to_owned(),
            kind,
            faction: None,
            disposition: RivalDisposition::Hostile,
            bounty: 0,
            actions_taken: 0,
            actions_received: 0,
        }
    }

    /// The record side of being humiliated by the player: one more move
    /// received and 500 more on the bounty (saturating).
    pub fn on_humiliated_by_player(&mut self)
        requires
            old(self).actions_received < u32::MAX,
        ensures
            final(self).actions_received == old(self).actions_received + 1,
            final(self).bounty == if old(self).bounty + 500 > u32::MAX { u32::MAX as int } else { old(self).bounty + 500 },
            final(self).actions_taken == old(self).actions_taken,
            final(self).disposition == old(self).disposition,
            final(self).id == old(self).id,
            final(self).name == old(self).name,
            final(self).kind == old(self).kind,
            final(self).faction == old(self).faction,
    {
        self.actions_received = self.actions_received + 1;
        self.bounty = self.bounty.saturating_add(500);
    }

    /// The record side of being helped by the player: one more move received.
    pub fn on_helped_by_player(&mut self)
        requires
            old(self).actions_received < u32::MAX,
        ensures
            final(self).actions_received == old(self).actions_received + 1,
            final(self).bounty == old(self).bounty,
            final(self).actions_taken == old(self).actions_taken,
            final(self).disposition == old(self).disposition,
            final(self).id == old(self).id,
            final(self).name == old(self).name,
            final(self).kind == old(self).kind,
            final(self).faction == old(self).faction,
    {
        self.actions_received = self.actions_received + 1;
    }

    /// The rival makes a move, chosen by stance, grudge and bounty.
    pub fn on_action_taken(&mut self, grudge_over_80: bool, grudge_over_60: bool) -> (a: RivalAction)
        requires
            old(self).actions_taken < u32::MAX,
        ensures
            a == rival_move(old(self).disposition, grudge_over_80, grudge_over_60, old(self).bounty),
            final(self).actions_taken == old(self).actions_taken + 1,
            final(self).actions_received == old(self).actions_received,
            final(self).bounty == old(self).bounty,
            final(self).disposition == old(self).disposition,
            final(self).id == old(self).id,
            final(self).name == old(self).name,
            final(self).kind == old(self).kind,
            final(self).faction == old(self).faction,
    {
        self.actions_taken = self.actions_taken + 1;
        if self.disposition == RivalDisposition::Hostile {
            if grudge_over_80 && self.bounty > 1000 {
                RivalAction::AttackBusiness
            } else if grudge_over_60 {
                RivalAction::TipPolice
            } else {
                RivalAction::SpreadRumor
            }
        } else if self.disposition == RivalDisposition::Plotting {
            RivalAction::KidnapCrew
        } else {
            RivalAction::NoAction
        }
    }
}

/// Number of hostile rivals in a list.
pub open spec fn hostile_in(rs: Seq<Rival>) -> int
    decreases rs.len(),
{
    if rs.len() == 0 {
        0
    } else {
        hostile_in(rs.drop_last()) + if rs.last().disposition == RivalDisposition::Hostile { 1int } else { 0int }
    }
}

/// Sum of the bounties in a list.
pub open spec fn bounty_sum(rs: Seq<Rival>) -> int
    decreases rs.len(),
{
    if rs.len() == 0 {
        0
    } else {
        bounty_sum(rs.drop_last()) + rs.last().bounty
    }
}

/// A bounty sum is between 0 and `u32::MAX` times the number of rivals.
pub proof fn lemma_bounty_sum_bounds(rs: Seq<Rival>)
    ensures
        0 <= bounty_sum(rs) <= rs.len() * u32::MAX,
        0 <= hostile_in(rs) <= rs.len(),
    decreases rs.len(),
{
    if rs.len() > 0 {
        lemma_bounty_sum_bounds(rs.drop_last());
    }
}

/// A prefix of the list never carries more bounty than the whole list.
pub proof fn lemma_bounty_sum_prefix(rs: Seq<Rival>, i: int)
    requires
        0 <= i <= rs.len(),
    ensures
        0 <= bounty_sum(rs.take(i)) <= bounty_sum(rs),
    decreases rs.len(),
{
    lemma_bounty_sum_bounds(rs.take(i));
    if i < rs.len() {
        lemma_bounty_sum_prefix(rs.drop_last(), i);
        assert(rs.drop_last().take(i) =~= rs.take(i));
    } else {
        assert(rs.take(i) =~= rs);
    }
}

/// `k` is the first rival with this id.
pub open spec fn first_rival(rs: Seq<Rival>, id: Seq<char>, k: int) -> bool {
    &&& 0 <= k < rs.len()
    &&& rs[k].id@ == id
    &&& forall|j: int| 0 <= j < k ==> rs[j].id@ != id
}

/// All rivals and the counter their ids are drawn from.
#[derive(Debug)]
pub struct RivalSystem {
    pub rivals: Vec<Rival>,
    pub id_counter: u32,
}

impl Default for RivalSystem {
    fn default() -> (s: RivalSystem)
        ensures
            s.rivals@.len() == 0,
            s.id_counter == 0,
    {
        RivalSystem { rivals: Vec::new(), id_counter: 0 }
    }
}

impl RivalSystem {
    /// No rivals yet.
    pub fn new() -> (s: RivalSystem)
        ensures
            s.rivals@.len() == 0,
            s.id_counter == 0,
    {
        RivalSystem { rivals: Vec::new(), id_counter: 0 }
    }

    /// Adds a new rival with the next id ("rival_1", "rival_2", ...).
    pub fn add(&mut self, kind: RivalKind, name: &str) -> (r: &Rival)
        requires
            old(self).id_counter < u32::MAX,
        ensures
            final(self).id_counter == old(self).id_counter + 1,
            final(self).rivals@.len() == old(self).rivals@.len() + 1,
            final(self).rivals@.drop_last() == old(self).rivals@,
            final(self).rivals@.last().id@ == "rival_"@ + decimal_text(final(self).id_counter as nat),
            final(self).rivals@.last().name@ == name@,
            final(self).rivals@.last().kind == kind,
            final(self).rivals@.last().disposition == RivalDisposition::Hostile,
            final(self).rivals@.last().faction.is_none(),
            final(self).rivals@.last().bounty == 0,
            final(self).rivals@.last().actions_taken == 0,
            final(self).rivals@.last().actions_received == 0,
            *r == final(self).rivals@.last(),
    {
        self.id_counter = self.id_counter + 1;
        let id = numbered("rival_", self.id_counter);
        self.rivals.push(Rival::new(id.as_str(), name, kind));
        proof {
            assert(self.rivals@.drop_last() =~= old(self).rivals@);
        }
        let last = self.rivals.len() - 1;
        &self.rivals[last]
    }

    /// The first rival with this id.
    pub fn get(&self, id: &str) -> (r: Option<&Rival>)
        ensures
            r is None <==> (forall|k: int| 0 <= k < self.rivals@.len() ==> self.rivals@[k].id@ != id@),
            forall|k: int| #[trigger] first_rival(self.rivals@, id@, k) ==> r == Some(&self.rivals@[k]),
    {
        let key: String = id.to_owned();
        let n = self.rivals.len();
        let mut i: usize = 0;
        while i < n
            invariant
                n == self.rivals@.len(),
                key@ == id@,
                0 <= i <= n,
                forall|j: int| 0 <= j < i ==> (#[trigger] self.rivals@[j]).id@ != id@,
            decreases n - i,
        {
            if self.rivals[i].id == key {
                proof {
                    assert(first_rival(self.rivals@, id@, i as int));
                    assert forall|k: int| #[trigger] first_rival(self.rivals@, id@, k) implies k == i as int by {
                        if k < i as int {} else if k > i as int {}
                    }
                }
                return Some(&self.rivals[i]);
            }
            i = i + 1;
        }
        None
    }

    /// How many rivals are hostile.
    pub fn hostile_count(&self) -> (n: usize)
        ensures
            n == hostile_in(self.rivals@),
    {
        let len = self.rivals.len();
        let mut count: usize = 0;
        let mut i: usize = 0;
        while i < len
            invariant
                len == self.rivals@.len(),
                0 <= i <= len,
                count == hostile_in(self.rivals@.take(i as int)),
                count <= i,
            decreases len - i,
        {
            proof {
                assert(self.rivals@.take(i as int + 1).drop_last() =~= self.rivals@.take(i as int));
            }
            if self.rivals[i].disposition == RivalDisposition::Hostile {
                count = count + 1;
            }
            i = i + 1;
        }
        proof {
            assert(self.rivals@.take(len as int) =~= self.rivals@);
        }
        count
    }

    /// All bounties on the player together.
    pub fn total_bounty(&self) -> (t: u64)
        requires
            bounty_sum(self.rivals@) <= u64::MAX,
        ensures
            t == bounty_sum(self.rivals@),
    {
        let len = self.rivals.len();
        let mut total: u64 = 0;
        let mut i: usize = 0;
        while i < len
            invariant
                len == self.rivals@.len(),
                0 <= i <= len,
                total == bounty_sum(self.rivals@.take(i as int)),
                bounty_sum(self.rivals@) <= u64::MAX,
            decreases len - i,
        {
            proof {
                assert(self.rivals@.take(i as int + 1).drop_last() =~= self.rivals@.take(i as int));
                lemma_bounty_sum_prefix(self.rivals@, i as int + 1);
            }
            total = total + self.rivals[i].bounty as u64;
            i = i + 1;
        }
        proof {
            assert(self.rivals@.take(len as int) =~= self.rivals@);
        }
        total
    }
}

} // verus!
