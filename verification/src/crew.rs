//! Crew: the player's allies, their roles and the roster.

use vstd::prelude::*;

verus! {

/// Speciality of a crew member.
#[derive(Debug, Clone, Copy, PartialEq, Eq, Structural, Hash)]
pub enum CrewRole {
    /// All-rounder for small jobs.
    Runner,
    /// Vehicles, getaways, racing.
    Driver,
    /// Weapons and lethal conflict.
    Gunman,
    /// Stealth, lockpicking, infiltration.
    Infiltrator,
    /// Negotiation, contacts, information.
    Fixer,
    /// Healer.
    Medic,
}

/// Display name of a `CrewRole`.
pub open spec fn crew_role_label(x: CrewRole) -> Seq<char> {
    match x {
        CrewRole::Runner => "Runner"@,
        CrewRole::Driver => "Driver"@,
        CrewRole::Gunman => "Gunman"@,
        CrewRole::Infiltrator => "Ghost"@,
        CrewRole::Fixer => "Fixer"@,
        CrewRole::Medic => "Medic"@,
    }
}

impl CrewRole {
    pub fn label(&self) -> (s: &'static str)
        ensures
            s@ == crew_role_label(*self),
    {
        match self {
            CrewRole::Runner => "Runner",
            CrewRole::Driver => "Driver",
            CrewRole::Gunman => "Gunman",
            CrewRole::Infiltrator => "Ghost",
            CrewRole::Fixer => "Fixer",
            CrewRole::Medic => "Medic",
        }
    }
}
/// One-off hiring cost in cash.
pub open spec fn hire_cost_of(r: CrewRole) -> u32 {
    match r {
        CrewRole::Runner => 500,
        CrewRole::Driver => 2_000,
        CrewRole::Gunman => 2_500,
        CrewRole::Infiltrator => 3_000,
        CrewRole::Fixer => 4_000,
        CrewRole::Medic => 1_500,
    }
}

impl CrewRole {
    /// One-off hiring cost in cash.
    pub fn hire_cost(&self) -> (c: u32)
        ensures
            c == hire_cost_of(*self),
    {
        match self {
            CrewRole::Runner => 500,
            CrewRole::Driver => 2_000,
            CrewRole::Gunman => 2_500,
            CrewRole::Infiltrator => 3_000,
            CrewRole::Fixer => 4_000,
            CrewRole::Medic => 1_500,
        }
    }
}

/// A crew member's identity, role and availability.
#[derive(Debug, Clone)]
pub struct CrewMember {
    pub id: String,
    pub name: String,
    pub role: CrewRole,
    /// Safehouse where they stand by, if any.
    pub home_safehouse: Option<String>,
    /// Ready for a job?
    pub ready: bool,
    /// Compromised (can blackmail the player).
    pub compromised: bool,
    pub level: u32,
}

impl CrewMember {
    /// A ready, level-1 member with no home safehouse.
    pub fn new(id: &str, name: &str, role: CrewRole) -> (m: CrewMember)
        ensures
            m.id@ == id@,
            m.name@ == name@,
            m.role == role,
            m.home_safehouse.is_none(),
            m.ready,
            !m.compromised,
            m.level == 1,
    {
        CrewMember {
            id: id.to_owned(),
            name: name.to_owned(),
            role,
            home_safehouse: None,
            ready: true,
            compromised: false,
            level: 1,
        }
    }
}

/// Does this member keep its place when firing `id`?
pub open spec fn keeps(id: Seq<char>) -> spec_fn(CrewMember) -> bool {
    |m: CrewMember| m.id@ != id
}

/// Is this member ready for a job?
pub open spec fn is_ready() -> spec_fn(CrewMember) -> bool {
    |m: CrewMember| m.ready
}

/// `k` is the first member with this id.
pub open spec fn first_member(ms: Seq<CrewMember>, id: Seq<char>, k: int) -> bool {
    &&& 0 <= k < ms.len()
    &&& ms[k].id@ == id
    &&& forall|j: int| 0 <= j < k ==> ms[j].id@ != id
}

/// All hired members and the roster limit.
#[derive(Debug, Clone)]
pub struct Crew {
    pub members: Vec<CrewMember>,
    pub max_size: u32,
}

impl Default for Crew {
    fn default() -> (c: Crew)
        ensures
            c.members@.len() == 0,
            c.max_size == 0,
    {
        Crew { members: Vec::new(), max_size: 0 }
    }
}

impl Crew {
    /// An empty crew with room for six.
    pub fn new() -> (c: Crew)
        ensures
            c.members@.len() == 0,
            c.max_size == 6,
    {
        Crew { members: Vec::new(), max_size: 6 }
    }

    /// Hires a member unless the roster is full (false, nothing changes).
    pub fn hire(&mut self, m: CrewMember) -> (ok: bool)
        ensures
            ok == ((old(self).members@.len() as u32) < old(self).max_size),
            ok ==> final(self).members@ == old(self).members@.push(m),
            !ok ==> final(self).members@ == old(self).members@,
            final(self).max_size == old(self).max_size,
    {
        let len = self.members.len() as u32;
        if len >= self.max_size {
            return false;
        }
        self.members.push(m);
        true
    }

    /// Fires every member with this id; the others keep their order.
    pub fn fire(&mut self, id: &str)
        ensures
            final(self).members@ == old(self).members@.filter(keeps(id@)),
            final(self).max_size == old(self).max_size,
    {
        let key: String = id.to_owned();
        let mut rest: Vec<CrewMember> = Vec::new();
        std::mem::swap(&mut rest, &mut self.members);
        let ghost orig = rest@;
        let n = rest.len();
        let mut i: usize = 0;
        while i < n
            invariant
                n == orig.len(),
                0 <= i <= n,
                key@ == id@,
                rest@ == orig.subrange(i as int, n as int),
                self.members@ == orig.take(i as int).filter(keeps(id@)),
                self.max_size == old(self).max_size,
            decreases n - i,
        {
            let m = rest.remove(0);
            proof {
                assert(m == orig[i as int]);
                assert(orig.take(i as int + 1) =~= orig.take(i as int).push(m));
                orig.take(i as int).lemma_filter_push(m, keeps(id@));
                assert(rest@ =~= orig.subrange(i as int + 1, n as int));
            }
            if m.id != key {
                self.members.push(m);
            }
            i = i + 1;
        }
        proof {
            assert(orig.take(n as int) =~= orig);
        }
    }

    /// The first member with this id.
    pub fn get(&self, id: &str) -> (r: Option<&CrewMember>)
        ensures
            r is None <==> (forall|k: int| 0 <= k < self.members@.len() ==> self.members@[k].id@ != id@),
            forall|k: int| #[trigger] first_member(self.members@, id@, k) ==> r == Some(&self.members@[k]),
    {
        let key: String = id.to_owned();
        let n = self.members.len();
        let mut i: usize = 0;
        while i < n
            invariant
                n == self.members@.len(),
                key@ == id@,
                0 <= i <= n,
                forall|j: int| 0 <= j < i ==> (#[trigger] self.members@[j]).id@ != id@,
            decreases n - i,
        {
            if self.members[i].id == key {
                proof {
                    assert(first_member(self.members@, id@, i as int));
                    assert forall|k: int| #[trigger] first_member(self.members@, id@, k) implies k == i as int by {
                        if k < i as int {} else if k > i as int {}
                    }
                }
                return Some(&self.members[i]);
            }
            i = i + 1;
        }
        None
    }

    /// The members ready for a job, in roster order.
    pub fn ready(&self) -> (r: Vec<&CrewMember>)
        ensures
            r@.map_values(|m: &CrewMember| *m) == self.members@.filter(is_ready()),
    {
        let mut r: Vec<&CrewMember> = Vec::new();
        let n = self.members.len();
        let mut i: usize = 0;
        while i < n
            invariant
                n == self.members@.len(),
                0 <= i <= n,
                r@.map_values(|m: &CrewMember| *m) == self.members@.take(i as int).filter(is_ready()),
            decreases n - i,
        {
            let m = &self.members[i];
            proof {
                assert(self.members@.take(i as int + 1) =~= self.members@.take(i as int).push(*m));
                self.members@.take(i as int).lemma_filter_push(*m, is_ready());
            }
            if m.ready {
                let ghost before = r@;
                r.push(m);
                proof {
                    assert(r@.map_values(|m: &CrewMember| *m) =~= before.map_values(|m: &CrewMember| *m).push(*m));
                }
            }
            i = i + 1;
        }
        proof {
            assert(self.members@.take(n as int) =~= self.members@);
        }
        r
    }

    /// Vito (driver) and Dana (ghost), in a crew of up to six.
    pub fn with_starter() -> (c: Crew)
        ensures
            c.max_size == 6,
            c.members@.len() == 2,
            c.members@[0].id@ == "crew_vito"@,
            c.members@[0].name@ == "Vito"@,
            c.members@[0].role == CrewRole::Driver,
            c.members@[1].id@ == "crew_dana"@,
            c.members@[1].name@ == "Dana"@,
            c.members@[1].role == CrewRole::Infiltrator,
            forall|k: int| 0 <= k < 2 ==> (#[trigger] c.members@[k]).ready && !c.members@[k].compromised
                && c.members@[k].level == 1 && c.members@[k].home_safehouse.is_none(),
    {
        let mut crew = Crew::new();
        let _v = crew.hire(CrewMember::new("crew_vito", "Vito", CrewRole::Driver));
        let _d = crew.hire(CrewMember::new("crew_dana", "Dana", CrewRole::Infiltrator));
        crew
    }
}

/// A fired member is gone: no member with that id remains.
pub proof fn lemma_fire_removes_all(ms: Seq<CrewMember>, id: Seq<char>)
    ensures
        forall|k: int| 0 <= k < ms.filter(keeps(id)).len() ==> (#[trigger] ms.filter(keeps(id))[k]).id@ != id,
        ms.filter(keeps(id)).len() <= ms.len(),
{
    ms.lemma_filter_len(keeps(id));
    assert forall|k: int| 0 <= k < ms.filter(keeps(id)).len() implies (#[trigger] ms.filter(keeps(id))[k]).id@ != id by {
        ms.lemma_filter_pred(keeps(id), k);
    }
}


/// A new member's loyalty (0-100).
pub const STARTING_LOYALTY: u32 = 50;

/// A new member's fear (0-100).
pub const STARTING_FEAR: u32 = 20;

/// A new member's morals (0-100).
pub const STARTING_MORALS: u32 = 30;

/// How a member's loyalty of `loyalty` whole points reads: family from 80,
/// loyal from 60, reliable from 40, shaky from 20, risky below. (For a
/// fractional loyalty the reading is that of its whole part.)
pub open spec fn loyalty_status_text(loyalty: int) -> Seq<char> {
    if loyalty >= 80 {
        "Family"@
    } else if loyalty >= 60 {
        "Loyal"@
    } else if loyalty >= 40 {
        "Reliable"@
    } else if loyalty >= 20 {
        "Shaky"@
    } else {
        "Risky"@
    }
}

/// How a loyalty of `loyalty` whole points reads.
pub fn loyalty_status(loyalty: u32) -> (s: &'static str)
    ensures
        s@ == loyalty_status_text(loyalty as int),
{
    if loyalty >= 80 {
        "Family"
    } else if loyalty >= 60 {
        "Loyal"
    } else if loyalty >= 40 {
        "Reliable"
    } else if loyalty >= 20 {
        "Shaky"
    } else {
        "Risky"
    }
}

/// Whether a member with these morals and this fear (whole points) takes
/// on a violent job: only with morals under 70 and fear under 60.
pub fn will_do_violence(morals: u32, fear: u32) -> (b: bool)
    ensures
        b == (morals < 70 && fear < 60),
{
    morals < 70 && fear < 60
}

} // verus!
