//! Safehouses: the player's hideouts, each with a stash and a garage whose
//! sizes depend on the kind of property.

use vstd::prelude::*;

verus! {

/// Kind of property, from a single room to a mansion.
#[derive(Debug, Clone, Copy, PartialEq, Eq, Structural, Hash)]
pub enum SafehouseKind {
    /// A room: tiny stash, no garage, cheap.
    CrashPad,
    /// Flat: stash and a small garage.
    Apartment,
    /// Town house: stash, garage and a crew room.
    Townhouse,
    /// Industrial unit: large garage and stash.
    Warehouse,
    /// Full luxury, bought with clean money.
    Mansion,
}

/// Display name of a `SafehouseKind`.
pub open spec fn safehouse_kind_label(x: SafehouseKind) -> Seq<char> {
    match x {
        SafehouseKind::CrashPad => "Crash Pad"@,
        SafehouseKind::Apartment => "Apartment"@,
        SafehouseKind::Townhouse => "Townhouse"@,
        SafehouseKind::Warehouse => "Warehouse"@,
        SafehouseKind::Mansion => "Mansion"@,
    }
}

impl SafehouseKind {
    pub fn label(&self) -> (s: &'static str)
        ensures
            s@ == safehouse_kind_label(*self),
    {
        match self {
            SafehouseKind::CrashPad => "Crash Pad",
            SafehouseKind::Apartment => "Apartment",
            SafehouseKind::Townhouse => "Townhouse",
            SafehouseKind::Warehouse => "Warehouse",
            SafehouseKind::Mansion => "Mansion",
        }
    }
}
/// Purchase price.
pub open spec fn base_price_of(k: SafehouseKind) -> u32 {
    match k {
        SafehouseKind::CrashPad => 5_000,
        SafehouseKind::Apartment => 25_000,
        SafehouseKind::Townhouse => 80_000,
        SafehouseKind::Warehouse => 150_000,
        SafehouseKind::Mansion => 500_000,
    }
}

/// How many items the stash holds.
pub open spec fn stash_capacity_of(k: SafehouseKind) -> u32 {
    match k {
        SafehouseKind::CrashPad => 5,
        SafehouseKind::Apartment => 20,
        SafehouseKind::Townhouse => 50,
        SafehouseKind::Warehouse => 200,
        SafehouseKind::Mansion => 100,
    }
}

/// How many vehicles the garage holds.
pub open spec fn garage_capacity_of(k: SafehouseKind) -> u32 {
    match k {
        SafehouseKind::CrashPad => 0,
        SafehouseKind::Apartment => 1,
        SafehouseKind::Townhouse => 2,
        SafehouseKind::Warehouse => 6,
        SafehouseKind::Mansion => 4,
    }
}

/// How many crew members can meet there.
pub open spec fn crew_capacity_of(k: SafehouseKind) -> u32 {
    match k {
        SafehouseKind::CrashPad => 0,
        SafehouseKind::Apartment => 1,
        SafehouseKind::Townhouse => 3,
        SafehouseKind::Warehouse => 5,
        SafehouseKind::Mansion => 8,
    }
}

impl SafehouseKind {
    pub fn base_price(&self) -> (p: u32)
        ensures
            p == base_price_of(*self),
    {
        match self {
            SafehouseKind::CrashPad => 5_000,
            SafehouseKind::Apartment => 25_000,
            SafehouseKind::Townhouse => 80_000,
            SafehouseKind::Warehouse => 150_000,
            SafehouseKind::Mansion => 500_000,
        }
    }

    /// Only a mansion must be bought officially, with clean money; a town
    /// house may be paid in cash or clean money, the rest in cash.
    pub fn requires_clean(&self) -> (b: bool)
        ensures
            b == (*self == SafehouseKind::Mansion),
    {
        match self {
            SafehouseKind::Mansion => true,
            _ => false,
        }
    }

    pub fn stash_capacity(&self) -> (c: u32)
        ensures
            c == stash_capacity_of(*self),
    {
        match self {
            SafehouseKind::CrashPad => 5,
            SafehouseKind::Apartment => 20,
            SafehouseKind::Townhouse => 50,
            SafehouseKind::Warehouse => 200,
            SafehouseKind::Mansion => 100,
        }
    }

    pub fn garage_capacity(&self) -> (c: u32)
        ensures
            c == garage_capacity_of(*self),
    {
        match self {
            SafehouseKind::CrashPad => 0,
            SafehouseKind::Apartment => 1,
            SafehouseKind::Townhouse => 2,
            SafehouseKind::Warehouse => 6,
            SafehouseKind::Mansion => 4,
        }
    }

    pub fn crew_capacity(&self) -> (c: u32)
        ensures
            c == crew_capacity_of(*self),
    {
        match self {
            SafehouseKind::CrashPad => 0,
            SafehouseKind::Apartment => 1,
            SafehouseKind::Townhouse => 3,
            SafehouseKind::Warehouse => 5,
            SafehouseKind::Mansion => 8,
        }
    }
}

/// A stash seen as (item id, count) pairs.
pub open spec fn stash_view(s: Seq<(String, u32)>) -> Seq<(Seq<char>, u32)> {
    s.map_values(|e: (String, u32)| (e.0@, e.1))
}

/// Total number of items over all stash entries.
pub open spec fn stash_total(s: Seq<(Seq<char>, u32)>) -> int
    decreases s.len(),
{
    if s.len() == 0 {
        0
    } else {
        stash_total(s.drop_last()) + s.last().1
    }
}

/// `k` is the first stash entry for this item id.
pub open spec fn first_stash_entry(s: Seq<(Seq<char>, u32)>, id: Seq<char>, k: int) -> bool {
    &&& 0 <= k < s.len()
    &&& s[k].0 == id
    &&& forall|j: int| 0 <= j < k ==> s[j].0 != id
}

/// The stash with `count` more of `id`: added to the first entry for `id`,
/// or appended as a new entry when there is none.
pub open spec fn stash_with(s: Seq<(Seq<char>, u32)>, id: Seq<char>, count: u32) -> Seq<(Seq<char>, u32)> {
    if exists|k: int| first_stash_entry(s, id, k) {
        let k = choose|k: int| first_stash_entry(s, id, k);
        s.update(k, (id, (s[k].1 + count) as u32))
    } else {
        s.push((id, count))
    }
}

/// A stash total is never negative.
pub proof fn lemma_stash_total_nonneg(s: Seq<(Seq<char>, u32)>)
    ensures
        stash_total(s) >= 0,
    decreases s.len(),
{
    if s.len() > 0 {
        lemma_stash_total_nonneg(s.drop_last());
    }
}

/// A prefix of the stash never holds more than the whole stash.
pub proof fn lemma_stash_total_prefix(s: Seq<(Seq<char>, u32)>, i: int)
    requires
        0 <= i <= s.len(),
    ensures
        0 <= stash_total(s.take(i)) <= stash_total(s),
    decreases s.len(),
{
    lemma_stash_total_nonneg(s.take(i));
    if i < s.len() {
        lemma_stash_total_prefix(s.drop_last(), i);
        assert(s.drop_last().take(i) =~= s.take(i));
    } else {
        assert(s.take(i) =~= s);
    }
}

/// Replacing one entry's count changes the total by the difference.
pub proof fn lemma_stash_total_update(s: Seq<(Seq<char>, u32)>, k: int, e: (Seq<char>, u32))
    requires
        0 <= k < s.len(),
    ensures
        stash_total(s.update(k, e)) == stash_total(s) - s[k].1 + e.1,
    decreases s.len(),
{
    if k == s.len() - 1 {
        assert(s.update(k, e).drop_last() =~= s.drop_last());
    } else {
        lemma_stash_total_update(s.drop_last(), k, e);
        assert(s.update(k, e).drop_last() =~= s.drop_last().update(k, e));
    }
}

/// A single entry never holds more than the whole stash.
pub proof fn lemma_stash_entry_le_total(s: Seq<(Seq<char>, u32)>, k: int)
    requires
        0 <= k < s.len(),
    ensures
        s[k].1 <= stash_total(s),
    decreases s.len(),
{
    lemma_stash_total_nonneg(s.drop_last());
    if k < s.len() - 1 {
        lemma_stash_entry_le_total(s.drop_last(), k);
    }
}

/// Adding to the stash, along either path, raises the total by the count.
pub proof fn lemma_stash_with_total(s: Seq<(Seq<char>, u32)>, id: Seq<char>, count: u32)
    requires
        stash_total(s) + count <= u32::MAX,
    ensures
        stash_total(stash_with(s, id, count)) == stash_total(s) + count,
{
    if exists|k: int| first_stash_entry(s, id, k) {
        let k = choose|k: int| first_stash_entry(s, id, k);
        lemma_stash_entry_le_total(s, k);
        lemma_stash_total_update(s, k, (id, (s[k].1 + count) as u32));
    } else {
        assert(s.push((id, count)).drop_last() =~= s);
    }
}

/// An owned safehouse: stash (item id and count), garage (vehicle ids) and
/// the disguise currently laid out there.
#[derive(Debug, Clone)]
pub struct Safehouse {
    pub id: String,
    pub kind: SafehouseKind,
    pub zone: String,
    /// Label shown in the UI.
    pub address: String,
    pub stash: Vec<(String, u32)>,
    pub garage: Vec<String>,
    pub active_disguise: Option<String>,
}

impl Safehouse {
    /// The stash never holds more than the kind allows.
    pub open spec fn within_capacity(&self) -> bool {
        stash_total(stash_view(self.stash@)) <= stash_capacity_of(self.kind)
    }

    /// An empty safehouse of this kind.
    pub fn new(id: &str, kind: SafehouseKind, zone: &str, address: &str) -> (sh: Safehouse)
        ensures
            sh.id@ == id@,
            sh.kind == kind,
            sh.zone@ == zone@,
            sh.address@ == address@,
            sh.stash@.len() == 0,
            sh.garage@.len() == 0,
            sh.active_disguise.is_none(),
            sh.within_capacity(),
    {
        Safehouse {
            id: id.to_owned(),
            kind,
            zone: zone.to_owned(),
            address: address.to_owned(),
            stash: Vec::new(),
            garage: Vec::new(),
            active_disguise: None,
        }
    }

    /// Puts `count` of an item in the stash. Refused (false, nothing
    /// changes) when the stash total would exceed the kind's capacity.
    pub fn stash_add(&mut self, item_id: &str, count: u32) -> (ok: bool)
        requires
            stash_total(stash_view(old(self).stash@)) + count <= u32::MAX,
        ensures
            ok == (stash_total(stash_view(old(self).stash@)) + count <= stash_capacity_of(old(self).kind)),
            ok ==> stash_view(final(self).stash@) == stash_with(stash_view(old(self).stash@), item_id@, count),
            !ok ==> final(self).stash@ == old(self).stash@,
            ok ==> stash_total(stash_view(final(self).stash@)) == stash_total(stash_view(old(self).stash@)) + count,
            ok ==> final(self).within_capacity(),
            final(self).id == old(self).id,
            final(self).kind == old(self).kind,
            final(self).zone == old(self).zone,
            final(self).address == old(self).address,
            final(self).garage == old(self).garage,
            final(self).active_disguise == old(self).active_disguise,
    {
        let cap = self.kind.stash_capacity();
        let ghost sv = stash_view(self.stash@);
        let n = self.stash.len();
        let mut total: u64 = 0;
        let mut i: usize = 0;
        while i < n
            invariant
                n == self.stash@.len(),
                *self == *old(self),
                sv == stash_view(self.stash@),
                sv.len() == n,
                stash_total(sv) + count <= u32::MAX,
                0 <= i <= n,
                total == stash_total(sv.take(i as int)),
            decreases n - i,
        {
            proof {
                lemma_stash_total_prefix(sv, i as int + 1);
                assert(sv.take(i as int + 1).drop_last() =~= sv.take(i as int));
                assert(sv[i as int].1 == self.stash@[i as int].1);
            }
            total = total + self.stash[i].1 as u64;
            i = i + 1;
        }
        proof {
            assert(sv.take(n as int) =~= sv);
        }
        if total + count as u64 > cap as u64 {
            return false;
        }
        proof {
            lemma_stash_with_total(sv, item_id@, count);
        }
        let key: String = item_id.to_owned();
        let mut j: usize = 0;
        while j < n
            invariant
                n == self.stash@.len(),
                *self == *old(self),
                sv == stash_view(self.stash@),
                sv.len() == n,
                key@ == item_id@,
                stash_total(sv) + count <= cap,
                cap == stash_capacity_of(old(self).kind),
                stash_total(stash_with(sv, item_id@, count)) == stash_total(sv) + count,
                0 <= j <= n,
                forall|m: int| 0 <= m < j ==> sv[m].0 != item_id@,
            decreases n - j,
        {
            if self.stash[j].0 == key {
                proof {
                    assert(first_stash_entry(sv, item_id@, j as int));
                    assert forall|k: int| first_stash_entry(sv, item_id@, k) implies k == j as int by {
                        if k < j as int {} else if k > j as int { assert(sv[j as int].0 == item_id@); }
                    }
                    lemma_stash_entry_le_total(sv, j as int);
                }
                let c = self.stash[j].1;
                self.stash[j].1 = c + count;
                proof {
                    assert(stash_view(self.stash@) =~= sv.update(j as int, (item_id@, (c + count) as u32)));
                }
                return true;
            }
            j = j + 1;
        }
        self.stash.push((key, count));
        proof {
            assert(stash_view(self.stash@) =~= sv.push((item_id@, count)));
        }
        true
    }

    /// Parks a vehicle. Refused (false, nothing changes) when the garage
    /// already holds as many vehicles as the kind allows.
    pub fn garage_add(&mut self, def_id: &str) -> (ok: bool)
        ensures
            ok == ((old(self).garage@.len() as u32) < garage_capacity_of(old(self).kind)),
            ok ==> final(self).garage@.len() == old(self).garage@.len() + 1,
            ok ==> final(self).garage@.last()@ == def_id@,
            ok ==> final(self).garage@.drop_last() == old(self).garage@,
            !ok ==> final(self).garage@ == old(self).garage@,
            final(self).id == old(self).id,
            final(self).kind == old(self).kind,
            final(self).zone == old(self).zone,
            final(self).address == old(self).address,
            final(self).stash == old(self).stash,
            final(self).active_disguise == old(self).active_disguise,
    {
        let len = self.garage.len() as u32;
        if len >= self.kind.garage_capacity() {
            return false;
        }
        self.garage.push(def_id.to_owned());
        proof {
            assert(self.garage@.drop_last() =~= old(self).garage@);
        }
        true
    }

    /// Lays out a disguise (or clears it with `None`).
    pub fn set_disguise(&mut self, item_id: Option<String>)
        ensures
            final(self).active_disguise == item_id,
            final(self).id == old(self).id,
            final(self).kind == old(self).kind,
            final(self).zone == old(self).zone,
            final(self).address == old(self).address,
            final(self).stash == old(self).stash,
            final(self).garage == old(self).garage,
    {
        self.active_disguise = item_id;
    }
}

/// `k` is the first owned safehouse with this id.
pub open spec fn first_owned(owned: Seq<Safehouse>, id: Seq<char>, k: int) -> bool {
    &&& 0 <= k < owned.len()
    &&& owned[k].id@ == id
    &&& forall|j: int| 0 <= j < k ==> owned[j].id@ != id
}

/// What a lookup by id finds: the first safehouse with that id.
pub open spec fn lookup_owned(owned: Seq<Safehouse>, id: Seq<char>) -> Option<Safehouse> {
    if exists|k: int| 0 <= k < owned.len() && owned[k].id@ == id {
        Some(owned[choose|k: int| first_owned(owned, id, k)])
    } else {
        None
    }
}

/// Among safehouses with this id there is always a first one.
pub proof fn lemma_first_owned_exists(owned: Seq<Safehouse>, id: Seq<char>)
    requires
        exists|k: int| 0 <= k < owned.len() && owned[k].id@ == id,
    ensures
        exists|k: int| first_owned(owned, id, k),
    decreases owned.len(),
{
    let k0 = choose|k: int| 0 <= k < owned.len() && owned[k].id@ == id;
    if exists|j: int| 0 <= j < k0 && owned[j].id@ == id {
        let pre = owned.subrange(0, k0);
        let j = choose|j: int| 0 <= j < k0 && owned[j].id@ == id;
        assert(pre[j] == owned[j]);
        lemma_first_owned_exists(pre, id);
        let k = choose|k: int| first_owned(pre, id, k);
        assert forall|m: int| 0 <= m < k implies owned[m].id@ != id by {
            assert(pre[m] == owned[m]);
        }
        assert(pre[k] == owned[k]);
        assert(first_owned(owned, id, k));
    } else {
        assert(first_owned(owned, id, k0));
    }
}

/// The player's safehouses and which one is home.
#[derive(Debug, Clone)]
pub struct SafehousePortfolio {
    pub owned: Vec<Safehouse>,
    /// Id of the home base (where saves respawn the player).
    pub home_base: Option<String>,
}

impl Default for SafehousePortfolio {
    fn default() -> (p: SafehousePortfolio)
        ensures
            p.owned@.len() == 0,
            p.home_base.is_none(),
    {
        SafehousePortfolio { owned: Vec::new(), home_base: None }
    }
}

impl SafehousePortfolio {
    /// No safehouses, no home.
    pub fn new() -> (p: SafehousePortfolio)
        ensures
            p.owned@.len() == 0,
            p.home_base.is_none(),
    {
        SafehousePortfolio { owned: Vec::new(), home_base: None }
    }

    /// A crash pad in East Blocks as home, with a pistol in its stash (the
    /// 30 rounds of ammo do not fit a crash pad's stash of 5).
    pub fn with_starter() -> (p: SafehousePortfolio)
        ensures
            p.owned@.len() == 1,
            p.owned@[0].id@ == "sh_starter"@,
            p.owned@[0].kind == SafehouseKind::CrashPad,
            p.owned@[0].zone@ == "east_blocks"@,
            p.owned@[0].address@ == "23 East Blocks Apt 1B"@,
            stash_view(p.owned@[0].stash@) == seq![("pistol"@, 1u32)],
            p.owned@[0].garage@.len() == 0,
            p.owned@[0].active_disguise.is_none(),
            p.home_base matches Some(h) && h@ == "sh_starter"@,
    {
        let mut sh = Safehouse::new("sh_starter", SafehouseKind::CrashPad, "east_blocks", "23 East Blocks Apt 1B");
        proof {
            assert(stash_view(sh.stash@) =~= Seq::<(Seq<char>, u32)>::empty());
        }
        let _first = sh.stash_add("pistol", 1);
        proof {
            assert(stash_view(sh.stash@) =~= seq![("pistol"@, 1u32)]);
            reveal_with_fuel(stash_total, 2);
        }
        let _second = sh.stash_add("pistol_ammo", 30);
        let mut port = SafehousePortfolio::new();
        port.home_base = Some(sh.id.clone());
        port.owned.push(sh);
        port
    }

    /// Adds a bought safehouse.
    pub fn buy(&mut self, sh: Safehouse)
        ensures
            final(self).owned@ == old(self).owned@.push(sh),
            final(self).home_base == old(self).home_base,
    {
        self.owned.push(sh);
    }

    /// The first safehouse with this id.
    pub fn get(&self, id: &str) -> (r: Option<&Safehouse>)
        ensures
            r matches Some(s) ==> Some(*s) == lookup_owned(self.owned@, id@),
            r is None ==> lookup_owned(self.owned@, id@) is None,
    {
        let key: String = id.to_owned();
        let n = self.owned.len();
        let mut i: usize = 0;
        while i < n
            invariant
                n == self.owned@.len(),
                key@ == id@,
                0 <= i <= n,
                forall|j: int| 0 <= j < i ==> (#[trigger] self.owned@[j]).id@ != id@,
            decreases n - i,
        {
            if self.owned[i].id == key {
                proof {
                    assert(first_owned(self.owned@, id@, i as int));
                    lemma_first_owned_exists(self.owned@, id@);
                    let c = choose|k: int| first_owned(self.owned@, id@, k);
                    if c < i as int {} else if c > i as int {}
                }
                return Some(&self.owned[i]);
            }
            i = i + 1;
        }
        None
    }

    /// The home safehouse, when one is set and owned.
    pub fn home(&self) -> (r: Option<&Safehouse>)
        ensures
            self.home_base is None ==> r is None,
            self.home_base matches Some(h) ==> {
                &&& r matches Some(s) ==> Some(*s) == lookup_owned(self.owned@, h@)
                &&& r is None ==> lookup_owned(self.owned@, h@) is None
            },
    {
        match &self.home_base {
            Some(h) => self.get(h.as_str()),
            None => None,
        }
    }
}

} // verus!
