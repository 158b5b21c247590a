//! Front businesses: they launder cash into clean money and pay a passive
//! clean income.

use vstd::prelude::*;

verus! {

/// Kind of front business.
#[derive(Debug, Clone, Copy, PartialEq, Eq, Structural, Hash)]
pub enum BusinessKind {
    CarWash,
    Pizzeria,
    Bar,
    Scrapyard,
    Nightclub,
    AutoShop,
    PawnShop,
    TaxiCentral,
    Warehouse,
    StripMall,
    Bodega,
    Laundromat,
}

/// Display name of a `BusinessKind`.
pub open spec fn business_kind_label(x: BusinessKind) -> Seq<char> {
    match x {
        BusinessKind::CarWash => "Car Wash"@,
        BusinessKind::Pizzeria => "Pizzeria"@,
        BusinessKind::Bar => "Bar"@,
        BusinessKind::Scrapyard => "Scrapyard"@,
        BusinessKind::Nightclub => "Nightclub"@,
        BusinessKind::AutoShop => "Auto Shop"@,
        BusinessKind::PawnShop => "Pawn Shop"@,
        BusinessKind::TaxiCentral => "Taxi Central"@,
        BusinessKind::Warehouse => "Warehouse"@,
        BusinessKind::StripMall => "Strip Mall"@,
        BusinessKind::Bodega => "Bodega"@,
        BusinessKind::Laundromat => "Laundromat"@,
    }
}

impl BusinessKind {
    pub fn label(&self) -> (s: &'static str)
        ensures
            s@ == business_kind_label(*self),
    {
        match self {
            BusinessKind::CarWash => "Car Wash",
            BusinessKind::Pizzeria => "Pizzeria",
            BusinessKind::Bar => "Bar",
            BusinessKind::Scrapyard => "Scrapyard",
            BusinessKind::Nightclub => "Nightclub",
            BusinessKind::AutoShop => "Auto Shop",
            BusinessKind::PawnShop => "Pawn Shop",
            BusinessKind::TaxiCentral => "Taxi Central",
            BusinessKind::Warehouse => "Warehouse",
            BusinessKind::StripMall => "Strip Mall",
            BusinessKind::Bodega => "Bodega",
            BusinessKind::Laundromat => "Laundromat",
        }
    }
}
/// Purchase price in cash.
pub open spec fn purchase_price_of(k: BusinessKind) -> u32 {
    match k {
        BusinessKind::CarWash => 30000,
        BusinessKind::Pizzeria => 40000,
        BusinessKind::Bar => 60000,
        BusinessKind::Scrapyard => 80000,
        BusinessKind::Nightclub => 200000,
        BusinessKind::AutoShop => 75000,
        BusinessKind::PawnShop => 50000,
        BusinessKind::TaxiCentral => 100000,
        BusinessKind::Warehouse => 120000,
        BusinessKind::StripMall => 90000,
        BusinessKind::Bodega => 25000,
        BusinessKind::Laundromat => 35000,
    }
}
/// Clean income paid at each income interval.
pub open spec fn passive_income_of(k: BusinessKind) -> u32 {
    match k {
        BusinessKind::CarWash => 50,
        BusinessKind::Pizzeria => 80,
        BusinessKind::Bar => 120,
        BusinessKind::Scrapyard => 150,
        BusinessKind::Nightclub => 400,
        BusinessKind::AutoShop => 140,
        BusinessKind::PawnShop => 100,
        BusinessKind::TaxiCentral => 180,
        BusinessKind::Warehouse => 200,
        BusinessKind::StripMall => 160,
        BusinessKind::Bodega => 40,
        BusinessKind::Laundromat => 60,
    }
}
impl BusinessKind {
    /// Purchase price in cash.
    pub fn purchase_price(&self) -> (v: u32)
        ensures
            v == purchase_price_of(*self),
    {
        match self {
            BusinessKind::CarWash => 30000,
            BusinessKind::Pizzeria => 40000,
            BusinessKind::Bar => 60000,
            BusinessKind::Scrapyard => 80000,
            BusinessKind::Nightclub => 200000,
            BusinessKind::AutoShop => 75000,
            BusinessKind::PawnShop => 50000,
            BusinessKind::TaxiCentral => 100000,
            BusinessKind::Warehouse => 120000,
            BusinessKind::StripMall => 90000,
            BusinessKind::Bodega => 25000,
            BusinessKind::Laundromat => 35000,
        }
    }
    /// Clean income paid at each income interval.
    pub fn passive_income(&self) -> (v: u32)
        ensures
            v == passive_income_of(*self),
    {
        match self {
            BusinessKind::CarWash => 50,
            BusinessKind::Pizzeria => 80,
            BusinessKind::Bar => 120,
            BusinessKind::Scrapyard => 150,
            BusinessKind::Nightclub => 400,
            BusinessKind::AutoShop => 140,
            BusinessKind::PawnShop => 100,
            BusinessKind::TaxiCentral => 180,
            BusinessKind::Warehouse => 200,
            BusinessKind::StripMall => 160,
            BusinessKind::Bodega => 40,
            BusinessKind::Laundromat => 60,
        }
    }
}

/// An owned business: cash waiting to be laundered, clean money waiting to
/// be collected, and whether it is open.
#[derive(Debug, Clone)]
pub struct Business {
    pub id: String,
    pub kind: BusinessKind,
    pub zone: String,
    pub address: String,
    /// Cash in the pipeline, waiting to be laundered.
    pub cash_pending: u32,
    /// Clean money accumulated since the last collection.
    pub clean_pending: u32,
    /// False while closed (after a raid or by decision).
    pub active: bool,
}

/// Cash that one tick launders: nothing while closed, when the batch is
/// empty or when less cash than the batch is waiting.
pub open spec fn laundered_by_tick(b: Business, to_launder: u32) -> u32 {
    if b.active && to_launder > 0 && b.cash_pending >= to_launder { to_launder } else { 0 }
}

/// Income that one tick pays: the kind's income when the interval is due
/// and the business is open.
pub open spec fn paid_by_tick(b: Business, income_due: bool) -> u32 {
    if b.active && income_due { passive_income_of(b.kind) } else { 0 }
}

impl Business {
    /// An open business with nothing pending.
    pub fn new(id: &str, kind: BusinessKind, zone: &str, address: &str) -> (b: Business)
        ensures
            b.id@ == id@,
            b.kind == kind,
            b.zone@ == zone@,
            b.address@ == address@,
            b.cash_pending == 0,
            b.clean_pending == 0,
            b.active,
    {
        Business {
            id: id.to_owned(),
            kind,
            zone: zone.to_owned(),
            address: address.to_owned(),
            cash_pending: 0,
            clean_pending: 0,
            active: true,
        }
    }

    /// Puts cash into the laundering pipeline (saturating at `u32::MAX`).
    pub fn deposit_cash(&mut self, amount: u32)
        ensures
            final(self).cash_pending == if old(self).cash_pending + amount > u32::MAX {
                u32::MAX as int
            } else {
                old(self).cash_pending + amount
            },
            final(self).clean_pending == old(self).clean_pending,
            final(self).active == old(self).active,
            final(self).kind == old(self).kind,
            final(self).id == old(self).id,
            final(self).zone == old(self).zone,
            final(self).address == old(self).address,
    {
        self.cash_pending = self.cash_pending.saturating_add(amount);
    }

    /// The money side of one tick: launders a batch of `to_launder` cash
    /// (only when that much is waiting) and, when `income_due`, pays the
    /// kind's passive income into clean money. A closed business does
    /// nothing. Returns the income paid.
    pub fn apply_tick(&mut self, to_launder: u32, income_due: bool) -> (payout: u32)
        requires
            old(self).clean_pending + laundered_by_tick(*old(self), to_launder)
                + paid_by_tick(*old(self), income_due) <= u32::MAX,
        ensures
            payout == paid_by_tick(*old(self), income_due),
            final(self).cash_pending == old(self).cash_pending - laundered_by_tick(*old(self), to_launder),
            final(self).clean_pending == old(self).clean_pending + laundered_by_tick(*old(self), to_launder)
                + payout,
            final(self).active == old(self).active,
            final(self).kind == old(self).kind,
            final(self).id == old(self).id,
            final(self).zone == old(self).zone,
            final(self).address == old(self).address,
    {
        if !self.active {
            return 0;
        }
        if to_launder > 0 && self.cash_pending >= to_launder {
            self.cash_pending = self.cash_pending - to_launder;
            self.clean_pending = self.clean_pending + to_launder;
        }
        let mut payout: u32 = 0;
        if income_due {
            payout = self.kind.passive_income();
            self.clean_pending = self.clean_pending + payout;
        }
        payout
    }

    /// Hands over the clean money and empties it.
    pub fn collect(&mut self) -> (amount: u32)
        ensures
            amount == old(self).clean_pending,
            final(self).clean_pending == 0,
            final(self).cash_pending == old(self).cash_pending,
            final(self).active == old(self).active,
            final(self).kind == old(self).kind,
            final(self).id == old(self).id,
            final(self).zone == old(self).zone,
            final(self).address == old(self).address,
    {
        let amount = self.clean_pending;
        self.clean_pending = 0;
        amount
    }

    /// Closes the business for now.
    pub fn close(&mut self)
        ensures
            *final(self) == (Business { active: false, ..*old(self) }),
    {
        self.active = false;
    }

    /// Opens it again.
    pub fn reopen(&mut self)
        ensures
            *final(self) == (Business { active: true, ..*old(self) }),
    {
        self.active = true;
    }
}

/// Laundering only moves money from cash to clean; only the income adds to
/// the business's money, and a closed business is left untouched.
pub proof fn lemma_tick_moves_money(b: Business, to_launder: u32, income_due: bool)
    ensures
        laundered_by_tick(b, to_launder) <= b.cash_pending,
        !income_due ==> paid_by_tick(b, income_due) == 0,
        !b.active ==> laundered_by_tick(b, to_launder) == 0 && paid_by_tick(b, income_due) == 0,
{
}

/// Sum of clean money waiting over a list of businesses.
pub open spec fn clean_sum(bs: Seq<Business>) -> int
    decreases bs.len(),
{
    if bs.len() == 0 {
        0
    } else {
        clean_sum(bs.drop_last()) + bs.last().clean_pending
    }
}

/// The smaller of a sum and `u32::MAX`: a saturating total.
pub open spec fn saturate(x: int) -> int {
    if x > u32::MAX { u32::MAX as int } else { x }
}

/// The player's businesses.
#[derive(Debug, Clone)]
pub struct BusinessPortfolio {
    pub owned: Vec<Business>,
}

impl Default for BusinessPortfolio {
    fn default() -> (p: BusinessPortfolio)
        ensures
            p.owned@.len() == 0,
    {
        BusinessPortfolio { owned: Vec::new() }
    }
}

/// `k` is the first business with this id.
pub open spec fn first_business(owned: Seq<Business>, id: Seq<char>, k: int) -> bool {
    &&& 0 <= k < owned.len()
    &&& owned[k].id@ == id
    &&& forall|j: int| 0 <= j < k ==> owned[j].id@ != id
}

impl BusinessPortfolio {
    /// No businesses.
    pub fn new() -> (p: BusinessPortfolio)
        ensures
            p.owned@.len() == 0,
    {
        BusinessPortfolio { owned: Vec::new() }
    }

    /// Adds a bought business.
    pub fn buy(&mut self, biz: Business)
        ensures
            final(self).owned@ == old(self).owned@.push(biz),
    {
        self.owned.push(biz);
    }

    /// The first business with this id, `None` when there is none.
    pub fn get(&self, id: &str) -> (r: Option<&Business>)
        ensures
            r is None <==> (forall|k: int| 0 <= k < self.owned@.len() ==> self.owned@[k].id@ != id@),
            forall|k: int| #[trigger] first_business(self.owned@, id@, k) ==> r == Some(&self.owned@[k]),
    {
        let key: String = id.to_owned();
        let n = self.owned.len();
        let mut i: usize = 0;
        while i < n
            invariant
                n == self.owned@.len(),
                key@ == id@,
                0 <= i <= n,
                forall|j: int| 0 <= j < i ==> (#[trigger] self.owned@[j]).id@ != id@,
            decreases n - i,
        {
            if self.owned[i].id == key {
                proof {
                    assert(first_business(self.owned@, id@, i as int));
                    assert forall|k: int| #[trigger] first_business(self.owned@, id@, k) implies k == i as int by {
                        if k < i as int {} else if k > i as int {}
                    }
                }
                return Some(&self.owned[i]);
            }
            i = i + 1;
        }
        None
    }

    /// Collects clean money from every business; the total saturates at
    /// `u32::MAX`, and every business is left with nothing pending.
    pub fn collect_all(&mut self) -> (total: u32)
        ensures
            total == saturate(clean_sum(old(self).owned@)),
            final(self).owned@.len() == old(self).owned@.len(),
            forall|k: int| 0 <= k < old(self).owned@.len() ==> #[trigger] final(self).owned@[k]
                == (Business { clean_pending: 0, ..old(self).owned@[k] }),
    {
        let n = self.owned.len();
        let mut total: u32 = 0;
        let mut i: usize = 0;
        while i < n
            invariant
                n == self.owned@.len(),
                n == old(self).owned@.len(),
                0 <= i <= n,
                total == saturate(clean_sum(old(self).owned@.take(i as int))),
                forall|k: int| 0 <= k < i ==> #[trigger] self.owned@[k]
                    == (Business { clean_pending: 0, ..old(self).owned@[k] }),
                forall|k: int| i <= k < n ==> #[trigger] self.owned@[k] == old(self).owned@[k],
            decreases n - i,
        {
            let got = self.owned[i].collect();
            proof {
                assert(old(self).owned@.take(i as int + 1).drop_last() =~= old(self).owned@.take(i as int));
            }
            total = total.saturating_add(got);
            i = i + 1;
        }
        proof {
            assert(old(self).owned@.take(n as int) =~= old(self).owned@);
        }
        total
    }

    /// A laundromat in East Blocks to start with.
    pub fn with_starter() -> (p: BusinessPortfolio)
        ensures
            p.owned@.len() == 1,
            p.owned@[0].id@ == "biz_starter"@,
            p.owned@[0].kind == BusinessKind::Laundromat,
            p.owned@[0].zone@ == "east_blocks"@,
            p.owned@[0].address@ == "12 East Blocks"@,
            p.owned@[0].cash_pending == 0,
            p.owned@[0].clean_pending == 0,
            p.owned@[0].active,
    {
        let mut port = BusinessPortfolio::new();
        port.buy(Business::new("biz_starter", BusinessKind::Laundromat, "east_blocks", "12 East Blocks"));
        port
    }
}

/// Collecting twice in a row: the second collection yields nothing.
pub proof fn lemma_collect_all_twice(bs: Seq<Business>)
    requires
        forall|k: int| 0 <= k < bs.len() ==> (#[trigger] bs[k]).clean_pending == 0,
    ensures
        saturate(clean_sum(bs)) == 0,
    decreases bs.len(),
{
    if bs.len() > 0 {
        assert forall|k: int| 0 <= k < bs.drop_last().len() implies (#[trigger] bs.drop_last()[k]).clean_pending == 0 by {
            assert(bs.drop_last()[k] == bs[k]);
        }
        lemma_collect_all_twice(bs.drop_last());
    }
}

/// Cash laundered into clean money per sim-second.
pub open spec fn laundering_rate_of(k: BusinessKind) -> u32 {
    match k {
        BusinessKind::Laundromat => 8,
        BusinessKind::CarWash => 6,
        BusinessKind::Pizzeria => 10,
        BusinessKind::Bar => 15,
        BusinessKind::Bodega => 5,
        BusinessKind::AutoShop => 12,
        BusinessKind::Nightclub => 30,
        BusinessKind::Scrapyard => 18,
        BusinessKind::PawnShop => 14,
        BusinessKind::TaxiCentral => 20,
        BusinessKind::Warehouse => 25,
        BusinessKind::StripMall => 22,
    }
}

impl BusinessKind {
    /// Cash laundered into clean money per sim-second.
    pub fn laundering_rate(&self) -> (v: u32)
        ensures
            v == laundering_rate_of(*self),
    {
        match self {
            BusinessKind::Laundromat => 8,
            BusinessKind::CarWash => 6,
            BusinessKind::Pizzeria => 10,
            BusinessKind::Bar => 15,
            BusinessKind::Bodega => 5,
            BusinessKind::AutoShop => 12,
            BusinessKind::Nightclub => 30,
            BusinessKind::Scrapyard => 18,
            BusinessKind::PawnShop => 14,
            BusinessKind::TaxiCentral => 20,
            BusinessKind::Warehouse => 25,
            BusinessKind::StripMall => 22,
        }
    }
}

/// Every kind of business pays income, and a dearer business pays more;
/// each pays back its purchase price after between 500 and 625 income
/// payments. An open business pays its kind's income, a positive amount,
/// exactly when the income is due.
pub proof fn lemma_income_follows_price(a: BusinessKind, b: BusinessKind, biz: Business)
    ensures
        passive_income_of(a) > 0,
        purchase_price_of(a) < purchase_price_of(b) ==> passive_income_of(a) < passive_income_of(b),
        500 * passive_income_of(a) <= purchase_price_of(a) <= 625 * passive_income_of(a),
        biz.active ==> paid_by_tick(biz, true) > 0 && paid_by_tick(biz, false) == 0,
{
}

} // verus!
