//! Economy: the player's two currencies and a stackable inventory.
//!
//! Cash is street money (bribes, street deals); clean money buys property
//! and anything official. Items stack by id up to their `max_stack`.

use vstd::prelude::*;

verus! {

/// Two balances: `cash` (dirty) and `clean`.
#[derive(Debug, Clone, Copy)]
pub struct Wallet {
    pub cash: u32,
    pub clean: u32,
}

/// The balance that a transaction in the given currency touches.
pub open spec fn balance(w: Wallet, clean: bool) -> u32 {
    if clean { w.clean } else { w.cash }
}

/// The wallet with the balance of the given currency replaced.
pub open spec fn with_balance(w: Wallet, clean: bool, v: u32) -> Wallet {
    if clean { Wallet { cash: w.cash, clean: v } } else { Wallet { cash: v, clean: w.clean } }
}

/// What `Wallet::spend` does: the new wallet and whether it paid.
pub open spec fn spend_result(w: Wallet, amount: u32, clean: bool) -> (Wallet, bool) {
    if balance(w, clean) >= amount {
        (with_balance(w, clean, (balance(w, clean) - amount) as u32), true)
    } else {
        (w, false)
    }
}

/// The sum of both balances.
pub open spec fn wallet_total(w: Wallet) -> int {
    w.cash + w.clean
}

impl Default for Wallet {
    fn default() -> (w: Wallet)
        ensures
            w.cash == 0,
            w.clean == 0,
    {
        Wallet { cash: 0, clean: 0 }
    }
}

impl Wallet {
    /// An empty wallet.
    pub fn new() -> (w: Wallet)
        ensures
            w.cash == 0,
            w.clean == 0,
    {
        Wallet { cash: 0, clean: 0 }
    }

    /// Adds money to the clean balance when `clean`, else to cash.
    pub fn add(&mut self, amount: u32, clean: bool)
        requires
            balance(*old(self), clean) + amount <= u32::MAX,
        ensures
            *final(self) == with_balance(*old(self), clean, (balance(*old(self), clean) + amount) as u32),
    {
        if clean {
            self.clean = self.clean + amount;
        } else {
            self.cash = self.cash + amount;
        }
    }

    /// Takes `amount` from the chosen currency when it covers it.
    /// Returns false, and changes nothing, when it does not.
    pub fn spend(&mut self, amount: u32, clean: bool) -> (paid: bool)
        ensures
            (*final(self), paid) == spend_result(*old(self), amount, clean),
            paid == (balance(*old(self), clean) >= amount),
    {
        if clean {
            if self.clean >= amount {
                self.clean = self.clean - amount;
                true
            } else {
                false
            }
        } else {
            if self.cash >= amount {
                self.cash = self.cash - amount;
                true
            } else {
                false
            }
        }
    }

    /// Both balances together.
    pub fn total(&self) -> (t: u64)
        ensures
            t == wallet_total(*self),
    {
        self.cash as u64 + self.clean as u64
    }
}

/// Paying back what was just added always succeeds and restores the wallet.
pub proof fn lemma_add_then_spend_restores(w: Wallet, amount: u32, clean: bool)
    requires
        balance(w, clean) + amount <= u32::MAX,
    ensures
        spend_result(with_balance(w, clean, (balance(w, clean) + amount) as u32), amount, clean)
            == (w, true),
{
}

/// A successful payment lowers the total by exactly the amount; a refused one
/// leaves the wallet as it was.
pub proof fn lemma_spend_conserves_total(w: Wallet, amount: u32, clean: bool)
    ensures
        spend_result(w, amount, clean).1 ==> wallet_total(spend_result(w, amount, clean).0)
            == wallet_total(w) - amount,
        !spend_result(w, amount, clean).1 ==> spend_result(w, amount, clean).0 == w,
        balance(spend_result(w, amount, clean).0, !clean) == balance(w, !clean),
{
}

/// Item category.
#[derive(Debug, Clone, Copy, PartialEq, Eq, Structural, Hash)]
pub enum ItemKind {
    Weapon,
    Ammo,
    Armor,
    Lockpick,
    Scanner,
    Medkit,
    ZipTies,
    Crowbar,
    SprayCan,
    Disguise,
    VehicleMod,
    Gift,
    EvidenceBag,
    Key,
}

/// Display name of an item category.
pub open spec fn item_kind_label(k: ItemKind) -> Seq<char> {
    match k {
        ItemKind::Weapon => "Weapon"@,
        ItemKind::Ammo => "Ammo"@,
        ItemKind::Armor => "Armor"@,
        ItemKind::Lockpick => "Lockpick"@,
        ItemKind::Scanner => "Scanner"@,
        ItemKind::Medkit => "Medkit"@,
        ItemKind::ZipTies => "Zip Ties"@,
        ItemKind::Crowbar => "Crowbar"@,
        ItemKind::SprayCan => "Spray Can"@,
        ItemKind::Disguise => "Disguise"@,
        ItemKind::VehicleMod => "Vehicle Mod"@,
        ItemKind::Gift => "Gift"@,
        ItemKind::EvidenceBag => "Evidence Bag"@,
        ItemKind::Key => "Key"@,
    }
}

impl ItemKind {
    pub fn label(&self) -> (s: &'static str)
        ensures
            s@ == item_kind_label(*self),
    {
        match self {
            ItemKind::Weapon => "Weapon",
            ItemKind::Ammo => "Ammo",
            ItemKind::Armor => "Armor",
            ItemKind::Lockpick => "Lockpick",
            ItemKind::Scanner => "Scanner",
            ItemKind::Medkit => "Medkit",
            ItemKind::ZipTies => "Zip Ties",
            ItemKind::Crowbar => "Crowbar",
            ItemKind::SprayCan => "Spray Can",
            ItemKind::Disguise => "Disguise",
            ItemKind::VehicleMod => "Vehicle Mod",
            ItemKind::Gift => "Gift",
            ItemKind::EvidenceBag => "Evidence Bag",
            ItemKind::Key => "Key",
        }
    }
}

/// A stackable item.
#[derive(Debug, Clone)]
pub struct Item {
    pub id: String,
    pub kind: ItemKind,
    pub name: String,
    pub description: String,
    pub stack: u32,
    pub max_stack: u32,
    pub value: u32,
    pub illegal: bool,
}

impl Item {
    /// A single item (stack 1, up to 99 per stack, no description).
    pub fn new(id: &str, kind: ItemKind, name: &str, value: u32, illegal: bool) -> (it: Item)
        ensures
            it.id@ == id@,
            it.kind == kind,
            it.name@ == name@,
            it.description@ == Seq::<char>::empty(),
            it.stack == 1,
            it.max_stack == 99,
            it.value == value,
            it.illegal == illegal,
    {
        Item {
            id: id.to_owned(),
            kind,
            name: name.to_owned(),
            description: String::new(),
            stack: 1,
            max_stack: 99,
            value,
            illegal,
        }
    }
}

/// The item with its stack size replaced.
pub open spec fn with_stack(it: Item, n: u32) -> Item {
    Item { stack: n, ..it }
}

/// An entry that `Inventory::add` can merge `incoming` into: same id, room left.
pub open spec fn stackable(existing: Item, id: Seq<char>) -> bool {
    existing.id@ == id && existing.stack < existing.max_stack
}

/// The smaller of two integers.
pub open spec fn min_int(a: int, b: int) -> int {
    if a <= b { a } else { b }
}

/// `k` is the first entry of `items` that satisfies `id_of(k) == id`.
pub open spec fn first_with_id(items: Seq<Item>, id: Seq<char>, k: int) -> bool {
    &&& 0 <= k < items.len()
    &&& items[k].id@ == id
    &&& forall|j: int| 0 <= j < k ==> items[j].id@ != id
}

/// `k` is the first entry of `items` that an item with this id stacks onto.
pub open spec fn first_stackable(items: Seq<Item>, id: Seq<char>, k: int) -> bool {
    &&& 0 <= k < items.len()
    &&& stackable(items[k], id)
    &&& forall|j: int| 0 <= j < k ==> !stackable(items[j], id)
}

/// Some entry carries this id.
pub open spec fn holds_id(items: Seq<Item>, id: Seq<char>) -> bool {
    exists|k: int| 0 <= k < items.len() && items[k].id@ == id
}

/// The stack of the first entry with this id, 0 when there is none.
pub open spec fn count_of(items: Seq<Item>, id: Seq<char>) -> int {
    if holds_id(items, id) {
        items[choose|k: int| first_with_id(items, id, k)].stack as int
    } else {
        0
    }
}

/// Among entries with this id there is always a first one.
pub proof fn lemma_first_with_id_exists(items: Seq<Item>, id: Seq<char>)
    requires
        holds_id(items, id),
    ensures
        exists|k: int| first_with_id(items, id, k),
    decreases items.len(),
{
    let k0 = choose|k: int| 0 <= k < items.len() && items[k].id@ == id;
    if exists|j: int| 0 <= j < k0 && items[j].id@ == id {
        let pre = items.subrange(0, k0);
        assert(holds_id(pre, id)) by {
            let j = choose|j: int| 0 <= j < k0 && items[j].id@ == id;
            assert(pre[j] == items[j]);
        }
        lemma_first_with_id_exists(pre, id);
        let k = choose|k: int| first_with_id(pre, id, k);
        assert forall|j: int| 0 <= j < k implies items[j].id@ != id by {
            assert(pre[j] == items[j]);
        }
        assert(pre[k] == items[k]);
        assert(first_with_id(items, id, k));
    } else {
        assert(first_with_id(items, id, k0));
    }
}

/// There is at most one first entry with a given id.
pub proof fn lemma_first_with_id_unique(items: Seq<Item>, id: Seq<char>, a: int, b: int)
    requires
        first_with_id(items, id, a),
        first_with_id(items, id, b),
    ensures
        a == b,
{
}

/// The player's inventory.
#[derive(Debug, Clone)]
pub struct Inventory {
    pub items: Vec<Item>,
}

impl Default for Inventory {
    fn default() -> (inv: Inventory)
        ensures
            inv.items@.len() == 0,
    {
        Inventory { items: Vec::new() }
    }
}

impl Inventory {
    /// An empty inventory.
    pub fn new() -> (inv: Inventory)
        ensures
            inv.items@.len() == 0,
    {
        Inventory { items: Vec::new() }
    }

    /// Adds an item: it is merged into the first entry with the same id that
    /// still has room (the merged stack is capped at that entry's maximum);
    /// when no such entry exists it is appended as a new entry.
    pub fn add(&mut self, item: Item)
        ensures
            (forall|k: int| 0 <= k < old(self).items@.len() ==> !stackable(#[trigger] old(self).items@[k], item.id@))
                ==> final(self).items@ == old(self).items@.push(item),
            forall|k: int| #[trigger] first_stackable(old(self).items@, item.id@, k)
                ==> final(self).items@ == old(self).items@.update(k, with_stack(old(self).items@[k],
                    min_int(old(self).items@[k].stack + item.stack, old(self).items@[k].max_stack as int) as u32)),
    {
        let n = self.items.len();
        let mut i: usize = 0;
        while i < n
            invariant
                n == self.items@.len(),
                self.items@ == old(self).items@,
                0 <= i <= n,
                forall|j: int| 0 <= j < i ==> !stackable(#[trigger] self.items@[j], item.id@),
            decreases n - i,
        {
            if self.items[i].id == item.id && self.items[i].stack < self.items[i].max_stack {
                let cur = self.items[i].stack;
                let cap = self.items[i].max_stack;
                let sum: u64 = cur as u64 + item.stack as u64;
                let merged: u32 = if sum < cap as u64 { sum as u32 } else { cap };
                self.items[i].stack = merged;
                proof {
                    assert forall|k: int| #[trigger] first_stackable(old(self).items@, item.id@, k)
                        implies k == i as int by {
                        if k < i as int {
                        } else if k > i as int {
                            assert(!stackable(old(self).items@[i as int], item.id@));
                        }
                    }
                    assert(self.items@ =~= old(self).items@.update(i as int, with_stack(old(self).items@[i as int], merged)));
                }
                return;
            }
            i = i + 1;
        }
        self.items.push(item);
    }

    /// Removes `amount` from the first entry with this id. The entry goes away
    /// when exactly its stack is removed. Returns false, and changes nothing,
    /// when there is no such entry or its stack is smaller than `amount`.
    pub fn remove(&mut self, id: &str, amount: u32) -> (removed: bool)
        ensures
            removed == (holds_id(old(self).items@, id@) && count_of(old(self).items@, id@) >= amount),
            !removed ==> final(self).items@ == old(self).items@,
            forall|k: int| #[trigger] first_with_id(old(self).items@, id@, k) ==> {
                &&& old(self).items@[k].stack > amount ==> final(self).items@ == old(self).items@.update(k,
                    with_stack(old(self).items@[k], (old(self).items@[k].stack - amount) as u32))
                &&& old(self).items@[k].stack == amount ==> final(self).items@ == old(self).items@.remove(k)
            },
    {
        let key: String = id.to_owned();
        let n = self.items.len();
        let mut i: usize = 0;
        while i < n
            invariant
                n == self.items@.len(),
                self.items@ == old(self).items@,
                key@ == id@,
                0 <= i <= n,
                forall|j: int| 0 <= j < i ==> (#[trigger] self.items@[j]).id@ != id@,
            decreases n - i,
        {
            if self.items[i].id == key {
                proof {
                    assert(first_with_id(old(self).items@, id@, i as int));
                    assert(holds_id(old(self).items@, id@));
                    lemma_first_with_id_exists(old(self).items@, id@);
                    let c = choose|k: int| first_with_id(old(self).items@, id@, k);
                    lemma_first_with_id_unique(old(self).items@, id@, c, i as int);
                    assert forall|k: int| #[trigger] first_with_id(old(self).items@, id@, k)
                        implies k == i as int by {
                        lemma_first_with_id_unique(old(self).items@, id@, k, i as int);
                    }
                }
                let stack = self.items[i].stack;
                if stack > amount {
                    self.items[i].stack = stack - amount;
                    proof {
                        assert(self.items@ =~= old(self).items@.update(i as int,
                            with_stack(old(self).items@[i as int], (stack - amount) as u32)));
                    }
                    return true;
                } else if stack == amount {
                    let _gone = self.items.remove(i);
                    return true;
                }
                return false;
            }
            i = i + 1;
        }
        proof {
            assert(!holds_id(old(self).items@, id@));
            assert forall|k: int| #[trigger] first_with_id(old(self).items@, id@, k) implies false by {}
        }
        false
    }

    /// Is there an entry with this id?
    pub fn has(&self, id: &str) -> (b: bool)
        ensures
            b == holds_id(self.items@, id@),
    {
        let key: String = id.to_owned();
        let n = self.items.len();
        let mut i: usize = 0;
        while i < n
            invariant
                n == self.items@.len(),
                key@ == id@,
                0 <= i <= n,
                forall|j: int| 0 <= j < i ==> (#[trigger] self.items@[j]).id@ != id@,
            decreases n - i,
        {
            if self.items[i].id == key {
                return true;
            }
            i = i + 1;
        }
        false
    }

    /// The stack of the first entry with this id (0 when absent).
    pub fn count(&self, id: &str) -> (c: u32)
        ensures
            c == count_of(self.items@, id@),
    {
        let key: String = id.to_owned();
        let n = self.items.len();
        let mut i: usize = 0;
        while i < n
            invariant
                n == self.items@.len(),
                key@ == id@,
                0 <= i <= n,
                forall|j: int| 0 <= j < i ==> (#[trigger] self.items@[j]).id@ != id@,
            decreases n - i,
        {
            if self.items[i].id == key {
                proof {
                    assert(first_with_id(self.items@, id@, i as int));
                    lemma_first_with_id_exists(self.items@, id@);
                    let c = choose|k: int| first_with_id(self.items@, id@, k);
                    lemma_first_with_id_unique(self.items@, id@, c, i as int);
                }
                return self.items[i].stack;
            }
            i = i + 1;
        }
        0
    }
}

/// `remove` succeeds exactly when `count` reports at least the amount for an
/// id that `has` finds.
pub proof fn lemma_remove_succeeds_iff_enough(items: Seq<Item>, id: Seq<char>, amount: u32)
    ensures
        (holds_id(items, id) && count_of(items, id) >= amount) <==> (holds_id(items, id)
            && items[choose|k: int| first_with_id(items, id, k)].stack >= amount),
        !holds_id(items, id) ==> count_of(items, id) == 0,
{
}

/// Adding an item whose id is not yet held makes it held, with its own stack
/// as the count.
pub proof fn lemma_add_fresh_item_counts(items: Seq<Item>, item: Item)
    requires
        !holds_id(items, item.id@),
    ensures
        holds_id(items.push(item), item.id@),
        count_of(items.push(item), item.id@) == item.stack,
{
    let s = items.push(item);
    let n = items.len() as int;
    assert(s[n] == item);
    assert(first_with_id(s, item.id@, n));
    lemma_first_with_id_exists(s, item.id@);
    let c = choose|k: int| first_with_id(s, item.id@, k);
    lemma_first_with_id_unique(s, item.id@, c, n);
}

/// Wallet plus inventory.
#[derive(Debug, Clone)]
pub struct PlayerEconomy {
    pub wallet: Wallet,
    pub inventory: Inventory,
}

impl Default for PlayerEconomy {
    fn default() -> (e: PlayerEconomy)
        ensures
            e.wallet.cash == 0,
            e.wallet.clean == 0,
            e.inventory.items@.len() == 0,
    {
        PlayerEconomy { wallet: Wallet::new(), inventory: Inventory::new() }
    }
}

impl PlayerEconomy {
    /// No money, no items.
    pub fn new() -> (e: PlayerEconomy)
        ensures
            e.wallet.cash == 0,
            e.wallet.clean == 0,
            e.inventory.items@.len() == 0,
    {
        PlayerEconomy { wallet: Wallet::new(), inventory: Inventory::new() }
    }

    /// Starting kit: 200 cash, a lockpick (value 25, legal) and a pistol
    /// (value 500, illegal).
    pub fn with_starter_kit() -> (e: PlayerEconomy)
        ensures
            e.wallet.cash == 200,
            e.wallet.clean == 0,
            e.inventory.items@.len() == 2,
            e.inventory.items@[0].id@ == "lockpick"@,
            e.inventory.items@[0].kind == ItemKind::Lockpick,
            e.inventory.items@[0].name@ == "Lockpick"@,
            e.inventory.items@[0].stack == 1,
            e.inventory.items@[0].value == 25,
            !e.inventory.items@[0].illegal,
            e.inventory.items@[1].id@ == "pistol"@,
            e.inventory.items@[1].kind == ItemKind::Weapon,
            e.inventory.items@[1].name@ == "Pistol"@,
            e.inventory.items@[1].stack == 1,
            e.inventory.items@[1].value == 500,
            e.inventory.items@[1].illegal,
    {
        let mut inv = Inventory::new();
        let lockpick = Item::new("lockpick", ItemKind::Lockpick, "Lockpick", 25, false);
        inv.add(lockpick);
        assert(inv.items@ =~= seq![lockpick]);
        let pistol = Item::new("pistol", ItemKind::Weapon, "Pistol", 500, true);
        proof {
            reveal_strlit("lockpick");
            reveal_strlit("pistol");
            assert(inv.items@[0].id@.len() != pistol.id@.len());
        }
        inv.add(pistol);
        PlayerEconomy { wallet: Wallet { cash: 200, clean: 0 }, inventory: inv }
    }
}

} // verus!
