use heat_city::economy::{Inventory, Item, ItemKind, PlayerEconomy, Wallet};

#[test]
fn wallet_spend_fails_when_insufficient() {
    let mut w = Wallet::new();
    assert!(!w.spend(100, false));
    w.add(100, false);
    assert!(w.spend(50, false));
    assert_eq!(w.cash, 50);
}

#[test]
fn inventory_stacks() {
    let mut inv = Inventory::new();
    inv.add(Item::new("lockpick", ItemKind::Lockpick, "Lockpick", 25, false));
    inv.add(Item::new("lockpick", ItemKind::Lockpick, "Lockpick", 25, false));
    assert_eq!(inv.count("lockpick"), 2);
}

#[test]
fn wallet_add_then_spend_restores() {
    let mut w = Wallet { cash: 30, clean: 70 };
    w.add(40, true);
    assert_eq!(w.clean, 110);
    assert!(w.spend(40, true));
    assert_eq!(w.cash, 30);
    assert_eq!(w.clean, 70);
    assert_eq!(w.total(), 100);
}

#[test]
fn wallet_refused_spend_changes_nothing() {
    let mut w = Wallet { cash: 10, clean: 500 };
    assert!(!w.spend(11, false));
    assert_eq!(w.cash, 10);
    assert_eq!(w.clean, 500);
}

#[test]
fn wallet_total_does_not_overflow() {
    let w = Wallet { cash: u32::MAX, clean: u32::MAX };
    assert_eq!(w.total(), 2 * (u32::MAX as u64));
}

#[test]
fn inventory_stack_caps_at_max_and_spills() {
    let mut inv = Inventory::new();
    let mut big = Item::new("ammo", ItemKind::Ammo, "Ammo", 1, true);
    big.stack = 98;
    inv.add(big);
    let mut more = Item::new("ammo", ItemKind::Ammo, "Ammo", 1, true);
    more.stack = 5;
    inv.add(more);
    assert_eq!(inv.items.len(), 1);
    assert_eq!(inv.count("ammo"), 99);
    // The full stack takes no more: a new entry is appended.
    inv.add(Item::new("ammo", ItemKind::Ammo, "Ammo", 1, true));
    assert_eq!(inv.items.len(), 2);
    assert_eq!(inv.items[1].stack, 1);
    assert_eq!(inv.count("ammo"), 99);
}

#[test]
fn inventory_remove_partial_exact_and_too_many() {
    let mut inv = Inventory::new();
    let mut picks = Item::new("lockpick", ItemKind::Lockpick, "Lockpick", 25, false);
    picks.stack = 3;
    inv.add(picks);
    assert!(!inv.remove("lockpick", 4));
    assert_eq!(inv.count("lockpick"), 3);
    assert!(inv.remove("lockpick", 1));
    assert_eq!(inv.count("lockpick"), 2);
    assert!(inv.remove("lockpick", 2));
    assert!(!inv.has("lockpick"));
    assert_eq!(inv.count("lockpick"), 0);
    assert!(!inv.remove("lockpick", 1));
    assert!(!inv.remove("crowbar", 0));
}

#[test]
fn inventory_has_and_count_of_missing_item() {
    let inv = Inventory::new();
    assert!(!inv.has("key"));
    assert_eq!(inv.count("key"), 0);
}

#[test]
fn item_new_defaults() {
    let it = Item::new("medkit", ItemKind::Medkit, "Medkit", 80, false);
    assert_eq!(it.id, "medkit");
    assert_eq!(it.name, "Medkit");
    assert_eq!(it.description, "");
    assert_eq!(it.stack, 1);
    assert_eq!(it.max_stack, 99);
    assert_eq!(it.value, 80);
    assert!(!it.illegal);
}

#[test]
fn item_kind_labels() {
    assert_eq!(ItemKind::ZipTies.label(), "Zip Ties");
    assert_eq!(ItemKind::EvidenceBag.label(), "Evidence Bag");
    assert_eq!(ItemKind::VehicleMod.label(), "Vehicle Mod");
    assert_eq!(ItemKind::Key.label(), "Key");
}

#[test]
fn starter_kit_contents() {
    let e = PlayerEconomy::with_starter_kit();
    assert_eq!(e.wallet.cash, 200);
    assert_eq!(e.wallet.clean, 0);
    assert_eq!(e.inventory.count("lockpick"), 1);
    assert_eq!(e.inventory.count("pistol"), 1);
    assert!(e.inventory.items[1].illegal);
    let empty = PlayerEconomy::new();
    assert_eq!(empty.wallet.total(), 0);
    assert!(empty.inventory.items.is_empty());
}
