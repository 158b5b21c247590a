use heat_city::businesses::{Business, BusinessKind, BusinessPortfolio};

#[test]
fn collect_returns_and_clears_pending() {
    let mut b = Business::new("t", BusinessKind::Laundromat, "z", "a");
    b.clean_pending = 500;
    assert_eq!(b.collect(), 500);
    assert_eq!(b.clean_pending, 0);
}

#[test]
fn laundromat_launders_cash_over_a_minute() {
    // A laundromat launders 8 per second: a 60 s tick moves 480 and, the
    // 10 s income interval having passed, pays its income of 60.
    let mut b = Business::new("t", BusinessKind::Laundromat, "z", "a");
    b.deposit_cash(1000);
    let batch = (8.0f32 * 60.0) as u32;
    let payout = b.apply_tick(batch, 60.0f32 >= 10.0);
    assert_eq!(payout, 60);
    assert_eq!(b.cash_pending, 520);
    assert_eq!(b.clean_pending, 540);
    assert!(b.clean_pending > 0);
    assert!(b.cash_pending < 1000);
}

#[test]
fn batch_larger_than_waiting_cash_is_not_laundered() {
    let mut b = Business::new("t", BusinessKind::Bar, "z", "a");
    b.deposit_cash(10);
    assert_eq!(b.apply_tick(15, false), 0);
    assert_eq!(b.cash_pending, 10);
    assert_eq!(b.clean_pending, 0);
}

#[test]
fn closed_business_does_nothing() {
    let mut b = Business::new("t", BusinessKind::Nightclub, "z", "a");
    b.deposit_cash(100);
    b.close();
    assert_eq!(b.apply_tick(50, true), 0);
    assert_eq!(b.cash_pending, 100);
    assert_eq!(b.clean_pending, 0);
    b.reopen();
    assert_eq!(b.apply_tick(50, true), 400);
    assert_eq!(b.clean_pending, 450);
}

#[test]
fn deposit_saturates() {
    let mut b = Business::new("t", BusinessKind::Bodega, "z", "a");
    b.deposit_cash(u32::MAX - 1);
    b.deposit_cash(10);
    assert_eq!(b.cash_pending, u32::MAX);
}

#[test]
fn collect_all_empties_every_business() {
    let mut port = BusinessPortfolio::with_starter();
    let mut bar = Business::new("bar", BusinessKind::Bar, "z", "a");
    bar.clean_pending = 300;
    port.buy(bar);
    port.owned[0].clean_pending = 20;
    assert_eq!(port.collect_all(), 320);
    assert_eq!(port.collect_all(), 0);
    assert!(port.owned.iter().all(|b| b.clean_pending == 0));
    assert_eq!(port.get("bar").map(|b| b.kind), Some(BusinessKind::Bar));
    assert!(port.get("nope").is_none());
}

#[test]
fn collect_all_saturates() {
    let mut port = BusinessPortfolio::new();
    for id in ["a", "b"] {
        let mut b = Business::new(id, BusinessKind::Warehouse, "z", "x");
        b.clean_pending = u32::MAX;
        port.buy(b);
    }
    assert_eq!(port.collect_all(), u32::MAX);
}

#[test]
fn business_kind_tables() {
    assert_eq!(BusinessKind::Nightclub.purchase_price(), 200_000);
    assert_eq!(BusinessKind::Bodega.purchase_price(), 25_000);
    assert_eq!(BusinessKind::TaxiCentral.passive_income(), 180);
    assert_eq!(BusinessKind::AutoShop.label(), "Auto Shop");
    let starter = BusinessPortfolio::with_starter();
    assert_eq!(starter.owned[0].kind, BusinessKind::Laundromat);
    assert_eq!(starter.owned[0].id, "biz_starter");
}

#[test]
fn laundromat_launderes_cash_over_time() {
    let mut b = Business::new("t", BusinessKind::Laundromat, "z", "a");
    b.deposit_cash(1000);
    // One tick of 60 sim-seconds: the rate times the time is laundered, and
    // the income timer has passed its 10-second interval.
    let dt: f32 = 60.0;
    let to_launder = (b.kind.laundering_rate() as f32 * dt) as u32;
    b.apply_tick(to_launder, dt >= 10.0);
    assert!(b.clean_pending > 0);
    assert!(b.cash_pending < 1000);
    assert_eq!(b.cash_pending, 520);
    assert_eq!(b.clean_pending, 480 + 60);
}
