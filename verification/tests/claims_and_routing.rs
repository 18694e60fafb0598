use solotto::router::{percent_commission, route_payment, ticket_cost};
use solotto::season::Season;
use solotto::vault::CommissionVault;
use solotto::{Ledger, Party, SolottoError};

#[test]
fn non_admin_claim_rejected() {
    let admin: u64 = 7;
    let other: u64 = 8;
    let mut ledger = Ledger::new();
    ledger.start_season(1, 100, admin).unwrap();
    assert_eq!(
        ledger.claim_commission(1, other, 30, 5),
        Err(SolottoError::Unauthorized)
    );
    // No transfer was authorized, so the vault balance is untouched.
    assert!(ledger.claim_commission(1, admin, 30, 5).is_ok());
}

#[test]
fn nothing_to_claim_at_or_below_reserve() {
    let mut ledger = Ledger::new();
    ledger.start_season(1, 100, 7).unwrap();
    assert_eq!(ledger.claim_commission(1, 7, 5, 5), Err(SolottoError::NothingToClaim));
    assert_eq!(ledger.claim_commission(1, 7, 3, 5), Err(SolottoError::NothingToClaim));
    assert_eq!(ledger.claim_commission(1, 7, 0, 0), Err(SolottoError::NothingToClaim));
}

#[test]
fn claim_drains_exactly_to_reserve() {
    let mut ledger = Ledger::new();
    ledger.start_season(1, 100, 7).unwrap();
    let outcome = ledger.claim_commission(1, 7, 1_000, 250).unwrap();
    assert_eq!(outcome.transfer.amount_lamports, 750);
    assert_eq!(1_000 - outcome.transfer.amount_lamports, 250);
}

#[test]
fn claim_after_season_end_allowed() {
    let mut ledger = Ledger::new();
    ledger.start_season(1, 100, 7).unwrap();
    ledger.end_season(1, 7, 50).unwrap();
    let outcome = ledger.claim_commission(1, 7, 30, 5).unwrap();
    assert_eq!(outcome.transfer.amount_lamports, 25);
}

#[test]
fn vault_authorizes_its_own_season() {
    let vault = CommissionVault::new(2);
    assert_eq!(vault.season_id, 2);
    assert_eq!(vault.authority.season_id, 2);
    let auth = vault.claim(10, 4).unwrap();
    assert_eq!(auth.season_id, 2);
    assert_eq!(auth.amount_lamports, 6);
}

#[test]
fn zero_amount_legs_skipped() {
    let both = route_payment(1, 300, 30);
    assert_eq!(both.len(), 2);
    let no_commission = route_payment(1, 300, 0);
    assert_eq!(no_commission.len(), 1);
    assert_eq!(no_commission[0].to, Party::Treasury);
    let no_gross = route_payment(1, 0, 30);
    assert_eq!(no_gross.len(), 1);
    assert_eq!(no_gross[0].to, Party::Vault { season_id: 1 });
    assert_eq!(no_gross[0].amount_lamports, 30);
    let neither = route_payment(1, 0, 0);
    assert!(neither.is_empty());
}

#[test]
fn ticket_cost_checked() {
    assert_eq!(ticket_cost(100_000_000, 3), Ok(300_000_000));
    assert_eq!(ticket_cost(0, 1_000), Ok(0));
    assert_eq!(ticket_cost(u64::MAX, 1), Ok(u64::MAX));
    assert_eq!(ticket_cost(u64::MAX, 2), Err(SolottoError::Overflow));
}

#[test]
fn percent_commission_exact() {
    assert_eq!(percent_commission(1_000, 10), 100);
    assert_eq!(percent_commission(1_000_000_000, 10), 100_000_000);
    assert_eq!(percent_commission(999, 10), 99);
    assert_eq!(percent_commission(500, 0), 0);
    assert_eq!(percent_commission(500, 100), 500);
    assert_eq!(percent_commission(u64::MAX, 100), u64::MAX);
}

#[test]
fn ticket_counter_overflow_rejected() {
    let mut season = Season {
        season_id: 1,
        total_tickets_sold: u32::MAX,
        total_revenue_lamports: 0,
        is_active: true,
        end_time: 100,
        admin: 7,
    };
    let before = season;
    assert_eq!(season.record_purchase(1, 1, 10, 50), Err(SolottoError::Overflow));
    assert_eq!(season, before);
}

#[test]
fn revenue_overflow_rejected() {
    let mut season = Season {
        season_id: 1,
        total_tickets_sold: 0,
        total_revenue_lamports: u64::MAX,
        is_active: true,
        end_time: 100,
        admin: 7,
    };
    let before = season;
    assert_eq!(season.record_purchase(1, 1, 1, 50), Err(SolottoError::Overflow));
    assert_eq!(season, before);
    // A purchase that stays in range is still accepted afterwards.
    assert_eq!(season.record_purchase(1, 1, 0, 50), Ok(()));
    assert_eq!(season.total_tickets_sold, 1);
}

#[test]
fn season_id_mismatch_rejected() {
    let mut season = Season::new(1, 100, 7);
    assert_eq!(season.record_purchase(2, 1, 10, 50), Err(SolottoError::InvalidSeason));
    assert_eq!(season.total_tickets_sold, 0);
    assert_eq!(season.total_revenue_lamports, 0);
}

#[test]
fn season_end_sets_time_and_flag() {
    let mut season = Season::new(1, 100, 7);
    assert_eq!(season.end(8, 10), Err(SolottoError::Unauthorized));
    assert!(season.is_active);
    assert_eq!(season.end(7, 10), Ok(()));
    assert!(!season.is_active);
    assert_eq!(season.end_time, 10);
}
