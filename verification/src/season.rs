use vstd::prelude::*;
use crate::errors::SolottoError;

verus! {

/// Identity of an account in the external substrate (an admin, a caller).
/// The core never interprets it; it only compares identities for equality.
pub type AccountId = u64;

/// Per-season ledger record: counters, lifecycle flag, deadline and admin.
#[derive(Clone, Copy, Debug, PartialEq, Eq, Structural)]
pub struct Season {
    /// Unique integer key of the season.
    pub season_id: u32,
    /// Tickets sold so far; monotonically non-decreasing while active.
    pub total_tickets_sold: u32,
    /// Gross proceeds accumulated so far, in the smallest currency unit.
    pub total_revenue_lamports: u64,
    /// True from creation until the season is explicitly ended.
    pub is_active: bool,
    /// Deadline fixed at creation, or the instant the admin ended the season.
    pub end_time: i64,
    /// The authority permitted to end the season and claim commission.
    pub admin: AccountId,
}

/// One purchase intent: the inputs from which the ledger mutation and the
/// two outbound transfers are derived. Ephemeral, never persisted.
#[derive(Clone, Copy, Debug, PartialEq, Eq, Structural)]
pub struct PurchaseEvent {
    pub season_id: u32,
    pub quantity: u32,
    pub gross_lamports: u64,
    pub commission_lamports: u64,
}

/// A season accepts mutations at time `now` iff its flag is still set and
/// the clock has not passed its deadline.
pub open spec fn spec_is_open(s: Season, now: i64) -> bool {
    s.is_active && now <= s.end_time
}

/// The exact outcome of a purchase attempt against season `s` at time `now`:
/// either the updated season or the error the attempt is rejected with.
pub open spec fn purchase_outcome(
    s: Season,
    season_id: u32,
    quantity: u32,
    gross_lamports: u64,
    now: i64,
) -> Result<Season, SolottoError> {
    if !spec_is_open(s, now) {
        Err(SolottoError::SeasonNotActive)
    } else if s.season_id != season_id {
        Err(SolottoError::InvalidSeason)
    } else if quantity == 0 {
        Err(SolottoError::InvalidQuantity)
    } else if s.total_tickets_sold + quantity > u32::MAX
        || s.total_revenue_lamports + gross_lamports > u64::MAX {
        Err(SolottoError::Overflow)
    } else {
        Ok(Season {
            total_tickets_sold: (s.total_tickets_sold + quantity) as u32,
            total_revenue_lamports: (s.total_revenue_lamports + gross_lamports) as u64,
            ..s
        })
    }
}

/// The exact outcome of an attempt to end season `s` at time `now` by
/// `caller`: either the closed season or the rejection error.
pub open spec fn end_outcome(s: Season, caller: AccountId, now: i64) -> Result<
    Season,
    SolottoError,
> {
    if caller != s.admin {
        Err(SolottoError::Unauthorized)
    } else if !spec_is_open(s, now) {
        Err(SolottoError::SeasonNotActive)
    } else {
        Ok(Season { is_active: false, end_time: now, ..s })
    }
}

impl Season {
    /// A fresh season record: zero counters, active, with the given
    /// deadline and admin.
    pub fn new(season_id: u32, end_time: i64, admin: AccountId) -> (s: Season)
        ensures
            s == (Season {
                season_id,
                total_tickets_sold: 0,
                total_revenue_lamports: 0,
                is_active: true,
                end_time,
                admin,
            }),
    {
        Season {
            season_id,
            total_tickets_sold: 0,
            total_revenue_lamports: 0,
            is_active: true,
            end_time,
            admin,
        }
    }

    /// Whether the season still accepts mutations at time `now`.
    pub fn is_open(&self, now: i64) -> (r: bool)
        ensures
            r == spec_is_open(*self, now),
    {
        self.is_active && now <= self.end_time
    }

    /// Validates and applies one ticket purchase: on success both counters
    /// grow, together and exactly once; on any rejection the record is
    /// left unchanged. No purchase is accepted on a closed or expired
    /// season, and an addition that would wrap a counter fails closed.
    pub fn record_purchase(
        &mut self,
        season_id: u32,
        quantity: u32,
        gross_lamports: u64,
        now: i64,
    ) -> (r: Result<(), SolottoError>)
        ensures
            match purchase_outcome(*old(self), season_id, quantity, gross_lamports, now) {
                Ok(s2) => r is Ok && *final(self) == s2,
                Err(e) => r == Err::<(), SolottoError>(e) && *final(self) == *old(self),
            },
            r is Ok ==> final(self).total_tickets_sold
                == old(self).total_tickets_sold + quantity,
            r is Ok ==> final(self).total_revenue_lamports
                == old(self).total_revenue_lamports + gross_lamports,
            !spec_is_open(*old(self), now) ==> r == Err::<(), SolottoError>(
                SolottoError::SeasonNotActive,
            ),
            r is Err ==> *final(self) == *old(self),
    {
        if !self.is_open(now) {
            return Err(SolottoError::SeasonNotActive);
        }
        if self.season_id != season_id {
            return Err(SolottoError::InvalidSeason);
        }
        if quantity == 0 {
            return Err(SolottoError::InvalidQuantity);
        }
        if quantity > u32::MAX - self.total_tickets_sold {
            return Err(SolottoError::Overflow);
        }
        if gross_lamports > u64::MAX - self.total_revenue_lamports {
            return Err(SolottoError::Overflow);
        }
        self.total_tickets_sold = self.total_tickets_sold + quantity;
        self.total_revenue_lamports = self.total_revenue_lamports + gross_lamports;
        Ok(())
    }

    /// Ends the season: only its admin may, and only while it is still
    /// open. On success the flag is cleared and `end_time` becomes the
    /// termination instant; on rejection the record is left unchanged.
    pub fn end(&mut self, caller: AccountId, now: i64) -> (r: Result<(), SolottoError>)
        ensures
            match end_outcome(*old(self), caller, now) {
                Ok(s2) => r is Ok && *final(self) == s2,
                Err(e) => r == Err::<(), SolottoError>(e) && *final(self) == *old(self),
            },
            caller != old(self).admin ==> r == Err::<(), SolottoError>(
                SolottoError::Unauthorized,
            ),
            r is Err ==> *final(self) == *old(self),
    {
        if caller != self.admin {
            return Err(SolottoError::Unauthorized);
        }
        if !self.is_open(now) {
            return Err(SolottoError::SeasonNotActive);
        }
        self.is_active = false;
        self.end_time = now;
        Ok(())
    }
}

/// Replays a sequence of purchase attempts against a season: rejected
/// attempts leave the state unchanged, accepted ones apply exactly once.
/// Returns the final season together with the sums of the accepted
/// quantities and of the accepted gross amounts.
pub open spec fn replay_purchases(s: Season, events: Seq<PurchaseEvent>, now: i64) -> (
    Season,
    int,
    int,
)
    decreases events.len(),
{
    if events.len() == 0 {
        (s, 0int, 0int)
    } else {
        let ev = events[0];
        match purchase_outcome(s, ev.season_id, ev.quantity, ev.gross_lamports, now) {
            Ok(s1) => {
                let rest = replay_purchases(s1, events.skip(1), now);
                (rest.0, ev.quantity + rest.1, ev.gross_lamports + rest.2)
            },
            Err(_) => replay_purchases(s, events.skip(1), now),
        }
    }
}

/// Over any sequence of purchase attempts, `total_tickets_sold` grows by
/// exactly the sum of the accepted quantities and `total_revenue_lamports`
/// by exactly the sum of the accepted gross amounts: each accepted
/// purchase is counted exactly once, and rejected ones not at all.
pub proof fn lemma_purchase_totals(s: Season, events: Seq<PurchaseEvent>, now: i64)
    ensures
        replay_purchases(s, events, now).0.total_tickets_sold == s.total_tickets_sold
            + replay_purchases(s, events, now).1,
        replay_purchases(s, events, now).0.total_revenue_lamports == s.total_revenue_lamports
            + replay_purchases(s, events, now).2,
    decreases events.len(),
{
    if events.len() == 0 {
    } else {
        let ev = events[0];
        match purchase_outcome(s, ev.season_id, ev.quantity, ev.gross_lamports, now) {
            Ok(s1) => {
                lemma_purchase_totals(s1, events.skip(1), now);
            },
            Err(_) => {
                lemma_purchase_totals(s, events.skip(1), now);
            },
        }
    }
}

/// While a season is open its counters never decrease: an accepted
/// purchase grows both counters, together, and a rejected one touches
/// neither, so no transition of the ledger lowers either counter.
pub proof fn lemma_counters_monotonic(
    s: Season,
    season_id: u32,
    quantity: u32,
    gross_lamports: u64,
    now: i64,
)
    ensures
        match purchase_outcome(s, season_id, quantity, gross_lamports, now) {
            Ok(s2) => s2.total_tickets_sold >= s.total_tickets_sold
                && s2.total_revenue_lamports >= s.total_revenue_lamports,
            Err(_) => true,
        },
{
}

/// A closed or expired season accepts no purchase, whatever the quantity
/// or the amount: the attempt is rejected as inactive and nothing changes.
pub proof fn lemma_closed_season_rejects(
    s: Season,
    season_id: u32,
    quantity: u32,
    gross_lamports: u64,
    now: i64,
)
    requires
        !spec_is_open(s, now),
    ensures
        purchase_outcome(s, season_id, quantity, gross_lamports, now) == Err::<
            Season,
            SolottoError,
        >(SolottoError::SeasonNotActive),
{
}

} // verus!
