use vstd::prelude::*;
use crate::errors::SolottoError;
use crate::router::{route_payment, spec_route_payment, Party, TransferRequest};
use crate::season::{end_outcome, purchase_outcome, AccountId, Season};
use crate::vault::{CommissionVault, OutboundAuthorization, VaultAuthority};

verus! {

/// What a successful commission claim hands back to the host: the transfer
/// to perform and the vault's own authorization for it.
#[derive(Clone, Copy, Debug, PartialEq, Eq, Structural)]
pub struct ClaimOutcome {
    pub transfer: TransferRequest,
    pub authorization: OutboundAuthorization,
}

/// The whole accounting state: every season record with its paired
/// commission vault, keyed by `season_id`. Each host operation is one
/// atomic transition of this state; on any rejection nothing changes.
pub struct Ledger {
    pub seasons: Vec<Season>,
    pub vaults: Vec<CommissionVault>,
}

impl Ledger {
    /// Well-formedness: season ids are unique, and the vault at each
    /// position belongs to the season at the same position.
    pub open spec fn wf(self) -> bool {
        &&& self.vaults@.len() == self.seasons@.len()
        &&& forall|i: int, j: int|
            0 <= i < j < self.seasons@.len() ==> self.seasons@[i].season_id
                != self.seasons@[j].season_id
        &&& forall|i: int|
            0 <= i < self.seasons@.len() ==> (#[trigger] self.vaults@[i]).season_id
                == self.seasons@[i].season_id && self.vaults@[i].authority.season_id
                == self.seasons@[i].season_id
    }

    /// Whether a season with this id exists.
    pub open spec fn has_season(self, season_id: u32) -> bool {
        exists|i: int|
            0 <= i < self.seasons@.len() && (#[trigger] self.seasons@[i]).season_id == season_id
    }

    /// The position of the season with this id; meaningful only when
    /// `has_season` holds (and then unique, by well-formedness).
    pub open spec fn index_of(self, season_id: u32) -> int {
        choose|i: int|
            0 <= i < self.seasons@.len() && (#[trigger] self.seasons@[i]).season_id == season_id
    }

    /// The season record with this id, when it exists.
    pub open spec fn spec_season(self, season_id: u32) -> Season {
        self.seasons@[self.index_of(season_id)]
    }

    /// In a well-formed ledger every position holding `season_id` is the
    /// one `index_of` names.
    pub proof fn lemma_index_unique(self, season_id: u32, i: int)
        requires
            self.wf(),
            0 <= i < self.seasons@.len(),
            self.seasons@[i].season_id == season_id,
        ensures
            self.has_season(season_id),
            self.index_of(season_id) == i,
    {
        assert(self.has_season(season_id));
        let j = self.index_of(season_id);
        if i < j {
            assert(self.seasons@[i].season_id != self.seasons@[j].season_id);
        } else if j < i {
            assert(self.seasons@[j].season_id != self.seasons@[i].season_id);
        }
    }

    /// An empty ledger: no seasons, no vaults.
    pub fn new() -> (l: Ledger)
        ensures
            l.wf(),
            l.seasons@.len() == 0,
            l.vaults@.len() == 0,
    {
        Ledger { seasons: Vec::new(), vaults: Vec::new() }
    }

    /// Number of seasons the ledger holds.
    pub fn season_count(&self) -> (n: usize)
        ensures
            n == self.seasons@.len(),
    {
        self.seasons.len()
    }

    /// Linear scan for the season with this id.
    fn find_season(&self, season_id: u32) -> (r: Option<usize>)
        ensures
            match r {
                Some(i) => i < self.seasons@.len() && self.seasons@[i as int].season_id
                    == season_id,
                None => forall|j: int|
                    0 <= j < self.seasons@.len() ==> (#[trigger] self.seasons@[j]).season_id
                        != season_id,
            },
    {
        let n = self.seasons.len();
        let mut k: usize = 0;
        while k < n
            invariant
                n == self.seasons@.len(),
                k <= n,
                forall|j: int|
                    0 <= j < k ==> (#[trigger] self.seasons@[j]).season_id != season_id,
            decreases n - k,
        {
            if self.seasons[k].season_id == season_id {
                return Some(k);
            }
            k = k + 1;
        }
        None
    }

    /// A copy of the season record with this id, when it exists.
    pub fn get_season(&self, season_id: u32) -> (r: Option<Season>)
        requires
            self.wf(),
        ensures
            match r {
                Some(s) => self.has_season(season_id) && s == self.spec_season(season_id),
                None => !self.has_season(season_id),
            },
    {
        match self.find_season(season_id) {
            Some(i) => {
                proof {
                    self.lemma_index_unique(season_id, i as int);
                }
                Some(self.seasons[i])
            },
            None => None,
        }
    }

    /// Creates a new season keyed by `season_id`, paired with its empty
    /// commission vault: zero counters, active, the given deadline, and
    /// the (host-authenticated) caller as admin. Fails with
    /// `DuplicateSeason`, changing nothing, when the id is already taken.
    pub fn start_season(&mut self, season_id: u32, end_time: i64, admin: AccountId) -> (r: Result<
        (),
        SolottoError,
    >)
        requires
            old(self).wf(),
        ensures
            final(self).wf(),
            old(self).has_season(season_id) ==> r == Err::<(), SolottoError>(
                SolottoError::DuplicateSeason,
            ) && final(self).seasons@ == old(self).seasons@ && final(self).vaults@ == old(self).vaults@,
            !old(self).has_season(season_id) ==> r is Ok && final(self).seasons@ == old(self).seasons@.push(
                Season {
                    season_id,
                    total_tickets_sold: 0,
                    total_revenue_lamports: 0,
                    is_active: true,
                    end_time,
                    admin,
                },
            ) && final(self).vaults@ == old(self).vaults@.push(
                CommissionVault { season_id, authority: VaultAuthority { season_id } },
            ),
    {
        match self.find_season(season_id) {
            Some(i) => {
                proof {
                    self.lemma_index_unique(season_id, i as int);
                }
                Err(SolottoError::DuplicateSeason)
            },
            None => {
                self.seasons.push(Season::new(season_id, end_time, admin));
                self.vaults.push(CommissionVault::new(season_id));
                Ok(())
            },
        }
    }

    /// Validates and applies one ticket purchase against the season with
    /// this id, and on success returns the transfer requests the payment
    /// splits into (gross to the treasury, commission to the season's
    /// vault). On any rejection the whole ledger is unchanged: the two
    /// counters are updated together or not at all, a closed or expired
    /// season accepts nothing, and an addition that would wrap fails
    /// closed with `Overflow`.
    pub fn buy_ticket(
        &mut self,
        season_id: u32,
        quantity: u32,
        gross_lamports: u64,
        commission_lamports: u64,
        now: i64,
    ) -> (r: Result<Vec<TransferRequest>, SolottoError>)
        requires
            old(self).wf(),
        ensures
            final(self).wf(),
            final(self).vaults@ == old(self).vaults@,
            !old(self).has_season(season_id) ==> r == Err::<Vec<TransferRequest>, SolottoError>(
                SolottoError::InvalidSeason,
            ) && final(self).seasons@ == old(self).seasons@,
            old(self).has_season(season_id) ==> match purchase_outcome(
                old(self).spec_season(season_id),
                season_id,
                quantity,
                gross_lamports,
                now,
            ) {
                Ok(s2) => r is Ok && r->Ok_0@ == spec_route_payment(
                    season_id,
                    gross_lamports,
                    commission_lamports,
                ) && final(self).seasons@ == old(self).seasons@.update(
                    old(self).index_of(season_id),
                    s2,
                ),
                Err(e) => r == Err::<Vec<TransferRequest>, SolottoError>(e) && final(self).seasons@ == old(self).seasons@,
            },
    {
        match self.find_season(season_id) {
            None => Err(SolottoError::InvalidSeason),
            Some(i) => {
                proof {
                    self.lemma_index_unique(season_id, i as int);
                }
                let mut s = self.seasons[i];
                match s.record_purchase(season_id, quantity, gross_lamports, now) {
                    Ok(()) => {
                        self.seasons[i] = s;
                        proof {
                            assert(forall|k: int|
                                0 <= k < self.seasons@.len()
                                    ==> (#[trigger] self.seasons@[k]).season_id == old(self).seasons@[k].season_id);
                        }
                        Ok(route_payment(season_id, gross_lamports, commission_lamports))
                    },
                    Err(e) => Err(e),
                }
            },
        }
    }

    /// Ends the season with this id: only its admin may, and only while
    /// it is still open; the flag is cleared and `end_time` becomes the
    /// termination instant. On any rejection the ledger is unchanged.
    pub fn end_season(&mut self, season_id: u32, caller: AccountId, now: i64) -> (r: Result<
        (),
        SolottoError,
    >)
        requires
            old(self).wf(),
        ensures
            final(self).wf(),
            final(self).vaults@ == old(self).vaults@,
            !old(self).has_season(season_id) ==> r == Err::<(), SolottoError>(
                SolottoError::InvalidSeason,
            ) && final(self).seasons@ == old(self).seasons@,
            old(self).has_season(season_id) ==> match end_outcome(
                old(self).spec_season(season_id),
                caller,
                now,
            ) {
                Ok(s2) => r is Ok && final(self).seasons@ == old(self).seasons@.update(
                    old(self).index_of(season_id),
                    s2,
                ),
                Err(e) => r == Err::<(), SolottoError>(e) && final(self).seasons@ == old(self).seasons@,
            },
    {
        match self.find_season(season_id) {
            None => Err(SolottoError::InvalidSeason),
            Some(i) => {
                proof {
                    self.lemma_index_unique(season_id, i as int);
                }
                let mut s = self.seasons[i];
                match s.end(caller, now) {
                    Ok(()) => {
                        self.seasons[i] = s;
                        proof {
                            assert(forall|k: int|
                                0 <= k < self.seasons@.len()
                                    ==> (#[trigger] self.seasons@[k]).season_id == old(self).seasons@[k].season_id);
                        }
                        Ok(())
                    },
                    Err(e) => Err(e),
                }
            },
        }
    }

    /// Computes and authorizes a commission withdrawal against the
    /// host-observed vault balance. Only the season's admin may claim;
    /// anyone else fails with `Unauthorized`. A successful claim requests
    /// a transfer of exactly the balance above `reserved_minimum` from
    /// the season's vault to the caller — never more, so the balance is
    /// left exactly at the reserve — authorized by the vault's own
    /// derived credential. The ledger itself is not mutated.
    pub fn claim_commission(
        &self,
        season_id: u32,
        caller: AccountId,
        current_balance: u64,
        reserved_minimum: u64,
    ) -> (r: Result<ClaimOutcome, SolottoError>)
        requires
            self.wf(),
        ensures
            !self.has_season(season_id) ==> r == Err::<ClaimOutcome, SolottoError>(
                SolottoError::InvalidSeason,
            ),
            self.has_season(season_id) && caller != self.spec_season(season_id).admin ==> r
                == Err::<ClaimOutcome, SolottoError>(SolottoError::Unauthorized),
            self.has_season(season_id) && caller == self.spec_season(season_id).admin
                && current_balance <= reserved_minimum ==> r == Err::<ClaimOutcome, SolottoError>(
                SolottoError::NothingToClaim,
            ),
            self.has_season(season_id) && caller == self.spec_season(season_id).admin
                && current_balance > reserved_minimum ==> r is Ok && r->Ok_0 == (ClaimOutcome {
                transfer: TransferRequest {
                    from: Party::Vault { season_id },
                    to: Party::Account { id: caller },
                    amount_lamports: (current_balance - reserved_minimum) as u64,
                },
                authorization: OutboundAuthorization {
                    season_id,
                    amount_lamports: (current_balance - reserved_minimum) as u64,
                },
            }),
            r is Ok ==> current_balance - r->Ok_0.transfer.amount_lamports == reserved_minimum,
    {
        match self.find_season(season_id) {
            None => Err(SolottoError::InvalidSeason),
            Some(i) => {
                proof {
                    self.lemma_index_unique(season_id, i as int);
                }
                if caller != self.seasons[i].admin {
                    return Err(SolottoError::Unauthorized);
                }
                let authorization = match self.vaults[i].claim(current_balance, reserved_minimum) {
                    Ok(p) => p,
                    Err(e) => {
                        return Err(e);
                    },
                };
                let transfer = TransferRequest {
                    from: Party::Vault { season_id },
                    to: Party::Account { id: caller },
                    amount_lamports: authorization.amount_lamports,
                };
                Ok(ClaimOutcome { transfer, authorization })
            },
        }
    }
}

} // verus!
