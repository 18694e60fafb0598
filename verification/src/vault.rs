use vstd::prelude::*;
use crate::errors::SolottoError;

verus! {

/// Credential a vault derives from its own seed to authorize outbound
/// transfers: the vault itself, not an external signer, signs the outflow.
#[derive(Clone, Copy, Debug, PartialEq, Eq, Structural)]
pub struct VaultAuthority {
    /// Seed of the derivation: the season the vault belongs to.
    pub season_id: u32,
}

/// Proof that the vault of `season_id` authorized one outbound transfer of
/// exactly `amount_lamports`, produced only by `VaultAuthority`.
#[derive(Clone, Copy, Debug, PartialEq, Eq, Structural)]
pub struct OutboundAuthorization {
    pub season_id: u32,
    pub amount_lamports: u64,
}

impl VaultAuthority {
    /// Authorizes one outbound transfer of `amount_lamports` from the
    /// vault this authority was derived for.
    pub fn authorize_outbound(&self, amount_lamports: u64) -> (p: OutboundAuthorization)
        ensures
            p == (OutboundAuthorization { season_id: self.season_id, amount_lamports }),
    {
        OutboundAuthorization { season_id: self.season_id, amount_lamports }
    }
}

/// Bookkeeping record of a season's commission vault. The fund balance
/// itself lives in the external account substrate and is observed by the
/// host at claim time; the record holds the association with its season
/// and the authority that signs outbound transfers.
#[derive(Clone, Copy, Debug, PartialEq, Eq, Structural)]
pub struct CommissionVault {
    /// The season this vault was created alongside.
    pub season_id: u32,
    /// Derived credential for authorizing outflows from the vault.
    pub authority: VaultAuthority,
}

/// The amount a claim may drain: everything above the reserved minimum,
/// and nothing at all when the balance is at or below the reserve.
pub open spec fn spec_withdrawable(current_balance: u64, reserved_minimum: u64) -> int {
    if current_balance > reserved_minimum {
        current_balance - reserved_minimum
    } else {
        0int
    }
}

/// Saturating difference of balance and reserve: how much a claim on this
/// balance may move out without touching the reserved minimum.
pub fn withdrawable(current_balance: u64, reserved_minimum: u64) -> (r: u64)
    ensures
        r == spec_withdrawable(current_balance, reserved_minimum),
{
    if current_balance > reserved_minimum {
        current_balance - reserved_minimum
    } else {
        0u64
    }
}

impl CommissionVault {
    /// Well-formedness: the vault's authority was derived for the vault's
    /// own season. Established at creation, never broken afterwards (the
    /// record is never mutated).
    pub open spec fn wf(self) -> bool {
        self.authority.season_id == self.season_id
    }

    /// A fresh vault for `season_id`, with its derived authority.
    pub fn new(season_id: u32) -> (v: CommissionVault)
        ensures
            v == (CommissionVault {
                season_id,
                authority: VaultAuthority { season_id },
            }),
    {
        CommissionVault { season_id, authority: VaultAuthority { season_id } }
    }

    /// Computes and authorizes a claim against the host-observed balance.
    /// Fails with `NothingToClaim` when the balance is at or below the
    /// reserved minimum; on success the authorized amount is exactly the
    /// balance above the reserve, so draining it leaves the balance
    /// exactly at `reserved_minimum` and never below it.
    pub fn claim(&self, current_balance: u64, reserved_minimum: u64) -> (r: Result<
        OutboundAuthorization,
        SolottoError,
    >)
        requires
            self.wf(),
        ensures
            r is Ok <==> current_balance > reserved_minimum,
            r is Err ==> r == Err::<OutboundAuthorization, SolottoError>(
                SolottoError::NothingToClaim,
            ),
            r is Ok ==> r->Ok_0 == (OutboundAuthorization {
                season_id: self.season_id,
                amount_lamports: (current_balance - reserved_minimum) as u64,
            }),
            r is Ok ==> current_balance - r->Ok_0.amount_lamports == reserved_minimum,
    {
        if current_balance <= reserved_minimum {
            return Err(SolottoError::NothingToClaim);
        }
        let amount = withdrawable(current_balance, reserved_minimum);
        Ok(self.authority.authorize_outbound(amount))
    }
}

} // verus!
