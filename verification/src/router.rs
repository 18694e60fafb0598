use vstd::prelude::*;
use crate::errors::SolottoError;
use crate::season::AccountId;

verus! {

/// An endpoint of a transfer request, as the host substrate addresses it.
#[derive(Clone, Copy, Debug, PartialEq, Eq, Structural)]
pub enum Party {
    /// The buyer paying for a purchase.
    Buyer,
    /// The treasury wallet that collects gross proceeds.
    Treasury,
    /// The commission vault derived for one season.
    Vault { season_id: u32 },
    /// A plain account, named by its identity (e.g. the claiming admin).
    Account { id: AccountId },
}

/// One transfer the host payment capability is asked to perform. The host
/// applies all requests of one operation atomically or none of them.
#[derive(Clone, Copy, Debug, PartialEq, Eq, Structural)]
pub struct TransferRequest {
    pub from: Party,
    pub to: Party,
    pub amount_lamports: u64,
}

/// The transfers one purchase payment splits into: gross proceeds from the
/// buyer to the treasury, commission from the buyer to the season's vault.
/// A zero-amount leg is skipped, not an error.
pub open spec fn spec_route_payment(
    season_id: u32,
    gross_lamports: u64,
    commission_lamports: u64,
) -> Seq<TransferRequest> {
    let gross_leg = if gross_lamports > 0 {
        seq![
            TransferRequest {
                from: Party::Buyer,
                to: Party::Treasury,
                amount_lamports: gross_lamports,
            },
        ]
    } else {
        Seq::<TransferRequest>::empty()
    };
    let commission_leg = if commission_lamports > 0 {
        seq![
            TransferRequest {
                from: Party::Buyer,
                to: Party::Vault { season_id },
                amount_lamports: commission_lamports,
            },
        ]
    } else {
        Seq::<TransferRequest>::empty()
    };
    gross_leg + commission_leg
}

/// Splits one purchase payment into its transfer requests: the gross leg
/// to the treasury and the commission leg to the season's vault, each
/// skipped when its amount is zero. Execution and atomicity of the
/// requests belong to the host payment capability.
pub fn route_payment(season_id: u32, gross_lamports: u64, commission_lamports: u64) -> (r: Vec<
    TransferRequest,
>)
    ensures
        r@ == spec_route_payment(season_id, gross_lamports, commission_lamports),
{
    let mut r: Vec<TransferRequest> = Vec::new();
    if gross_lamports > 0 {
        r.push(TransferRequest {
            from: Party::Buyer,
            to: Party::Treasury,
            amount_lamports: gross_lamports,
        });
    }
    if commission_lamports > 0 {
        r.push(TransferRequest {
            from: Party::Buyer,
            to: Party::Vault { season_id },
            amount_lamports: commission_lamports,
        });
    }
    proof {
        assert(r@ =~= spec_route_payment(season_id, gross_lamports, commission_lamports));
    }
    r
}

/// Gross cost of `quantity` tickets at `price_lamports` each, the product
/// checked against the fixed-width range: an overflowing total fails
/// closed instead of wrapping.
pub fn ticket_cost(price_lamports: u64, quantity: u32) -> (r: Result<u64, SolottoError>)
    ensures
        price_lamports * quantity <= u64::MAX ==> r == Ok::<u64, SolottoError>(
            (price_lamports * quantity) as u64,
        ),
        price_lamports * quantity > u64::MAX ==> r == Err::<u64, SolottoError>(
            SolottoError::Overflow,
        ),
{
    proof {
        assert(price_lamports * quantity <= u64::MAX * u32::MAX) by (nonlinear_arith)
            requires
                price_lamports <= u64::MAX,
                quantity <= u32::MAX,
        ;
    }
    let total: u128 = (price_lamports as u128) * (quantity as u128);
    if total > u64::MAX as u128 {
        Err(SolottoError::Overflow)
    } else {
        Ok(total as u64)
    }
}

/// Commission owed under a percentage fee policy: `percent` hundredths of
/// the gross amount, rounded down. The commission never exceeds the gross.
pub fn percent_commission(gross_lamports: u64, percent: u64) -> (r: u64)
    requires
        percent <= 100,
    ensures
        r == gross_lamports * percent / 100,
        r <= gross_lamports,
{
    proof {
        assert(gross_lamports * percent <= u64::MAX * 100) by (nonlinear_arith)
            requires
                gross_lamports <= u64::MAX,
                percent <= 100,
        ;
    }
    let product: u128 = (gross_lamports as u128) * (percent as u128);
    let commission: u128 = product / 100;
    proof {
        assert(gross_lamports * percent / 100 <= gross_lamports) by (nonlinear_arith)
            requires
                percent <= 100,
        ;
    }
    commission as u64
}

} // verus!
