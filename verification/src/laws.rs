//! What holds of the escrow state machine across operations.

use vstd::prelude::*;

use crate::errors::EscrowError;
use crate::instructions::cancel_escrow::CancelEscrow;
use crate::instructions::raise_dispute::RaiseDispute;
use crate::instructions::refund_buyer::RefundBuyer;
use crate::instructions::release_funds::ReleaseFunds;
use crate::instructions::resolve_dispute::{buyer_share, seller_share, DisputeResolution, ResolveDispute};
use crate::state::{Escrow, EscrowStatus};

verus! {

/// Completed and cancelled escrows are terminal.
pub open spec fn is_terminal(status: EscrowStatus) -> bool {
    status == EscrowStatus::Completed || status == EscrowStatus::Cancelled
}

/// Two records differ at most in their status.
pub open spec fn same_terms(before: Escrow, after: Escrow) -> bool {
    after == (Escrow { status: after.status, ..before })
}

/// A release succeeds only on an active escrow, and on any other status a
/// release by the escrow's own parties is refused with `InvalidState`. Where
/// parties, fee accounts and balances are in order, it succeeds exactly on an
/// active escrow.
pub proof fn lemma_release_succeeds_iff_active(
    ctx: ReleaseFunds,
    config_address: Option<(Seq<u8>, u8)>,
    fee_collector_address: Option<(Seq<u8>, u8)>,
)
    ensures
        ctx.refusal(config_address, fee_collector_address) is None ==> ctx.escrow.data.status
            == EscrowStatus::Active,
        ctx.parties_match() && ctx.escrow.data.status != EscrowStatus::Active ==> ctx.refusal(
            config_address,
            fee_collector_address,
        ) == Some(EscrowError::InvalidState),
        ctx.funded_and_authorized(config_address, fee_collector_address) ==> (ctx.refusal(
            config_address,
            fee_collector_address,
        ) is None <==> ctx.escrow.data.status == EscrowStatus::Active),
{
}

/// A release cannot be repeated: after a successful one the escrow is
/// completed, and a second release is refused with `InvalidState` whatever
/// addresses are derived for it.
pub proof fn lemma_release_happens_once(
    ctx: ReleaseFunds,
    config_address: Option<(Seq<u8>, u8)>,
    fee_collector_address: Option<(Seq<u8>, u8)>,
    later_config_address: Option<(Seq<u8>, u8)>,
    later_fee_collector_address: Option<(Seq<u8>, u8)>,
)
    requires
        ctx.refusal(config_address, fee_collector_address) is None,
    ensures
        ctx.released().escrow.data.status == EscrowStatus::Completed,
        ctx.released().refusal(later_config_address, later_fee_collector_address) == Some(
            EscrowError::InvalidState,
        ),
{
}

/// A release conserves value: the fee and the seller's part are the escrow's
/// amount exactly, the vault gives up that amount and no more, the seller and
/// the fee vault gain their parts, and the three balances together hold what
/// they held before.
pub proof fn lemma_release_conserves(
    ctx: ReleaseFunds,
    config_address: Option<(Seq<u8>, u8)>,
    fee_collector_address: Option<(Seq<u8>, u8)>,
)
    requires
        ctx.refusal(config_address, fee_collector_address) is None,
    ensures
        0 <= ctx.fee_amount() <= ctx.escrow.data.amount,
        ctx.fee_amount() + ctx.seller_amount() == ctx.escrow.data.amount,
        ctx.escrow.balance - ctx.released().escrow.balance == ctx.escrow.data.amount,
        ctx.released().seller.balance - ctx.seller.balance == ctx.seller_amount(),
        ctx.charges_fee() ==> ctx.released().fee_collector->0.balance - ctx.fee_collector->0.balance
            == ctx.fee_amount(),
        !ctx.charges_fee() ==> ctx.fee_amount() == 0 && ctx.released().fee_collector == ctx.fee_collector,
        ctx.released().total_value() == ctx.total_value(),
{
}

/// A resolution conserves value: the two shares are the escrow's amount
/// exactly, the vault gives up that amount and no more, each party gains its
/// share, and the three balances together hold what they held before.
pub proof fn lemma_resolution_conserves(ctx: ResolveDispute, resolution: DisputeResolution)
    requires
        ctx.refusal(resolution) is None,
    ensures
        buyer_share(ctx.escrow.data.amount, resolution) + seller_share(ctx.escrow.data.amount, resolution)
            == ctx.escrow.data.amount,
        ctx.escrow.balance - ctx.resolved(resolution).escrow.balance == ctx.escrow.data.amount,
        ctx.resolved(resolution).buyer.balance - ctx.buyer.balance == buyer_share(
            ctx.escrow.data.amount,
            resolution,
        ),
        ctx.resolved(resolution).seller.balance - ctx.seller.balance == seller_share(
            ctx.escrow.data.amount,
            resolution,
        ),
        ctx.resolved(resolution).total_value() == ctx.total_value(),
{
}

/// A terminal escrow never changes again: every operation on it is refused.
pub proof fn lemma_terminal_escrow_is_final(
    release: ReleaseFunds,
    config_address: Option<(Seq<u8>, u8)>,
    fee_collector_address: Option<(Seq<u8>, u8)>,
    cancel: CancelEscrow,
    raise: RaiseDispute,
    refund: RefundBuyer,
    retained: u64,
    resolve: ResolveDispute,
    resolution: DisputeResolution,
)
    ensures
        is_terminal(release.escrow.data.status) ==> release.refusal(config_address, fee_collector_address)
            is Some,
        is_terminal(cancel.escrow.data.status) ==> cancel.refusal() is Some,
        is_terminal(raise.escrow.data.status) ==> raise.refusal() is Some,
        is_terminal(refund.escrow.data.status) ==> refund.refusal(retained) is Some,
        is_terminal(resolve.escrow.data.status) ==> resolve.refusal(resolution) is Some,
{
}

/// Every successful operation moves the escrow along a legal transition and
/// changes nothing of the record but its status, so a well-formed record
/// stays well-formed.
pub proof fn lemma_operations_follow_the_state_machine(
    release: ReleaseFunds,
    config_address: Option<(Seq<u8>, u8)>,
    fee_collector_address: Option<(Seq<u8>, u8)>,
    cancel: CancelEscrow,
    raise: RaiseDispute,
    refund: RefundBuyer,
    retained: u64,
    resolve: ResolveDispute,
    resolution: DisputeResolution,
)
    ensures
        release.refusal(config_address, fee_collector_address) is None ==> {
            &&& Escrow::legal_transition(release.escrow.data.status, release.released().escrow.data.status)
            &&& same_terms(release.escrow.data, release.released().escrow.data)
        },
        cancel.refusal() is None ==> {
            &&& Escrow::legal_transition(cancel.escrow.data.status, cancel.cancelled().escrow.data.status)
            &&& same_terms(cancel.escrow.data, cancel.cancelled().escrow.data)
        },
        raise.refusal() is None ==> {
            &&& Escrow::legal_transition(raise.escrow.data.status, raise.disputed().escrow.data.status)
            &&& same_terms(raise.escrow.data, raise.disputed().escrow.data)
        },
        refund.refusal(retained) is None ==> {
            &&& Escrow::legal_transition(refund.escrow.data.status, refund.refunded(retained).escrow.data.status)
            &&& same_terms(refund.escrow.data, refund.refunded(retained).escrow.data)
        },
        resolve.refusal(resolution) is None ==> {
            &&& Escrow::legal_transition(
                resolve.escrow.data.status,
                resolve.resolved(resolution).escrow.data.status,
            )
            &&& same_terms(resolve.escrow.data, resolve.resolved(resolution).escrow.data)
        },
{
}

/// Records that differ only in their status are well-formed together.
pub proof fn lemma_same_terms_keep_wf(before: Escrow, after: Escrow)
    requires
        same_terms(before, after),
    ensures
        before.wf() == after.wf(),
{
}

} // verus!
