//! Payout record entity for revenue distribution.
//!
//! Amounts are in cents. Revenue model: 70% to the creator, the rest (30%)
//! to the SynMem platform.
use crate::clock::{new_id, now_millis};
use vstd::prelude::*;
use vstd::string::*;

verus! {

/// Status of a payout.
#[derive(Debug, Clone, Copy, PartialEq, Eq, Structural)]
pub enum PayoutStatus {
    /// Payout is pending processing
    Pending,
    /// Payout is being processed
    Processing,
    /// Payout completed successfully
    Completed,
    /// Payout failed
    Failed,
    /// Payout was cancelled
    Cancelled,
}

impl Default for PayoutStatus {
    fn default() -> (r: Self)
        ensures
            r == PayoutStatus::Pending,
    {
        PayoutStatus::Pending
    }
}

/// Revenue share of creators, in percent.
pub const CREATOR_SHARE_PERCENT: u64 = 70;

/// Revenue share of the platform, in percent.
pub const PLATFORM_SHARE_PERCENT: u64 = 30;

/// The creator's part of an amount: 70%, rounded down to the cent.
pub open spec fn creator_share(amount: nat) -> nat {
    amount * 70 / 100
}

/// The platform's part of an amount: what is left after the creator's part.
pub open spec fn platform_share(amount: nat) -> nat {
    (amount - creator_share(amount)) as nat
}

/// A status from which a payout does not move on: completed, failed or cancelled.
pub open spec fn is_final_status(s: PayoutStatus) -> bool {
    s == PayoutStatus::Completed || s == PayoutStatus::Failed || s == PayoutStatus::Cancelled
}

/// The creator's 70% of an amount in cents, rounded down.
pub fn creator_cut(amount: u64) -> (r: u64)
    ensures
        r == creator_share(amount as nat),
        r <= amount,
{
    let r = (amount as u128 * 70 / 100) as u64;
    r
}

/// The platform's part of an amount in cents: the amount less the creator's cut.
pub fn platform_cut(amount: u64) -> (r: u64)
    ensures
        r == platform_share(amount as nat),
        r + creator_share(amount as nat) == amount,
{
    amount - creator_cut(amount)
}

/// Record of a payout to a scraper creator.
#[derive(Debug, Clone)]
pub struct PayoutRecord {
    /// Unique identifier
    pub id: u128,
    /// Creator username
    pub creator: String,
    /// Package ID that generated the revenue
    pub package_id: u128,
    /// Sale amount in cents (full price paid by user)
    pub sale_amount: u64,
    /// Creator payout amount in cents (70%)
    pub creator_amount: u64,
    /// Platform fee in cents (30%)
    pub platform_fee: u64,
    /// Payout status
    pub status: PayoutStatus,
    /// Date the sale occurred (milliseconds since the Unix epoch)
    pub sale_date: i64,
    /// Date the payout was processed (milliseconds since the Unix epoch)
    pub processed_at: Option<i64>,
    /// Transaction ID from payment processor
    pub transaction_id: Option<String>,
    /// Optional notes
    pub notes: Option<String>,
}

impl PayoutRecord {
    /// Creates a new pending payout record from a sale of `sale_amount` cents,
    /// split 70/30 between the creator and the platform.
    pub fn from_sale(creator: String, package_id: u128, sale_amount: u64) -> (r: Self)
        ensures
            r.creator == creator,
            r.package_id == package_id,
            r.sale_amount == sale_amount,
            r.creator_amount == creator_share(sale_amount as nat),
            r.platform_fee == platform_share(sale_amount as nat),
            r.status == PayoutStatus::Pending,
            r.processed_at is None,
            r.transaction_id is None,
            r.notes is None,
    {
        PayoutRecord {
            id: new_id(),
            creator,
            package_id,
            sale_amount,
            creator_amount: creator_cut(sale_amount),
            platform_fee: platform_cut(sale_amount),
            status: PayoutStatus::Pending,
            sale_date: now_millis(),
            processed_at: None,
            transaction_id: None,
            notes: None,
        }
    }

    /// Marks the payout as processing.
    pub fn start_processing(&mut self)
        ensures
            *final(self) == (PayoutRecord { status: PayoutStatus::Processing, ..*old(self) }),
    {
        self.status = PayoutStatus::Processing;
    }

    /// Marks the payout as completed with the processor's transaction id.
    pub fn complete(&mut self, transaction_id: String)
        ensures
            final(self).status == PayoutStatus::Completed,
            final(self).processed_at is Some,
            final(self).transaction_id == Some(transaction_id),
            *final(self) == (PayoutRecord {
                status: PayoutStatus::Completed,
                processed_at: final(self).processed_at,
                transaction_id: Some(transaction_id),
                ..*old(self)
            }),
    {
        self.status = PayoutStatus::Completed;
        self.processed_at = Some(now_millis());
        self.transaction_id = Some(transaction_id);
    }

    /// Marks the payout as failed, noting the reason.
    pub fn fail(&mut self, reason: &str)
        ensures
            final(self).status == PayoutStatus::Failed,
            final(self).processed_at is Some,
            final(self).notes matches Some(n) && n@ == reason@,
            *final(self) == (PayoutRecord {
                status: PayoutStatus::Failed,
                processed_at: final(self).processed_at,
                notes: final(self).notes,
                ..*old(self)
            }),
    {
        self.status = PayoutStatus::Failed;
        self.processed_at = Some(now_millis());
        self.notes = Some(String::from_str(reason));
    }

    /// Cancels the payout, noting the reason when one is given.
    pub fn cancel(&mut self, reason: Option<&str>)
        ensures
            final(self).status == PayoutStatus::Cancelled,
            final(self).processed_at is Some,
            match reason {
                Some(r) => final(self).notes matches Some(n) && n@ == r@,
                None => final(self).notes == old(self).notes,
            },
            *final(self) == (PayoutRecord {
                status: PayoutStatus::Cancelled,
                processed_at: final(self).processed_at,
                notes: final(self).notes,
                ..*old(self)
            }),
    {
        self.status = PayoutStatus::Cancelled;
        self.processed_at = Some(now_millis());
        if let Some(r) = reason {
            self.notes = Some(String::from_str(r));
        }
    }

    /// Returns true if the payout is finalized (completed, failed, or cancelled).
    pub fn is_finalized(&self) -> (r: bool)
        ensures
            r == is_final_status(self.status),
    {
        match self.status {
            PayoutStatus::Completed | PayoutStatus::Failed | PayoutStatus::Cancelled => true,
            _ => false,
        }
    }
}

/// The two shares of a sale add up to the sale, and the creator gets 70% of it
/// up to rounding: `70 * amount - 100 < 100 * creator <= 70 * amount`.
pub proof fn law_shares_add_up(amount: nat)
    ensures
        creator_share(amount) + platform_share(amount) == amount,
        100 * creator_share(amount) <= 70 * amount,
        70 * amount < 100 * creator_share(amount) + 100,
{
}

/// Completing, failing or cancelling a payout finalizes it; a pending or
/// processing payout is not finalized.
pub proof fn law_finalization()
    ensures
        is_final_status(PayoutStatus::Completed),
        is_final_status(PayoutStatus::Failed),
        is_final_status(PayoutStatus::Cancelled),
        !is_final_status(PayoutStatus::Pending),
        !is_final_status(PayoutStatus::Processing),
{
}

} // verus!
