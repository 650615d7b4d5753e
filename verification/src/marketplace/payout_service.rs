//! Payout service rules: which sales create payouts, which payouts may be
//! processed or cancelled, how the payment gateway's answer settles a payout,
//! and what a creator has earned. Amounts are in cents.
use crate::marketplace::payout::{is_final_status, PayoutRecord, PayoutStatus};
use crate::clock::{uuid_text, uuid_text_of};
use crate::marketplace::package::ScraperPackage;
use crate::marketplace::payout::creator_share;
use crate::marketplace::ports::{gateway_error_text, repository_error_text, PayoutGatewayError, RepositoryError};
use crate::text::{decimal, push_decimal};
use vstd::prelude::*;
use vstd::string::*;

verus! {

/// Errors that can occur in payout operations.
#[derive(Debug, Clone)]
pub enum PayoutError {
    PayoutNotFound(u128),
    PackageNotFound(u128),
    AlreadyProcessed(u128),
    InvalidAmount(String),
    GatewayError(String),
    RepositoryError(String),
}

/// The message of a payout error.
pub open spec fn payout_error_text(e: PayoutError) -> Seq<char> {
    match e {
        PayoutError::PayoutNotFound(id) => "Payout not found: "@ + uuid_text_of(id),
        PayoutError::PackageNotFound(id) => "Package not found: "@ + uuid_text_of(id),
        PayoutError::AlreadyProcessed(id) => "Payout already processed: "@ + uuid_text_of(id),
        PayoutError::InvalidAmount(m) => "Invalid amount: "@ + m@,
        PayoutError::GatewayError(m) => "Payment gateway error: "@ + m@,
        PayoutError::RepositoryError(m) => "Repository error: "@ + m@,
    }
}

impl PayoutError {
    /// The error's message.
    pub fn to_string(&self) -> (r: String)
        ensures
            r@ == payout_error_text(*self),
    {
        match self {
            PayoutError::PayoutNotFound(id) => String::from_str("Payout not found: ").concat(
                uuid_text(*id).as_str(),
            ),
            PayoutError::PackageNotFound(id) => String::from_str("Package not found: ").concat(
                uuid_text(*id).as_str(),
            ),
            PayoutError::AlreadyProcessed(id) => String::from_str(
                "Payout already processed: ",
            ).concat(uuid_text(*id).as_str()),
            PayoutError::InvalidAmount(m) => String::from_str("Invalid amount: ").concat(
                m.as_str(),
            ),
            PayoutError::GatewayError(m) => String::from_str("Payment gateway error: ").concat(
                m.as_str(),
            ),
            PayoutError::RepositoryError(m) => String::from_str("Repository error: ").concat(
                m.as_str(),
            ),
        }
    }
}

/// The smallest payout processed by default: one dollar.
pub const DEFAULT_MIN_PAYOUT_CENTS: u64 = 100;

/// A sale must be of a positive amount.
pub fn check_sale_amount(amount_cents: u64) -> (r: Result<(), PayoutError>)
    ensures
        amount_cents > 0 ==> r is Ok,
        amount_cents == 0 ==> (r matches Err(PayoutError::InvalidAmount(m)) && m@
            == "Amount must be positive"@),
{
    if amount_cents == 0 {
        return Err(PayoutError::InvalidAmount(String::from_str("Amount must be positive")));
    }
    Ok(())
}

/// An amount of cents written as dollars with two decimals, e.g. `12.05`.
pub open spec fn dollars_text(cents: nat) -> Seq<char> {
    decimal(cents / 100) + "."@ + decimal((cents % 100) / 10) + decimal(cents % 10)
}

/// Writes an amount of cents as dollars with two decimals.
pub fn dollars(cents: u64) -> (r: String)
    ensures
        r@ == dollars_text(cents as nat),
{
    let mut s = String::new();
    push_decimal(&mut s, cents / 100);
    s.append(".");
    push_decimal(&mut s, (cents % 100) / 10);
    push_decimal(&mut s, cents % 10);
    s
}

/// Starts processing a payout: a finalized payout is refused, so is one below
/// the minimum amount; otherwise the payout moves to `Processing`.
pub fn begin_payout(payout: PayoutRecord, min_payout_cents: u64) -> (r: Result<
    PayoutRecord,
    PayoutError,
>)
    ensures
        is_final_status(payout.status) ==> r == Err::<PayoutRecord, PayoutError>(
            PayoutError::AlreadyProcessed(payout.id),
        ),
        !is_final_status(payout.status) && payout.creator_amount < min_payout_cents ==> (r matches Err(
            PayoutError::InvalidAmount(m),
        ) && m@ == "Minimum payout amount is $"@ + dollars_text(min_payout_cents as nat)),
        !is_final_status(payout.status) && payout.creator_amount >= min_payout_cents ==> r == Ok::<
            PayoutRecord,
            PayoutError,
        >(PayoutRecord { status: PayoutStatus::Processing, ..payout }),
{
    if payout.is_finalized() {
        return Err(PayoutError::AlreadyProcessed(payout.id));
    }
    if payout.creator_amount < min_payout_cents {
        let message = String::from_str("Minimum payout amount is $").concat(
            dollars(min_payout_cents).as_str(),
        );
        return Err(PayoutError::InvalidAmount(message));
    }
    let mut payout = payout;
    payout.start_processing();
    Ok(payout)
}

/// Settles a payout with the gateway's answer: a transaction id completes it,
/// an error fails it with the error's message as the note.
pub fn settle_payout(payout: PayoutRecord, gateway: Result<String, PayoutGatewayError>) -> (r: PayoutRecord)
    ensures
        match gateway {
            Ok(tx) => r.status == PayoutStatus::Completed && r.transaction_id == Some(tx)
                && r.processed_at is Some && r == (PayoutRecord {
                status: PayoutStatus::Completed,
                processed_at: r.processed_at,
                transaction_id: Some(tx),
                ..payout
            }),
            Err(e) => r.status == PayoutStatus::Failed && (r.notes matches Some(n) && n@
                == gateway_error_text(e))
                && r.processed_at is Some && r == (PayoutRecord {
                status: PayoutStatus::Failed,
                processed_at: r.processed_at,
                notes: r.notes,
                ..payout
            }),
        },
{
    let mut payout = payout;
    match gateway {
        Ok(transaction_id) => payout.complete(transaction_id),
        Err(e) => payout.fail(e.to_string().as_str()),
    }
    payout
}

/// Cancels a payout that is not finalized yet, noting the reason.
pub fn cancel_pending(payout: PayoutRecord, reason: &str) -> (r: Result<PayoutRecord, PayoutError>)
    ensures
        is_final_status(payout.status) ==> r == Err::<PayoutRecord, PayoutError>(
            PayoutError::AlreadyProcessed(payout.id),
        ),
        !is_final_status(payout.status) ==> (r matches Ok(p) && p.status == PayoutStatus::Cancelled
            && p.processed_at is Some && (p.notes matches Some(n) && n@ == reason@) && p == (
        PayoutRecord {
            status: PayoutStatus::Cancelled,
            processed_at: p.processed_at,
            notes: p.notes,
            ..payout
        })),
{
    if payout.is_finalized() {
        return Err(PayoutError::AlreadyProcessed(payout.id));
    }
    let mut payout = payout;
    payout.cancel(Some(reason));
    Ok(payout)
}

/// The payouts of a sequence that have the given status, in order.
pub open spec fn with_status(payouts: Seq<PayoutRecord>, status: PayoutStatus) -> Seq<PayoutRecord>
    decreases payouts.len(),
{
    if payouts.len() == 0 {
        seq![]
    } else {
        let rest = with_status(payouts.drop_last(), status);
        if payouts.last().status == status {
            rest.push(payouts.last())
        } else {
            rest
        }
    }
}

/// The sum of the creator amounts of a sequence of payouts.
pub open spec fn creator_total(payouts: Seq<PayoutRecord>) -> nat
    decreases payouts.len(),
{
    if payouts.len() == 0 {
        0
    } else {
        creator_total(payouts.drop_last()) + payouts.last().creator_amount as nat
    }
}

/// The pending payouts among `payouts`, in their order.
pub fn pending_only(payouts: Vec<PayoutRecord>) -> (r: Vec<PayoutRecord>)
    ensures
        r@ == with_status(payouts@, PayoutStatus::Pending),
{
    let ghost all = payouts@;
    let mut rest = payouts;
    let mut kept: Vec<PayoutRecord> = Vec::new();
    let n = rest.len();
    let mut i: usize = 0;
    while i < n
        invariant
            n == all.len(),
            i <= n,
            rest@ =~= all.subrange(i as int, n as int),
            kept@ == with_status(all.take(i as int), PayoutStatus::Pending),
        decreases n - i,
    {
        let p = rest.remove(0);
        proof {
            assert(p == all[i as int]);
            assert(all.take(i + 1).drop_last() =~= all.take(i as int));
            assert(all.take(i + 1).last() == p);
        }
        if p.status == PayoutStatus::Pending {
            kept.push(p);
        }
        i = i + 1;
    }
    assert(all.take(n as int) =~= all);
    kept
}

/// The total of the creator amounts of the payouts with the given status.
pub fn earnings_with_status(payouts: &Vec<PayoutRecord>, status: PayoutStatus) -> (r: u128)
    ensures
        r == creator_total(with_status(payouts@, status)),
{
    let mut total: u128 = 0;
    let mut i: usize = 0;
    while i < payouts.len()
        invariant
            i <= payouts.len(),
            total == creator_total(with_status(payouts@.take(i as int), status)),
            total <= i * (u64::MAX as int),
        decreases payouts.len() - i,
    {
        proof {
            let t = payouts@.take(i + 1);
            assert(t.drop_last() =~= payouts@.take(i as int));
            assert(t.last() == payouts@[i as int]);
            lemma_with_status_total_bound(payouts@.take(i as int), status);
            assert((i + 1) * (u64::MAX as int) == i * (u64::MAX as int) + u64::MAX) by (
            nonlinear_arith);
            assert(i + 1 <= usize::MAX);
            assert((i + 1) * (u64::MAX as int) <= (usize::MAX as int) * (u64::MAX as int)) by (
            nonlinear_arith)
                requires
                    i + 1 <= usize::MAX,
            ;
            assert((usize::MAX as int) * (u64::MAX as int) <= u128::MAX) by (nonlinear_arith)
                requires
                    usize::MAX <= u64::MAX,
            ;
        }
        proof {
            let rest = with_status(payouts@.take(i as int), status);
            assert(rest.push(payouts@[i as int]).drop_last() =~= rest);
        }
        if payouts[i].status == status {
            total = total + payouts[i].creator_amount as u128;
        }
        i = i + 1;
    }
    assert(payouts@.take(payouts.len() as int) =~= payouts@);
    total
}

proof fn lemma_with_status_total_bound(payouts: Seq<PayoutRecord>, status: PayoutStatus)
    ensures
        creator_total(with_status(payouts, status)) <= payouts.len() * (u64::MAX as int),
    decreases payouts.len(),
{
    if payouts.len() > 0 {
        lemma_with_status_total_bound(payouts.drop_last(), status);
        let rest = with_status(payouts.drop_last(), status);
        if payouts.last().status == status {
            assert(rest.push(payouts.last()).drop_last() =~= rest);
        }
        assert(payouts.len() * (u64::MAX as int) == (payouts.len() - 1) * (u64::MAX as int)
            + u64::MAX) by (nonlinear_arith)
            requires
                payouts.len() >= 1,
        ;
    }
}

/// What a creator has earned: the total of their completed payouts.
pub fn total_earnings(payouts: &Vec<PayoutRecord>) -> (r: u128)
    ensures
        r == creator_total(with_status(payouts@, PayoutStatus::Completed)),
{
    earnings_with_status(payouts, PayoutStatus::Completed)
}

/// What a creator is still owed: the total of their pending payouts.
pub fn pending_earnings(payouts: &Vec<PayoutRecord>) -> (r: u128)
    ensures
        r == creator_total(with_status(payouts@, PayoutStatus::Pending)),
{
    earnings_with_status(payouts, PayoutStatus::Pending)
}

/// A repository failure, as the payout service reports it.
pub fn payout_repository_failure(e: &RepositoryError) -> (r: PayoutError)
    ensures
        r matches PayoutError::RepositoryError(m) && m@ == repository_error_text(*e),
{
    PayoutError::RepositoryError(e.to_string())
}

/// The payout that a lookup by id found, or `PayoutNotFound` for that id.
pub fn found_payout(found: Option<PayoutRecord>, id: u128) -> (r: Result<PayoutRecord, PayoutError>)
    ensures
        match found {
            Some(p) => r == Ok::<PayoutRecord, PayoutError>(p),
            None => r == Err::<PayoutRecord, PayoutError>(PayoutError::PayoutNotFound(id)),
        },
{
    match found {
        Some(p) => Ok(p),
        None => Err(PayoutError::PayoutNotFound(id)),
    }
}

/// The pending payout that a sale of `amount_cents` of the package found
/// under `package_id` creates: refused for a sale of nothing, and when no
/// package was found; otherwise due to the package's author, split 70/30.
pub fn payout_for_sale(found: Option<ScraperPackage>, package_id: u128, amount_cents: u64) -> (r:
    Result<PayoutRecord, PayoutError>)
    ensures
        amount_cents == 0 ==> (r matches Err(PayoutError::InvalidAmount(m)) && m@
            == "Amount must be positive"@),
        amount_cents > 0 && found is None ==> r == Err::<PayoutRecord, PayoutError>(
            PayoutError::PackageNotFound(package_id),
        ),
        amount_cents > 0 && found is Some ==> (r matches Ok(p) && {
            &&& p.creator == found->0.author
            &&& p.package_id == package_id
            &&& p.sale_amount == amount_cents
            &&& p.creator_amount == creator_share(amount_cents as nat)
            &&& p.creator_amount + p.platform_fee == amount_cents
            &&& p.status == PayoutStatus::Pending
            &&& p.processed_at is None
            &&& p.transaction_id is None
            &&& p.notes is None
        }),
{
    match check_sale_amount(amount_cents) {
        Err(e) => Err(e),
        Ok(()) => match found {
            None => Err(PayoutError::PackageNotFound(package_id)),
            Some(package) => Ok(PayoutRecord::from_sale(package.author, package_id, amount_cents)),
        },
    }
}

} // verus!
