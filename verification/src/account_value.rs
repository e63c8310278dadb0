//! Account value orders and requests: refund and withdrawal requests with
//! their idempotent replays and refund bounds, and the titles, SKUs and
//! states of account value orders.
use vstd::prelude::*;
use crate::error::{conflict, not_found, CommerceError, ErrorKind};
use crate::lifecycle::{opt_string_view, opt_view};
use crate::money::seq_sum;
use crate::settlement::{is_success_payment, payment_status_is_success};
use crate::text::{append_str, chars_eq, chars_of, string_of};

verus! {

/// The facts of a refund request that an idempotent replay must repeat.
#[derive(Clone, Debug)]
pub struct RefundRequestFacts {
    pub request_id: String,
    pub original_order_id: Option<String>,
    pub owner_user_id: String,
    pub target_asset: String,
    pub amount: String,
    pub currency_code: String,
    pub provider_amount: Option<String>,
    pub provider_currency_code: Option<String>,
    pub reason_code: Option<String>,
    pub reason_detail: Option<String>,
}

/// The facts of a withdrawal request that an idempotent replay must
/// repeat.
#[derive(Clone, Debug)]
pub struct WithdrawalRequestFacts {
    pub request_id: String,
    pub owner_user_id: String,
    pub asset: String,
    pub amount: String,
    pub currency_code: String,
    pub provider_amount: Option<String>,
    pub provider_currency_code: Option<String>,
    pub payout_method: Option<String>,
    pub payout_account_ref: Option<String>,
    pub reason_code: Option<String>,
}

fn same_text(a: &str, b: &str) -> (r: bool)
    ensures
        r == (a@ == b@),
{
    chars_eq(&chars_of(a), &chars_of(b))
}

fn same_opt(a: &Option<String>, b: &Option<String>) -> (r: bool)
    ensures
        r == (opt_string_view(*a) == opt_string_view(*b)),
{
    match (a, b) {
        (Some(x), Some(y)) => same_text(x.as_str(), y.as_str()),
        (None, None) => true,
        _ => false,
    }
}

pub open spec fn refund_replay_matches(command: RefundRequestFacts, stored: RefundRequestFacts) -> bool {
    &&& stored.request_id@ == command.request_id@
    &&& opt_string_view(stored.original_order_id) == opt_string_view(command.original_order_id)
    &&& stored.owner_user_id@ == command.owner_user_id@
    &&& stored.target_asset@ == command.target_asset@
    &&& stored.amount@ == command.amount@
    &&& stored.currency_code@ == command.currency_code@
    &&& opt_string_view(stored.provider_amount) == opt_string_view(command.provider_amount)
    &&& opt_string_view(stored.provider_currency_code) == opt_string_view(command.provider_currency_code)
    &&& opt_string_view(stored.reason_code) == opt_string_view(command.reason_code)
    &&& opt_string_view(stored.reason_detail) == opt_string_view(command.reason_detail)
}

/// A replayed refund request must repeat the stored request exactly.
pub fn validate_refund_request_replay(command: &RefundRequestFacts, stored: &RefundRequestFacts) -> (r:
    Result<(), CommerceError>)
    ensures
        r.is_ok() == refund_replay_matches(*command, *stored),
        r.is_err() ==> r->Err_0.kind == ErrorKind::Conflict,
{
    let matches = same_text(stored.request_id.as_str(), command.request_id.as_str()) && same_opt(
        &stored.original_order_id,
        &command.original_order_id,
    ) && same_text(stored.owner_user_id.as_str(), command.owner_user_id.as_str()) && same_text(
        stored.target_asset.as_str(),
        command.target_asset.as_str(),
    ) && same_text(stored.amount.as_str(), command.amount.as_str()) && same_text(
        stored.currency_code.as_str(),
        command.currency_code.as_str(),
    ) && same_opt(&stored.provider_amount, &command.provider_amount) && same_opt(
        &stored.provider_currency_code,
        &command.provider_currency_code,
    ) && same_opt(&stored.reason_code, &command.reason_code) && same_opt(
        &stored.reason_detail,
        &command.reason_detail,
    );
    if matches {
        Ok(())
    } else {
        Err(conflict("idempotency key was used with a different refund request"))
    }
}

pub open spec fn withdrawal_replay_matches(command: WithdrawalRequestFacts, stored: WithdrawalRequestFacts) -> bool {
    &&& stored.request_id@ == command.request_id@
    &&& stored.owner_user_id@ == command.owner_user_id@
    &&& stored.asset@ == command.asset@
    &&& stored.amount@ == command.amount@
    &&& stored.currency_code@ == command.currency_code@
    &&& opt_string_view(stored.provider_amount) == opt_string_view(command.provider_amount)
    &&& opt_string_view(stored.provider_currency_code) == opt_string_view(command.provider_currency_code)
    &&& opt_string_view(stored.payout_method) == opt_string_view(command.payout_method)
    &&& opt_string_view(stored.payout_account_ref) == opt_string_view(command.payout_account_ref)
    &&& opt_string_view(stored.reason_code) == opt_string_view(command.reason_code)
}

/// A replayed withdrawal request must repeat the stored request exactly.
pub fn validate_withdrawal_request_replay(
    command: &WithdrawalRequestFacts,
    stored: &WithdrawalRequestFacts,
) -> (r: Result<(), CommerceError>)
    ensures
        r.is_ok() == withdrawal_replay_matches(*command, *stored),
        r.is_err() ==> r->Err_0.kind == ErrorKind::Conflict,
{
    let matches = same_text(stored.request_id.as_str(), command.request_id.as_str()) && same_text(
        stored.owner_user_id.as_str(),
        command.owner_user_id.as_str(),
    ) && same_text(stored.asset.as_str(), command.asset.as_str()) && same_text(
        stored.amount.as_str(),
        command.amount.as_str(),
    ) && same_text(stored.currency_code.as_str(), command.currency_code.as_str()) && same_opt(
        &stored.provider_amount,
        &command.provider_amount,
    ) && same_opt(&stored.provider_currency_code, &command.provider_currency_code) && same_opt(
        &stored.payout_method,
        &command.payout_method,
    ) && same_opt(&stored.payout_account_ref, &command.payout_account_ref) && same_opt(
        &stored.reason_code,
        &command.reason_code,
    );
    if matches {
        Ok(())
    } else {
        Err(conflict("idempotency key was used with a different withdrawal request"))
    }
}

/// A refund request may only be opened on a paid order: a missing order is
/// not found, an unpaid one a conflict.
pub fn ensure_refundable_order(payment_status: Option<&str>) -> (r: Result<(), CommerceError>)
    ensures
        payment_status.is_none() ==> r.is_err() && r->Err_0.kind == ErrorKind::NotFound,
        payment_status.is_some() ==> r.is_ok() == is_success_payment(opt_view(payment_status)),
        payment_status.is_some() && r.is_err() ==> r->Err_0.kind == ErrorKind::Conflict,
{
    match payment_status {
        None => Err(not_found("order was not found for refund request")),
        Some(_) => {
            if payment_status_is_success(payment_status) {
                Ok(())
            } else {
                Err(conflict("order is not paid; refund requests require a paid order"))
            }
        },
    }
}

/// Would a refund of `amount` stay within what the order paid, given the
/// refunds already in flight?
pub open spec fn within_refund_bounds(payable: int, in_flight: Seq<i64>, amount: int) -> bool {
    payable >= seq_sum(in_flight) + amount
}

proof fn lemma_partial_sum_bound(s: Seq<i64>, k: int)
    requires
        0 <= k <= s.len(),
    ensures
        -(k * 0x8000_0000_0000_0000) <= seq_sum(s.take(k)) <= k * 0x7fff_ffff_ffff_ffff,
    decreases k,
{
    if k > 0 {
        lemma_partial_sum_bound(s, k - 1);
        assert(s.take(k).drop_last() =~= s.take(k - 1));
        assert(s.take(k).last() == s[k - 1]);
    }
}

/// Does a refund of `amount` fit within the order's payable amount next
/// to the refunds in flight (requests not rejected and not failed at the
/// provider)?
pub fn refund_within_bounds(payable_minor: i64, in_flight: &Vec<i64>, amount: i64) -> (r: bool)
    requires
        in_flight@.len() < 0x8000_0000_0000_0000int,
    ensures
        r == within_refund_bounds(payable_minor as int, in_flight@, amount as int),
{
    let mut total: i128 = 0;
    let mut i: usize = 0;
    proof {
        assert(in_flight@.take(0) =~= Seq::<i64>::empty());
    }
    while i < in_flight.len()
        invariant
            i <= in_flight@.len(),
            in_flight@.len() < 0x8000_0000_0000_0000int,
            total == seq_sum(in_flight@.take(i as int)),
        decreases in_flight.len() - i,
    {
        proof {
            lemma_partial_sum_bound(in_flight@, i + 1);
            assert(in_flight@.take(i + 1).drop_last() =~= in_flight@.take(i as int));
            assert((i + 1) * 0x7fff_ffff_ffff_ffff <= 0x8000_0000_0000_0000int * 0x7fff_ffff_ffff_ffff) by (nonlinear_arith)
                requires i + 1 <= 0x8000_0000_0000_0000int;
            assert((i + 1) * 0x8000_0000_0000_0000 <= 0x8000_0000_0000_0000int * 0x8000_0000_0000_0000) by (nonlinear_arith)
                requires i + 1 <= 0x8000_0000_0000_0000int;
        }
        total = total + in_flight[i] as i128;
        i = i + 1;
    }
    proof {
        assert(in_flight@.take(in_flight@.len() as int) =~= in_flight@);
        lemma_partial_sum_bound(in_flight@, in_flight@.len() as int);
        assert(in_flight@.len() * 0x7fff_ffff_ffff_ffff <= 0x8000_0000_0000_0000int * 0x7fff_ffff_ffff_ffff) by (nonlinear_arith)
            requires in_flight@.len() <= 0x8000_0000_0000_0000int;
        assert(in_flight@.len() * 0x8000_0000_0000_0000 <= 0x8000_0000_0000_0000int * 0x8000_0000_0000_0000) by (nonlinear_arith)
            requires in_flight@.len() <= 0x8000_0000_0000_0000int;
    }
    (payable_minor as i128) >= total + (amount as i128)
}

/// An operator's refund request: the order must exist and be paid, and
/// the refund must stay within what it paid next to refunds in flight.
pub fn check_admin_refund_request(payment_status: Option<&str>, within_bounds: bool) -> (r: Result<
    (),
    CommerceError,
>)
    ensures
        payment_status.is_none() ==> r.is_err() && r->Err_0.kind == ErrorKind::NotFound,
        payment_status.is_some() ==> r.is_ok() == (is_success_payment(opt_view(payment_status))
            && within_bounds),
        payment_status.is_some() && r.is_err() ==> r->Err_0.kind == ErrorKind::Conflict,
{
    ensure_refundable_order(payment_status)?;
    if !within_bounds {
        return Err(conflict("refund amount exceeds the remaining refundable amount of the order"));
    }
    Ok(())
}

/// An accepted refund request never takes the refunds of an order beyond
/// what the order paid.
pub proof fn law_accepted_refunds_stay_within_payable(
    payable: int,
    in_flight: Seq<i64>,
    amount: int,
)
    requires
        within_refund_bounds(payable, in_flight, amount),
    ensures
        seq_sum(in_flight.push(amount as i64)) <= payable || !(i64::MIN <= amount <= i64::MAX),
{
    if i64::MIN <= amount <= i64::MAX {
        assert(in_flight.push(amount as i64).drop_last() =~= in_flight);
    }
}

/// The kinds of account value order and request.
#[derive(Clone, Copy, Debug, PartialEq, Eq, Structural)]
pub enum AccountValueOrderSubject {
    TokenBankRecharge,
    TokenBankPlanPurchase,
    TokenBankPlanRenewal,
    AccountRechargePackage,
    CouponRecharge,
    RefundRequest,
    CashWithdrawal,
}

/// The title of an account value order.
pub fn account_value_order_title(subject: AccountValueOrderSubject) -> (r: &'static str)
    ensures
        r@ == match subject {
            AccountValueOrderSubject::TokenBankRecharge => "Token Bank recharge"@,
            AccountValueOrderSubject::TokenBankPlanPurchase => "Token Bank plan purchase"@,
            AccountValueOrderSubject::TokenBankPlanRenewal => "Token Bank plan renewal"@,
            AccountValueOrderSubject::AccountRechargePackage => "Account recharge package"@,
            AccountValueOrderSubject::CouponRecharge => "Coupon recharge"@,
            _ => "Account value order"@,
        },
{
    match subject {
        AccountValueOrderSubject::TokenBankRecharge => "Token Bank recharge",
        AccountValueOrderSubject::TokenBankPlanPurchase => "Token Bank plan purchase",
        AccountValueOrderSubject::TokenBankPlanRenewal => "Token Bank plan renewal",
        AccountValueOrderSubject::AccountRechargePackage => "Account recharge package",
        AccountValueOrderSubject::CouponRecharge => "Coupon recharge",
        _ => "Account value order",
    }
}

/// The SKU an account value order line names: the package, else the plan,
/// else the coupon code, else `account-value-{asset}`.
pub fn account_value_sku_id(
    package_id: &Option<String>,
    plan_code: &Option<String>,
    coupon_code: Option<&str>,
    target_asset: &str,
) -> (r: String)
    ensures
        r@ == match opt_string_view(*package_id) {
            Some(p) => p,
            None => match opt_string_view(*plan_code) {
                Some(c) => c,
                None => match opt_view(coupon_code) {
                    Some(c) => c,
                    None => "account-value-"@ + target_asset@,
                },
            },
        },
{
    match package_id {
        Some(p) => p.clone(),
        None => match plan_code {
            Some(c) => c.clone(),
            None => match coupon_code {
                Some(c) => c.to_owned(),
                None => {
                    let mut v = chars_of("account-value-");
                    append_str(&mut v, target_asset);
                    string_of(&v)
                },
            },
        },
    }
}

/// The state a new coupon order starts in, and what comes next: paid
/// coupons wait for payment, free ones go straight to fulfillment.
pub fn coupon_order_initial_state(payment_required: bool) -> (r: (&'static str, &'static str))
    ensures
        payment_required ==> r.0@ == "pending"@ && r.1@ == "pay"@,
        !payment_required ==> r.0@ == "pending_fulfillment"@ && r.1@ == "fulfill"@,
{
    if payment_required {
        ("pending", "pay")
    } else {
        ("pending_fulfillment", "fulfill")
    }
}

/// A review or status update that touched no request row: the request
/// does not exist.
pub fn ensure_request_updated(updated_rows: u64, subject: AccountValueOrderSubject) -> (r: Result<
    (),
    CommerceError,
>)
    ensures
        r.is_ok() == (updated_rows > 0),
        r.is_err() ==> r->Err_0.kind == ErrorKind::NotFound,
{
    if updated_rows > 0 {
        return Ok(());
    }
    match subject {
        AccountValueOrderSubject::CashWithdrawal => Err(not_found("withdrawal request was not found")),
        _ => Err(not_found("refund request was not found")),
    }
}

/// A lowercase hexadecimal digit.
pub open spec fn is_lower_hex(c: char) -> bool {
    ('0' <= c && c <= '9') || ('a' <= c && c <= 'f')
}

/// The hyphenated lowercase text of a random (version 4, RFC 4122 variant)
/// UUID: 8-4-4-4-12 hexadecimal digits, a `4` opening the third group and
/// one of `8`, `9`, `a`, `b` opening the fourth.
pub open spec fn random_uuid_shape(s: Seq<char>) -> bool {
    &&& s.len() == 36
    &&& forall|i: int|
        0 <= i < 36 ==> if i == 8 || i == 13 || i == 18 || i == 23 {
            s[i] == '-'
        } else {
            is_lower_hex(#[trigger] s[i])
        }
    &&& s[14] == '4'
    &&& (s[19] == '8' || s[19] == '9' || s[19] == 'a' || s[19] == 'b')
}

/// `uuid::Uuid::new_v4` written with `to_string`: its source fills sixteen
/// random bytes, sets the version and variant bits, and writes the
/// hyphenated lowercase form, so the text has the shape of
/// [`random_uuid_shape`]. Which id comes out is not claimed.
#[verifier::external_body]
fn random_uuid_text() -> (r: String)
    ensures
        random_uuid_shape(r@),
{
    uuid::Uuid::new_v4().to_string()
}

/// The id an account value package is stored under: the one given, else a
/// new random id.
pub fn account_value_package_id(package_id: &Option<String>) -> (r: String)
    ensures
        package_id.is_some() ==> r@ == package_id.unwrap()@,
        package_id.is_none() ==> random_uuid_shape(r@),
{
    match package_id {
        Some(p) => p.clone(),
        None => random_uuid_text(),
    }
}

} // verus!
