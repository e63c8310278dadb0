//! Payment provider reconciliation and the compensation pass: how provider
//! states and raw statuses map onto each other, what a query of the
//! provider settles, and how a pass is accounted.
use vstd::prelude::*;
use crate::error::{conflict, provider_unavailable, storage, validation, CommerceError, ErrorKind};
use crate::json::{json_member_at, json_pointer_member, member_integer, member_text, JsonMember};
use crate::money::{decimal_major_to_minor, major_decimal_minor};
use crate::lifecycle::{opt_string_view, opt_view};
use crate::settlement::OrderPaymentSettlementAttempt;
use crate::text::{
    append_str, chars_eq_str, chars_of, is_upper_ascii, is_ws, lower_seq, string_of, trim, trim_end,
    trim_chars, trim_lower, trim_start, lower_chars, chars_eq, parse_i64, parse_i64_chars,
};

verus! {

/// The provider state a payment query reports.
#[derive(Clone, Copy, Debug, PartialEq, Eq, Structural)]
pub enum ProviderPaymentQueryState {
    Succeeded,
    Canceled,
    Failed,
    Pending,
}

/// The provider state a refund query reports.
#[derive(Clone, Copy, Debug, PartialEq, Eq, Structural)]
pub enum ProviderRefundSubmissionState {
    Succeeded,
    Failed,
    Processing,
}

/// The raw status each provider uses for a payment query state, so that
/// the notify ingest reads back the same state; `None` where the provider
/// has no such status.
pub open spec fn payment_raw_status(provider: Seq<char>, state: ProviderPaymentQueryState) -> Option<
    Seq<char>,
> {
    if provider == "stripe"@ {
        match state {
            ProviderPaymentQueryState::Succeeded => Some("succeeded"@),
            ProviderPaymentQueryState::Canceled => Some("canceled"@),
            ProviderPaymentQueryState::Failed => Some("payment_failed"@),
            ProviderPaymentQueryState::Pending => Some("processing"@),
        }
    } else if provider == "wechat_pay"@ {
        match state {
            ProviderPaymentQueryState::Succeeded => Some("success"@),
            ProviderPaymentQueryState::Canceled => Some("closed"@),
            ProviderPaymentQueryState::Pending => Some("userpaying"@),
            ProviderPaymentQueryState::Failed => None,
        }
    } else if provider == "alipay"@ {
        match state {
            ProviderPaymentQueryState::Succeeded => Some("trade_success"@),
            ProviderPaymentQueryState::Canceled => Some("trade_closed"@),
            ProviderPaymentQueryState::Pending => Some("wait_buyer_pay"@),
            ProviderPaymentQueryState::Failed => None,
        }
    } else if provider == "sandbox"@ {
        match state {
            ProviderPaymentQueryState::Succeeded => Some("succeeded"@),
            ProviderPaymentQueryState::Canceled => Some("canceled"@),
            ProviderPaymentQueryState::Failed => Some("failed"@),
            ProviderPaymentQueryState::Pending => Some("pending"@),
        }
    } else {
        None
    }
}

/// The raw status each provider uses for a terminal refund state;
/// processing refunds have none (they are claimed again later).
pub open spec fn refund_raw_status(provider: Seq<char>, state: ProviderRefundSubmissionState) -> Option<
    Seq<char>,
> {
    match state {
        ProviderRefundSubmissionState::Processing => None,
        ProviderRefundSubmissionState::Succeeded => if provider == "wechat_pay"@ || provider
            == "sandbox"@ {
            Some("success"@)
        } else if provider == "stripe"@ {
            Some("succeeded"@)
        } else if provider == "alipay"@ {
            Some("refund_success"@)
        } else {
            None
        },
        ProviderRefundSubmissionState::Failed => if provider == "wechat_pay"@ || provider
            == "sandbox"@ {
            Some("closed"@)
        } else if provider == "stripe"@ {
            Some("failed"@)
        } else if provider == "alipay"@ {
            Some("refund_failed"@)
        } else {
            None
        },
    }
}

/// The raw payment status each provider is answered with, by state:
/// Stripe `succeeded`, `canceled`, `payment_failed`, `processing`; WeChat
/// Pay `success`, `closed`, `userpaying` and nothing for a failure; Alipay
/// `trade_success`, `trade_closed`, `wait_buyer_pay` and nothing for a
/// failure; the sandbox `succeeded`, `canceled`, `failed`, `pending`; any
/// other provider nothing. Refunds: success is `success` (WeChat Pay,
/// sandbox), `succeeded` (Stripe) or `refund_success` (Alipay); failure is
/// `closed`, `failed` or `refund_failed` likewise; a processing refund and
/// any other provider have none.
pub proof fn law_raw_status_tables(provider: Seq<char>)
    ensures
        provider == "stripe"@ ==> payment_raw_status(provider, ProviderPaymentQueryState::Succeeded) == Some(
            "succeeded"@,
        ) && payment_raw_status(provider, ProviderPaymentQueryState::Canceled) == Some("canceled"@)
            && payment_raw_status(provider, ProviderPaymentQueryState::Failed) == Some("payment_failed"@)
            && payment_raw_status(provider, ProviderPaymentQueryState::Pending) == Some("processing"@)
            && refund_raw_status(provider, ProviderRefundSubmissionState::Succeeded) == Some("succeeded"@)
            && refund_raw_status(provider, ProviderRefundSubmissionState::Failed) == Some("failed"@),
        provider == "wechat_pay"@ ==> payment_raw_status(provider, ProviderPaymentQueryState::Succeeded)
            == Some("success"@) && payment_raw_status(provider, ProviderPaymentQueryState::Canceled) == Some(
            "closed"@,
        ) && payment_raw_status(provider, ProviderPaymentQueryState::Failed).is_none() && payment_raw_status(
            provider,
            ProviderPaymentQueryState::Pending,
        ) == Some("userpaying"@) && refund_raw_status(provider, ProviderRefundSubmissionState::Succeeded)
            == Some("success"@) && refund_raw_status(provider, ProviderRefundSubmissionState::Failed) == Some(
            "closed"@,
        ),
        provider == "alipay"@ ==> payment_raw_status(provider, ProviderPaymentQueryState::Succeeded) == Some(
            "trade_success"@,
        ) && payment_raw_status(provider, ProviderPaymentQueryState::Canceled) == Some("trade_closed"@)
            && payment_raw_status(provider, ProviderPaymentQueryState::Failed).is_none() && payment_raw_status(
            provider,
            ProviderPaymentQueryState::Pending,
        ) == Some("wait_buyer_pay"@) && refund_raw_status(provider, ProviderRefundSubmissionState::Succeeded)
            == Some("refund_success"@) && refund_raw_status(provider, ProviderRefundSubmissionState::Failed)
            == Some("refund_failed"@),
        provider == "sandbox"@ ==> payment_raw_status(provider, ProviderPaymentQueryState::Succeeded) == Some(
            "succeeded"@,
        ) && payment_raw_status(provider, ProviderPaymentQueryState::Canceled) == Some("canceled"@)
            && payment_raw_status(provider, ProviderPaymentQueryState::Failed) == Some("failed"@)
            && payment_raw_status(provider, ProviderPaymentQueryState::Pending) == Some("pending"@)
            && refund_raw_status(provider, ProviderRefundSubmissionState::Succeeded) == Some("success"@)
            && refund_raw_status(provider, ProviderRefundSubmissionState::Failed) == Some("closed"@),
        provider != "stripe"@ && provider != "wechat_pay"@ && provider != "alipay"@ && provider != "sandbox"@
            ==> payment_raw_status(provider, ProviderPaymentQueryState::Succeeded).is_none()
            && refund_raw_status(provider, ProviderRefundSubmissionState::Succeeded).is_none(),
        refund_raw_status(provider, ProviderRefundSubmissionState::Processing).is_none(),
{
    reveal_strlit("alipay");
    reveal_strlit("wechat_pay");
    reveal_strlit("stripe");
    reveal_strlit("sandbox");
    assert("alipay"@[0] != "stripe"@[0]);
    assert("sandbox"@.len() != "stripe"@.len() && "sandbox"@.len() != "alipay"@.len() && "sandbox"@.len()
        != "wechat_pay"@.len());
}

/// Maps a payment query state back to the provider's raw status.
pub fn compensation_payment_raw_status(provider_code: &str, state: ProviderPaymentQueryState) -> (r:
    Option<&'static str>)
    ensures
        opt_view(r) == payment_raw_status(provider_code@, state),
{
    let p = chars_of(provider_code);
    if chars_eq_str(&p, "stripe") {
        match state {
            ProviderPaymentQueryState::Succeeded => Some("succeeded"),
            ProviderPaymentQueryState::Canceled => Some("canceled"),
            ProviderPaymentQueryState::Failed => Some("payment_failed"),
            ProviderPaymentQueryState::Pending => Some("processing"),
        }
    } else if chars_eq_str(&p, "wechat_pay") {
        match state {
            ProviderPaymentQueryState::Succeeded => Some("success"),
            ProviderPaymentQueryState::Canceled => Some("closed"),
            ProviderPaymentQueryState::Pending => Some("userpaying"),
            ProviderPaymentQueryState::Failed => None,
        }
    } else if chars_eq_str(&p, "alipay") {
        match state {
            ProviderPaymentQueryState::Succeeded => Some("trade_success"),
            ProviderPaymentQueryState::Canceled => Some("trade_closed"),
            ProviderPaymentQueryState::Pending => Some("wait_buyer_pay"),
            ProviderPaymentQueryState::Failed => None,
        }
    } else if chars_eq_str(&p, "sandbox") {
        match state {
            ProviderPaymentQueryState::Succeeded => Some("succeeded"),
            ProviderPaymentQueryState::Canceled => Some("canceled"),
            ProviderPaymentQueryState::Failed => Some("failed"),
            ProviderPaymentQueryState::Pending => Some("pending"),
        }
    } else {
        None
    }
}

/// Maps a terminal refund query state back to the provider's raw status.
pub fn compensation_refund_raw_status(provider_code: &str, state: ProviderRefundSubmissionState) -> (r:
    Option<&'static str>)
    ensures
        opt_view(r) == refund_raw_status(provider_code@, state),
{
    let p = chars_of(provider_code);
    let two_word = chars_eq_str(&p, "wechat_pay") || chars_eq_str(&p, "sandbox");
    match state {
        ProviderRefundSubmissionState::Processing => None,
        ProviderRefundSubmissionState::Succeeded => {
            if two_word {
                Some("success")
            } else if chars_eq_str(&p, "stripe") {
                Some("succeeded")
            } else if chars_eq_str(&p, "alipay") {
                Some("refund_success")
            } else {
                None
            }
        },
        ProviderRefundSubmissionState::Failed => {
            if two_word {
                Some("closed")
            } else if chars_eq_str(&p, "stripe") {
                Some("failed")
            } else if chars_eq_str(&p, "alipay") {
                Some("refund_failed")
            } else {
                None
            }
        },
    }
}

/// How reconciliation reads a provider's raw payment status (trimmed,
/// ASCII case ignored): `succeeded`, `failed` or `pending`; `None` for an
/// unknown status or provider. The sandbox always reads as succeeded.
pub open spec fn provider_status_class(provider: Seq<char>, raw_status: Seq<char>) -> Option<
    Seq<char>,
> {
    let s = lower_seq(trim(raw_status));
    if provider == "stripe"@ {
        if s == "succeeded"@ {
            Some("succeeded"@)
        } else if s == "canceled"@ || s == "cancelled"@ || s == "payment_failed"@ {
            Some("failed"@)
        } else if s == "requires_payment_method"@ || s == "requires_confirmation"@ || s
            == "requires_action"@ || s == "processing"@ || s == "requires_capture"@ {
            Some("pending"@)
        } else {
            None
        }
    } else if provider == "alipay"@ {
        if s == "trade_success"@ || s == "trade_finished"@ {
            Some("succeeded"@)
        } else if s == "trade_closed"@ {
            Some("failed"@)
        } else if s == "wait_buyer_pay"@ {
            Some("pending"@)
        } else {
            None
        }
    } else if provider == "wechat_pay"@ {
        if s == "success"@ {
            Some("succeeded"@)
        } else if s == "notpay"@ || s == "userpaying"@ {
            Some("pending"@)
        } else if s == "closed"@ || s == "revoked"@ || s == "payerror"@ {
            Some("failed"@)
        } else {
            None
        }
    } else if provider == "sandbox"@ {
        Some("succeeded"@)
    } else {
        None
    }
}

/// How each provider's raw payment statuses read (trimmed, ASCII case
/// ignored). Alipay: `trade_success` and `trade_finished` succeeded,
/// `trade_closed` failed, `wait_buyer_pay` pending. WeChat Pay: `success`
/// succeeded; `notpay` and `userpaying` pending; `closed`, `revoked` and
/// `payerror` failed. Stripe: `succeeded` succeeded; `canceled`,
/// `cancelled` and `payment_failed` failed; `requires_payment_method`,
/// `requires_confirmation`, `requires_action`, `processing` and
/// `requires_capture` pending. The sandbox always succeeded. Any other
/// status or provider reads as nothing.
pub proof fn law_provider_status_classes(provider: Seq<char>, raw_status: Seq<char>)
    ensures
        ({
            let s = lower_seq(trim(raw_status));
            let c = provider_status_class(provider, raw_status);
            &&& provider == "alipay"@ ==> c == if s == "trade_success"@ || s == "trade_finished"@ {
                Some("succeeded"@)
            } else if s == "trade_closed"@ {
                Some("failed"@)
            } else if s == "wait_buyer_pay"@ {
                Some("pending"@)
            } else {
                None::<Seq<char>>
            }
            &&& provider == "wechat_pay"@ ==> c == if s == "success"@ {
                Some("succeeded"@)
            } else if s == "notpay"@ || s == "userpaying"@ {
                Some("pending"@)
            } else if s == "closed"@ || s == "revoked"@ || s == "payerror"@ {
                Some("failed"@)
            } else {
                None::<Seq<char>>
            }
            &&& provider == "stripe"@ ==> c == if s == "succeeded"@ {
                Some("succeeded"@)
            } else if s == "canceled"@ || s == "cancelled"@ || s == "payment_failed"@ {
                Some("failed"@)
            } else if s == "requires_payment_method"@ || s == "requires_confirmation"@ || s
                == "requires_action"@ || s == "processing"@ || s == "requires_capture"@ {
                Some("pending"@)
            } else {
                None::<Seq<char>>
            }
            &&& provider == "sandbox"@ ==> c == Some("succeeded"@)
            &&& provider != "alipay"@ && provider != "wechat_pay"@ && provider != "stripe"@ && provider
                != "sandbox"@ ==> c.is_none()
        }),
{
    reveal_strlit("alipay");
    reveal_strlit("wechat_pay");
    reveal_strlit("stripe");
    reveal_strlit("sandbox");
    assert("alipay"@[0] != "stripe"@[0]);
    assert("sandbox"@.len() != "stripe"@.len() && "sandbox"@.len() != "alipay"@.len() && "sandbox"@.len()
        != "wechat_pay"@.len());
}

/// Classifies a provider's raw payment status for reconciliation.
pub fn normalized_provider_status(provider_code: &str, raw_status: &str) -> (r: Option<&'static str>)
    ensures
        opt_view(r) == provider_status_class(provider_code@, raw_status@),
{
    let p = chars_of(provider_code);
    let s = trim_lower(raw_status);
    if chars_eq_str(&p, "stripe") {
        if chars_eq_str(&s, "succeeded") {
            Some("succeeded")
        } else if chars_eq_str(&s, "canceled") || chars_eq_str(&s, "cancelled") || chars_eq_str(
            &s,
            "payment_failed",
        ) {
            Some("failed")
        } else if chars_eq_str(&s, "requires_payment_method") || chars_eq_str(
            &s,
            "requires_confirmation",
        ) || chars_eq_str(&s, "requires_action") || chars_eq_str(&s, "processing")
            || chars_eq_str(&s, "requires_capture") {
            Some("pending")
        } else {
            None
        }
    } else if chars_eq_str(&p, "alipay") {
        if chars_eq_str(&s, "trade_success") || chars_eq_str(&s, "trade_finished") {
            Some("succeeded")
        } else if chars_eq_str(&s, "trade_closed") {
            Some("failed")
        } else if chars_eq_str(&s, "wait_buyer_pay") {
            Some("pending")
        } else {
            None
        }
    } else if chars_eq_str(&p, "wechat_pay") {
        if chars_eq_str(&s, "success") {
            Some("succeeded")
        } else if chars_eq_str(&s, "notpay") || chars_eq_str(&s, "userpaying") {
            Some("pending")
        } else if chars_eq_str(&s, "closed") || chars_eq_str(&s, "revoked") || chars_eq_str(
            &s,
            "payerror",
        ) {
            Some("failed")
        } else {
            None
        }
    } else if chars_eq_str(&p, "sandbox") {
        Some("succeeded")
    } else {
        None
    }
}

/// The outcome class of a payment query state: what reconciliation should
/// read back from the raw status emitted for it.
pub open spec fn query_state_class(state: ProviderPaymentQueryState) -> Seq<char> {
    match state {
        ProviderPaymentQueryState::Succeeded => "succeeded"@,
        ProviderPaymentQueryState::Canceled => "failed"@,
        ProviderPaymentQueryState::Failed => "failed"@,
        ProviderPaymentQueryState::Pending => "pending"@,
    }
}

proof fn lemma_plain_status(s: Seq<char>)
    requires
        s.len() > 0,
        forall|i: int| 0 <= i < s.len() ==> !is_ws(#[trigger] s[i]) && !is_upper_ascii(s[i]),
    ensures
        lower_seq(trim(s)) == s,
{
    assert(trim_start(s) == s);
    assert(trim_end(s) == s);
    assert(lower_seq(s) =~= s);
}

/// For every provider whose statuses carry meaning (all but the sandbox),
/// the raw status emitted for a queried payment state is read back by
/// reconciliation as that state's outcome: a success as `succeeded`, a
/// cancellation or failure as `failed`, an open payment as `pending`.
pub proof fn law_payment_raw_status_round_trip(provider: Seq<char>, state: ProviderPaymentQueryState)
    requires
        provider == "stripe"@ || provider == "alipay"@ || provider == "wechat_pay"@,
        payment_raw_status(provider, state).is_some(),
    ensures
        provider_status_class(provider, payment_raw_status(provider, state).unwrap()) == Some(
            query_state_class(state),
        ),
{
    reveal_strlit("stripe");
    reveal_strlit("alipay");
    reveal_strlit("wechat_pay");
    reveal_strlit("sandbox");
    let raw = payment_raw_status(provider, state).unwrap();
    if provider == "stripe"@ {
        match state {
            ProviderPaymentQueryState::Succeeded => {
                reveal_strlit("succeeded");
                lemma_plain_status(raw);
            },
            ProviderPaymentQueryState::Canceled => {
                reveal_strlit("canceled");
                reveal_strlit("succeeded");
                lemma_plain_status(raw);
            },
            ProviderPaymentQueryState::Failed => {
                reveal_strlit("payment_failed");
                reveal_strlit("succeeded");
                reveal_strlit("canceled");
                reveal_strlit("cancelled");
                lemma_plain_status(raw);
            },
            ProviderPaymentQueryState::Pending => {
                reveal_strlit("processing");
                reveal_strlit("succeeded");
                reveal_strlit("canceled");
                reveal_strlit("cancelled");
                reveal_strlit("payment_failed");
                reveal_strlit("requires_payment_method");
                reveal_strlit("requires_confirmation");
                reveal_strlit("requires_action");
                lemma_plain_status(raw);
            },
        }
    } else if provider == "alipay"@ {
        assert(provider != "stripe"@);
        assert(provider.len() != "wechat_pay"@.len());
        match state {
            ProviderPaymentQueryState::Succeeded => {
                reveal_strlit("trade_success");
                lemma_plain_status(raw);
            },
            ProviderPaymentQueryState::Canceled => {
                reveal_strlit("trade_closed");
                reveal_strlit("trade_success");
                reveal_strlit("trade_finished");
                lemma_plain_status(raw);
            },
            ProviderPaymentQueryState::Failed => {},
            ProviderPaymentQueryState::Pending => {
                reveal_strlit("wait_buyer_pay");
                reveal_strlit("trade_success");
                reveal_strlit("trade_finished");
                reveal_strlit("trade_closed");
                lemma_plain_status(raw);
            },
        }
    } else {
        assert(provider != "stripe"@);
        assert(provider != "alipay"@);
        match state {
            ProviderPaymentQueryState::Succeeded => {
                reveal_strlit("success");
                lemma_plain_status(raw);
            },
            ProviderPaymentQueryState::Canceled => {
                reveal_strlit("closed");
                reveal_strlit("success");
                reveal_strlit("notpay");
                reveal_strlit("userpaying");
                lemma_plain_status(raw);
            },
            ProviderPaymentQueryState::Failed => {},
            ProviderPaymentQueryState::Pending => {
                reveal_strlit("userpaying");
                reveal_strlit("success");
                reveal_strlit("notpay");
                lemma_plain_status(raw);
            },
        }
    }
}

/// How the pass accounted one claimed payment attempt or refund.
#[derive(Clone, Copy, Debug, PartialEq, Eq, Structural)]
pub enum AppliedCompensation {
    /// A synthetic notify event was ingested (applied or replayed).
    Applied,
    /// The provider reports the trade still in progress; claimed again later.
    StillPending,
    /// The provider does not know the trade; retried within the scan window.
    NotFound,
    /// The provider state has no raw status in the notify vocabulary.
    Unrepresentable,
}

/// The notify event a compensation pass feeds into the notify pipeline in
/// place of a lost webhook.
#[derive(Clone, Debug)]
pub struct SyntheticNotifyEvent {
    pub provider_code: String,
    pub provider_event_id: String,
    pub event_type: &'static str,
    pub out_trade_no: String,
    pub payment_status: &'static str,
}

/// What the pass does with one claim after querying the provider.
#[derive(Clone, Debug)]
pub enum CompensationStep {
    /// Account the claim without an event.
    Skip(AppliedCompensation),
    /// Ingest this event through the notify pipeline.
    Ingest(SyntheticNotifyEvent),
}

/// The provider code of a claim, trimmed and lowercased; `None` when blank
/// (such a claim is skipped as unrepresentable).
pub fn compensation_provider_code(raw: &str) -> (r: Option<String>)
    ensures
        lower_seq(trim(raw@)).len() == 0 ==> r.is_none(),
        lower_seq(trim(raw@)).len() > 0 ==> opt_string_view(r) == Some(lower_seq(trim(raw@))),
{
    let v = trim_lower(raw);
    if v.len() == 0 {
        None
    } else {
        Some(string_of(&v))
    }
}

fn query_event_id(parts: &[&str]) -> (r: String)
    requires
        parts.len() >= 1,
    ensures
        r@ == query_id(parts@),
{
    let mut v = chars_of("query");
    let mut i: usize = 0;
    while i < parts.len()
        invariant
            0 <= i <= parts.len(),
            v@ == query_id(parts@.take(i as int)),
        decreases parts.len() - i,
    {
        append_str(&mut v, ":");
        append_str(&mut v, parts[i]);
        proof {
            assert(parts@.take(i + 1).drop_last() =~= parts@.take(i as int));
        }
        i = i + 1;
    }
    proof {
        assert(parts@.take(parts@.len() as int) =~= parts@);
    }
    string_of(&v)
}

/// `query:{part}:{part}:...`, the id of a synthetic query event.
pub open spec fn query_id(parts: Seq<&str>) -> Seq<char>
    decreases parts.len(),
{
    if parts.len() == 0 {
        "query"@
    } else {
        query_id(parts.drop_last()) + ":"@ + parts.last()@
    }
}

/// The pass's step for a payment attempt: a trade unknown to the provider
/// is not found; a state without raw status is unrepresentable; an open
/// trade is still pending; otherwise the state is ingested as event
/// `query:{provider}:{out_trade_no}:{raw_status}`.
pub fn payment_compensation_step(
    provider_code: &str,
    out_trade_no: &str,
    state: Option<ProviderPaymentQueryState>,
) -> (r: CompensationStep)
    ensures
        match state {
            None => r == CompensationStep::Skip(AppliedCompensation::NotFound),
            Some(s) => match payment_raw_status(provider_code@, s) {
                None => r == CompensationStep::Skip(AppliedCompensation::Unrepresentable),
                Some(raw) => if s == ProviderPaymentQueryState::Pending {
                    r == CompensationStep::Skip(AppliedCompensation::StillPending)
                } else {
                    &&& r matches CompensationStep::Ingest(e)
                    &&& e.provider_code@ == provider_code@
                    &&& e.provider_event_id@ == "query:"@ + provider_code@ + ":"@ + out_trade_no@
                        + ":"@ + raw
                    &&& e.event_type@ == "query.payment"@
                    &&& e.out_trade_no@ == out_trade_no@
                    &&& e.payment_status@ == raw
                },
            },
        },
{
    let s = match state {
        None => return CompensationStep::Skip(AppliedCompensation::NotFound),
        Some(s) => s,
    };
    let raw = match compensation_payment_raw_status(provider_code, s) {
        None => return CompensationStep::Skip(AppliedCompensation::Unrepresentable),
        Some(raw) => raw,
    };
    if s == ProviderPaymentQueryState::Pending {
        return CompensationStep::Skip(AppliedCompensation::StillPending);
    }
    let parts: [&str; 3] = [provider_code, out_trade_no, raw];
    let id = query_event_id(parts.as_slice());
    proof {
        reveal_with_fuel(query_id, 4);
        assert(parts@.drop_last().drop_last().drop_last() =~= Seq::<&str>::empty());
        assert("query"@ + ":"@ + provider_code@ + ":"@ + out_trade_no@ + ":"@ + raw@ =~= "query:"@
            + provider_code@ + ":"@ + out_trade_no@ + ":"@ + raw@) by {
            reveal_strlit("query");
            reveal_strlit(":");
            reveal_strlit("query:");
        }
    }
    CompensationStep::Ingest(
        SyntheticNotifyEvent {
            provider_code: provider_code.to_owned(),
            provider_event_id: id,
            event_type: "query.payment",
            out_trade_no: out_trade_no.to_owned(),
            payment_status: raw,
        },
    )
}

/// The pass's step for a refund: unknown to the provider is not found; a
/// processing refund is still pending; a state without raw status is
/// unrepresentable; otherwise it is ingested as event
/// `query:{provider}:{out_trade_no}:{refund_no}:{raw_status}`.
pub fn refund_compensation_step(
    provider_code: &str,
    out_trade_no: &str,
    refund_no: &str,
    state: Option<ProviderRefundSubmissionState>,
) -> (r: CompensationStep)
    ensures
        match state {
            None => r == CompensationStep::Skip(AppliedCompensation::NotFound),
            Some(s) => if s == ProviderRefundSubmissionState::Processing {
                r == CompensationStep::Skip(AppliedCompensation::StillPending)
            } else {
                match refund_raw_status(provider_code@, s) {
                    None => r == CompensationStep::Skip(AppliedCompensation::Unrepresentable),
                    Some(raw) => {
                        &&& r matches CompensationStep::Ingest(e)
                        &&& e.provider_code@ == provider_code@
                        &&& e.provider_event_id@ == "query:"@ + provider_code@ + ":"@
                            + out_trade_no@ + ":"@ + refund_no@ + ":"@ + raw
                        &&& e.event_type@ == "query.refund"@
                        &&& e.out_trade_no@ == out_trade_no@
                        &&& e.payment_status@ == raw
                    },
                }
            },
        },
{
    let s = match state {
        None => return CompensationStep::Skip(AppliedCompensation::NotFound),
        Some(s) => s,
    };
    if s == ProviderRefundSubmissionState::Processing {
        return CompensationStep::Skip(AppliedCompensation::StillPending);
    }
    let raw = match compensation_refund_raw_status(provider_code, s) {
        None => return CompensationStep::Skip(AppliedCompensation::Unrepresentable),
        Some(raw) => raw,
    };
    let parts: [&str; 4] = [provider_code, out_trade_no, refund_no, raw];
    let id = query_event_id(parts.as_slice());
    proof {
        reveal_with_fuel(query_id, 5);
        assert(parts@.drop_last().drop_last().drop_last().drop_last() =~= Seq::<&str>::empty());
        assert("query"@ + ":"@ + provider_code@ + ":"@ + out_trade_no@ + ":"@ + refund_no@ + ":"@
            + raw@ =~= "query:"@ + provider_code@ + ":"@ + out_trade_no@ + ":"@ + refund_no@ + ":"@
            + raw@) by {
            reveal_strlit("query");
            reveal_strlit(":");
            reveal_strlit("query:");
        }
    }
    CompensationStep::Ingest(
        SyntheticNotifyEvent {
            provider_code: provider_code.to_owned(),
            provider_event_id: id,
            event_type: "query.refund",
            out_trade_no: out_trade_no.to_owned(),
            payment_status: raw,
        },
    )
}

/// Per-pass compensation configuration.
#[derive(Clone, Debug)]
pub struct PaymentCompensationPassConfig {
    /// Only claims of this tenant are scanned; `None` scans the platform
    /// tenant `"0"`.
    pub tenant_id: Option<String>,
    /// Scopes the scan to one organization when set.
    pub organization_id: Option<String>,
    /// Maximum attempts and refunds claimed per pass.
    pub batch_size: i64,
    /// Claims younger than this are left to their webhook.
    pub min_age_seconds: i64,
    /// Claims older than this are no longer queried.
    pub max_age_seconds: i64,
}

impl Default for PaymentCompensationPassConfig {
    /// All tenants' platform scope, 50 claims, claims between one minute
    /// and one day old.
    fn default() -> (r: Self)
        ensures
            r.tenant_id.is_none(),
            r.organization_id.is_none(),
            r.batch_size == 50,
            r.min_age_seconds == 60,
            r.max_age_seconds == 86400,
    {
        PaymentCompensationPassConfig {
            tenant_id: None,
            organization_id: None,
            batch_size: 50,
            min_age_seconds: 60,
            max_age_seconds: 24 * 60 * 60,
        }
    }
}

/// The tenant a pass scans: the configured one, else the platform tenant.
pub fn compensation_scan_tenant(config: &PaymentCompensationPassConfig) -> (r: String)
    ensures
        r@ == match config.tenant_id {
            Some(t) => t@,
            None => "0"@,
        },
{
    match &config.tenant_id {
        Some(t) => t.clone(),
        None => "0".to_owned(),
    }
}

/// Counter-style summary of one compensation pass.
#[derive(Clone, Debug, PartialEq, Eq, Structural)]
pub struct PaymentCompensationRunSummary {
    pub claimed_payment_attempts: usize,
    pub claimed_refunds: usize,
    pub payment_events_applied: usize,
    pub refund_events_applied: usize,
    pub payments_still_pending: usize,
    pub payments_not_found: usize,
    pub refunds_still_processing: usize,
    pub refunds_not_found: usize,
    pub skipped_unrepresentable: usize,
    pub errors: usize,
}

/// The summary after one payment claim was handled with `outcome`.
pub open spec fn payment_tally(
    s: PaymentCompensationRunSummary,
    outcome: Result<AppliedCompensation, CommerceError>,
) -> PaymentCompensationRunSummary {
    match outcome {
        Ok(AppliedCompensation::Applied) => PaymentCompensationRunSummary {
            payment_events_applied: (s.payment_events_applied + 1) as usize,
            ..s
        },
        Ok(AppliedCompensation::StillPending) => PaymentCompensationRunSummary {
            payments_still_pending: (s.payments_still_pending + 1) as usize,
            ..s
        },
        Ok(AppliedCompensation::NotFound) => PaymentCompensationRunSummary {
            payments_not_found: (s.payments_not_found + 1) as usize,
            ..s
        },
        Ok(AppliedCompensation::Unrepresentable) => PaymentCompensationRunSummary {
            skipped_unrepresentable: (s.skipped_unrepresentable + 1) as usize,
            ..s
        },
        Err(_) => PaymentCompensationRunSummary { errors: (s.errors + 1) as usize, ..s },
    }
}

/// The summary after one refund claim was handled with `outcome`.
pub open spec fn refund_tally(
    s: PaymentCompensationRunSummary,
    outcome: Result<AppliedCompensation, CommerceError>,
) -> PaymentCompensationRunSummary {
    match outcome {
        Ok(AppliedCompensation::Applied) => PaymentCompensationRunSummary {
            refund_events_applied: (s.refund_events_applied + 1) as usize,
            ..s
        },
        Ok(AppliedCompensation::StillPending) => PaymentCompensationRunSummary {
            refunds_still_processing: (s.refunds_still_processing + 1) as usize,
            ..s
        },
        Ok(AppliedCompensation::NotFound) => PaymentCompensationRunSummary {
            refunds_not_found: (s.refunds_not_found + 1) as usize,
            ..s
        },
        Ok(AppliedCompensation::Unrepresentable) => PaymentCompensationRunSummary {
            skipped_unrepresentable: (s.skipped_unrepresentable + 1) as usize,
            ..s
        },
        Err(_) => PaymentCompensationRunSummary { errors: (s.errors + 1) as usize, ..s },
    }
}

/// No outcome counter is saturated.
pub open spec fn tally_has_room(s: PaymentCompensationRunSummary) -> bool {
    &&& s.payment_events_applied < usize::MAX
    &&& s.refund_events_applied < usize::MAX
    &&& s.payments_still_pending < usize::MAX
    &&& s.payments_not_found < usize::MAX
    &&& s.refunds_still_processing < usize::MAX
    &&& s.refunds_not_found < usize::MAX
    &&& s.skipped_unrepresentable < usize::MAX
    &&& s.errors < usize::MAX
}

/// The number of claims the outcome counters account for.
pub open spec fn outcomes_counted(s: PaymentCompensationRunSummary) -> int {
    s.payment_events_applied + s.refund_events_applied + s.payments_still_pending
        + s.payments_not_found + s.refunds_still_processing + s.refunds_not_found
        + s.skipped_unrepresentable + s.errors
}

impl PaymentCompensationRunSummary {
    /// The summary before any claim: every counter zero.
    pub fn new() -> (r: Self)
        ensures
            r.claimed_payment_attempts == 0 && r.claimed_refunds == 0,
            outcomes_counted(r) == 0,
    {
        PaymentCompensationRunSummary {
            claimed_payment_attempts: 0,
            claimed_refunds: 0,
            payment_events_applied: 0,
            refund_events_applied: 0,
            payments_still_pending: 0,
            payments_not_found: 0,
            refunds_still_processing: 0,
            refunds_not_found: 0,
            skipped_unrepresentable: 0,
            errors: 0,
        }
    }

    /// Accounts one payment attempt of the pass.
    pub fn record_payment_outcome(&mut self, outcome: &Result<AppliedCompensation, CommerceError>)
        requires
            tally_has_room(*old(self)),
        ensures
            *final(self) == payment_tally(*old(self), *outcome),
    {
        match outcome {
            Ok(AppliedCompensation::Applied) => self.payment_events_applied = self.payment_events_applied + 1,
            Ok(AppliedCompensation::StillPending) => self.payments_still_pending = self.payments_still_pending + 1,
            Ok(AppliedCompensation::NotFound) => self.payments_not_found = self.payments_not_found + 1,
            Ok(AppliedCompensation::Unrepresentable) => self.skipped_unrepresentable = self.skipped_unrepresentable + 1,
            Err(_) => self.errors = self.errors + 1,
        }
    }

    /// Accounts one refund of the pass.
    pub fn record_refund_outcome(&mut self, outcome: &Result<AppliedCompensation, CommerceError>)
        requires
            tally_has_room(*old(self)),
        ensures
            *final(self) == refund_tally(*old(self), *outcome),
    {
        match outcome {
            Ok(AppliedCompensation::Applied) => self.refund_events_applied = self.refund_events_applied + 1,
            Ok(AppliedCompensation::StillPending) => self.refunds_still_processing = self.refunds_still_processing + 1,
            Ok(AppliedCompensation::NotFound) => self.refunds_not_found = self.refunds_not_found + 1,
            Ok(AppliedCompensation::Unrepresentable) => self.skipped_unrepresentable = self.skipped_unrepresentable + 1,
            Err(_) => self.errors = self.errors + 1,
        }
    }
}

/// Every handled claim is counted exactly once, under exactly one
/// outcome, and the claim counters are left alone.
pub proof fn law_each_claim_counted_once(
    s: PaymentCompensationRunSummary,
    outcome: Result<AppliedCompensation, CommerceError>,
)
    requires
        tally_has_room(s),
    ensures
        outcomes_counted(payment_tally(s, outcome)) == outcomes_counted(s) + 1,
        outcomes_counted(refund_tally(s, outcome)) == outcomes_counted(s) + 1,
        payment_tally(s, outcome).claimed_payment_attempts == s.claimed_payment_attempts,
        payment_tally(s, outcome).claimed_refunds == s.claimed_refunds,
        refund_tally(s, outcome).claimed_payment_attempts == s.claimed_payment_attempts,
        refund_tally(s, outcome).claimed_refunds == s.claimed_refunds,
{
}

/// The summary after the payment claims were handled, in order, with
/// `outcomes`.
pub open spec fn payment_tallies(
    s: PaymentCompensationRunSummary,
    outcomes: Seq<Result<AppliedCompensation, CommerceError>>,
) -> PaymentCompensationRunSummary
    decreases outcomes.len(),
{
    if outcomes.len() == 0 {
        s
    } else {
        payment_tally(payment_tallies(s, outcomes.drop_last()), outcomes.last())
    }
}

/// The summary after the refund claims were handled, in order, with
/// `outcomes`.
pub open spec fn refund_tallies(
    s: PaymentCompensationRunSummary,
    outcomes: Seq<Result<AppliedCompensation, CommerceError>>,
) -> PaymentCompensationRunSummary
    decreases outcomes.len(),
{
    if outcomes.len() == 0 {
        s
    } else {
        refund_tally(refund_tallies(s, outcomes.drop_last()), outcomes.last())
    }
}

/// A pass that claimed `payments` payment attempts and `refunds` refunds,
/// before any of them was handled.
pub open spec fn claimed_summary(payments: int, refunds: int) -> PaymentCompensationRunSummary {
    PaymentCompensationRunSummary {
        claimed_payment_attempts: payments as usize,
        claimed_refunds: refunds as usize,
        payment_events_applied: 0,
        refund_events_applied: 0,
        payments_still_pending: 0,
        payments_not_found: 0,
        refunds_still_processing: 0,
        refunds_not_found: 0,
        skipped_unrepresentable: 0,
        errors: 0,
    }
}

/// The summary of a whole pass: the claims counted, then each payment
/// outcome and each refund outcome tallied in order.
pub open spec fn pass_summary(
    payment_outcomes: Seq<Result<AppliedCompensation, CommerceError>>,
    refund_outcomes: Seq<Result<AppliedCompensation, CommerceError>>,
) -> PaymentCompensationRunSummary {
    refund_tallies(
        payment_tallies(claimed_summary(payment_outcomes.len() as int, refund_outcomes.len() as int), payment_outcomes),
        refund_outcomes,
    )
}

proof fn lemma_room_below_total(s: PaymentCompensationRunSummary)
    requires
        outcomes_counted(s) < usize::MAX,
    ensures
        tally_has_room(s),
{
}

/// Tallying a run of outcomes counts each once and leaves the claim
/// counters alone.
proof fn lemma_tallies_count(
    s: PaymentCompensationRunSummary,
    outcomes: Seq<Result<AppliedCompensation, CommerceError>>,
)
    requires
        outcomes_counted(s) + outcomes.len() < usize::MAX,
    ensures
        outcomes_counted(payment_tallies(s, outcomes)) == outcomes_counted(s) + outcomes.len(),
        outcomes_counted(refund_tallies(s, outcomes)) == outcomes_counted(s) + outcomes.len(),
        payment_tallies(s, outcomes).claimed_payment_attempts == s.claimed_payment_attempts,
        payment_tallies(s, outcomes).claimed_refunds == s.claimed_refunds,
        refund_tallies(s, outcomes).claimed_payment_attempts == s.claimed_payment_attempts,
        refund_tallies(s, outcomes).claimed_refunds == s.claimed_refunds,
    decreases outcomes.len(),
{
    if outcomes.len() > 0 {
        let rest = outcomes.drop_last();
        lemma_tallies_count(s, rest);
        lemma_room_below_total(payment_tallies(s, rest));
        lemma_room_below_total(refund_tallies(s, rest));
        law_each_claim_counted_once(payment_tallies(s, rest), outcomes.last());
        law_each_claim_counted_once(refund_tallies(s, rest), outcomes.last());
    }
}

/// A compensation pass accounts for every claim it made: its outcome
/// counters add up to the claimed payment attempts plus the claimed
/// refunds.
pub proof fn law_pass_counts_every_claim(
    payment_outcomes: Seq<Result<AppliedCompensation, CommerceError>>,
    refund_outcomes: Seq<Result<AppliedCompensation, CommerceError>>,
)
    requires
        payment_outcomes.len() + refund_outcomes.len() < usize::MAX,
    ensures
        pass_summary(payment_outcomes, refund_outcomes).claimed_payment_attempts == payment_outcomes.len(),
        pass_summary(payment_outcomes, refund_outcomes).claimed_refunds == refund_outcomes.len(),
        outcomes_counted(pass_summary(payment_outcomes, refund_outcomes)) == payment_outcomes.len()
            + refund_outcomes.len(),
{
    let s0 = claimed_summary(payment_outcomes.len() as int, refund_outcomes.len() as int);
    lemma_tallies_count(s0, payment_outcomes);
    lemma_tallies_count(payment_tallies(s0, payment_outcomes), refund_outcomes);
}

/// The summary of a compensation pass whose payment claims and refund
/// claims were handled with the outcomes given, in order.
pub fn summarize_compensation_pass(
    payment_outcomes: &Vec<Result<AppliedCompensation, CommerceError>>,
    refund_outcomes: &Vec<Result<AppliedCompensation, CommerceError>>,
) -> (r: PaymentCompensationRunSummary)
    requires
        payment_outcomes@.len() + refund_outcomes@.len() < usize::MAX,
    ensures
        r == pass_summary(payment_outcomes@, refund_outcomes@),
        r.claimed_payment_attempts == payment_outcomes@.len(),
        r.claimed_refunds == refund_outcomes@.len(),
        outcomes_counted(r) == payment_outcomes@.len() + refund_outcomes@.len(),
{
    let ghost p = payment_outcomes@;
    let ghost q = refund_outcomes@;
    let ghost s0 = claimed_summary(p.len() as int, q.len() as int);
    proof {
        law_pass_counts_every_claim(p, q);
    }
    let mut summary = PaymentCompensationRunSummary::new();
    summary.claimed_payment_attempts = payment_outcomes.len();
    summary.claimed_refunds = refund_outcomes.len();
    assert(summary == s0);
    let mut i: usize = 0;
    while i < payment_outcomes.len()
        invariant
            i <= p.len(),
            p == payment_outcomes@,
            q == refund_outcomes@,
            p.len() + q.len() < usize::MAX,
            summary == payment_tallies(s0, p.take(i as int)),
            outcomes_counted(summary) == i,
        decreases p.len() - i,
    {
        proof {
            lemma_room_below_total(summary);
            law_each_claim_counted_once(summary, p[i as int]);
            assert(p.take(i + 1).drop_last() =~= p.take(i as int));
            assert(p.take(i + 1).last() == p[i as int]);
        }
        summary.record_payment_outcome(&payment_outcomes[i]);
        i = i + 1;
    }
    proof {
        assert(p.take(p.len() as int) =~= p);
    }
    let ghost s1 = summary;
    let mut j: usize = 0;
    while j < refund_outcomes.len()
        invariant
            j <= q.len(),
            p == payment_outcomes@,
            q == refund_outcomes@,
            p.len() + q.len() < usize::MAX,
            summary == refund_tallies(s1, q.take(j as int)),
            outcomes_counted(summary) == p.len() + j,
        decreases q.len() - j,
    {
        proof {
            lemma_room_below_total(summary);
            law_each_claim_counted_once(summary, q[j as int]);
            assert(q.take(j + 1).drop_last() =~= q.take(j as int));
            assert(q.take(j + 1).last() == q[j as int]);
        }
        summary.record_refund_outcome(&refund_outcomes[j]);
        j = j + 1;
    }
    proof {
        assert(q.take(q.len() as int) =~= q);
    }
    summary
}

/// The one payment attempt a reconciliation request settles.
#[derive(Clone, Debug, PartialEq, Eq)]
pub struct ReconciliationCandidate {
    pub attempt_id: String,
    pub provider_code: String,
    pub out_trade_no: String,
    pub amount: String,
    pub currency_code: String,
    pub status: String,
}

/// The payment attempt's provider context as the payment repository
/// reloads it (provider code already normalized).
#[derive(Clone, Debug)]
pub struct AttemptProviderContext {
    pub attempt_id: String,
    pub tenant_id: String,
    pub provider_code: String,
    pub out_trade_no: String,
    pub amount: String,
    pub provider_transaction_id: Option<String>,
}

/// A provider payment that reconciliation accepted.
#[derive(Clone, Debug)]
pub struct VerifiedProviderPayment {
    pub native_id: Option<String>,
    pub status: String,
}

/// What a provider answered to a payment query (provider code normalized,
/// payload as JSON text).
#[derive(Clone, Debug)]
pub struct ProviderQueryOutcome {
    pub provider_code: String,
    pub native_id: Option<String>,
    pub raw_status: Option<String>,
    pub payload_json: String,
}

/// Exactly one attempt must match: none is not found, two or more are a
/// conflict.
pub fn unique_candidate(candidates: Vec<ReconciliationCandidate>) -> (r: Result<
    ReconciliationCandidate,
    CommerceError,
>)
    ensures
        candidates@.len() == 0 ==> r.is_err() && r->Err_0.kind == ErrorKind::NotFound,
        candidates@.len() >= 2 ==> r.is_err() && r->Err_0.kind == ErrorKind::Conflict,
        candidates@.len() == 1 ==> r == Ok::<ReconciliationCandidate, CommerceError>(candidates@[0]),
{
    let mut candidates = candidates;
    if candidates.len() == 0 {
        return Err(crate::error::not_found("owner order payment attempt was not found"));
    }
    if candidates.len() >= 2 {
        return Err(conflict("multiple payment attempts match payment reconciliation"));
    }
    match candidates.pop() {
        Some(c) => Ok(c),
        None => Err(crate::error::not_found("owner order payment attempt was not found")),
    }
}

/// Has an attempt with this status already succeeded (ASCII case
/// ignored)?
pub open spec fn attempt_is_replay(status: Seq<char>) -> bool {
    lower_seq(status) == lower_seq("succeeded"@)
}

/// Reconciliation replays once the payment store has confirmed the
/// attempt: an attempt first reconciled while pending is settled through a
/// provider query, and once the store has written `succeeded` (in any
/// letter case) the next reconciliation of the same attempt replays it
/// without asking the provider.
pub proof fn law_confirmed_attempt_replays(pending_status: Seq<char>, confirmed_status: Seq<char>)
    requires
        lower_seq(pending_status) != "succeeded"@,
        lower_seq(confirmed_status) == "succeeded"@,
    ensures
        !attempt_is_replay(pending_status),
        attempt_is_replay(confirmed_status),
{
    reveal_strlit("succeeded");
    let s = "succeeded"@;
    assert(lower_seq(s) =~= s) by {
        assert forall|i: int| 0 <= i < s.len() implies #[trigger] crate::text::lower_char(s[i]) == s[i] by {
            assert(!crate::text::is_upper_ascii(s[i]));
        }
    }
}

/// An attempt that already succeeded is replayed without asking the
/// provider.
pub fn reconciliation_is_replay(candidate: &ReconciliationCandidate) -> (r: bool)
    ensures
        r == attempt_is_replay(candidate.status@),
{
    let a = lower_chars(&chars_of(candidate.status.as_str()));
    let b = lower_chars(&chars_of("succeeded"));
    chars_eq(&a, &b)
}

/// The reloaded context must still describe the candidate attempt.
pub fn ensure_candidate_context(
    candidate: &ReconciliationCandidate,
    context: &AttemptProviderContext,
    tenant_id: &str,
) -> (r: Result<(), CommerceError>)
    ensures
        r.is_ok() == (context.attempt_id@ == candidate.attempt_id@ && context.tenant_id@ == tenant_id@
            && context.provider_code@ == candidate.provider_code@ && context.out_trade_no@
            == candidate.out_trade_no@ && context.amount@ == candidate.amount@),
        r.is_err() ==> r->Err_0.kind == ErrorKind::Conflict,
{
    let same = chars_eq(&chars_of(context.attempt_id.as_str()), &chars_of(candidate.attempt_id.as_str()))
        && chars_eq(&chars_of(context.tenant_id.as_str()), &chars_of(tenant_id))
        && chars_eq(&chars_of(context.provider_code.as_str()), &chars_of(candidate.provider_code.as_str()))
        && chars_eq(&chars_of(context.out_trade_no.as_str()), &chars_of(candidate.out_trade_no.as_str()))
        && chars_eq(&chars_of(context.amount.as_str()), &chars_of(candidate.amount.as_str()));
    if same {
        Ok(())
    } else {
        Err(conflict("payment attempt identity changed during provider reconciliation"))
    }
}

/// The reference a provider is queried by: Stripe needs the original
/// payment intent id (`pi_...`); every other provider the merchant order
/// number.
pub fn provider_query_reference(candidate: &ReconciliationCandidate, context: &AttemptProviderContext) -> (r:
    Result<String, CommerceError>)
    ensures
        candidate.provider_code@ == "stripe"@ ==> match context.provider_transaction_id {
            Some(t) => if "pi_"@.is_prefix_of(t@) {
                r.is_ok() && r->Ok_0@ == t@
            } else {
                r.is_err() && r->Err_0.kind == ErrorKind::Conflict
            },
            None => r.is_err() && r->Err_0.kind == ErrorKind::Conflict,
        },
        candidate.provider_code@ != "stripe"@ ==> r.is_ok() && r->Ok_0@ == candidate.out_trade_no@,
{
    if chars_eq_str(&chars_of(candidate.provider_code.as_str()), "stripe") {
        match &context.provider_transaction_id {
            Some(t) => {
                let v = chars_of(t.as_str());
                let prefix_ok = v.len() >= 3 && v[0] == 'p' && v[1] == 'i' && v[2] == '_';
                proof {
                    reveal_strlit("pi_");
                    if prefix_ok {
                        assert("pi_"@ =~= v@.subrange(0, 3));
                    } else if "pi_"@.is_prefix_of(v@) {
                        assert(v@.subrange(0, 3)[0] == v@[0]);
                        assert(v@.subrange(0, 3)[1] == v@[1]);
                        assert(v@.subrange(0, 3)[2] == v@[2]);
                    }
                }
                if prefix_ok {
                    Ok(t.clone())
                } else {
                    Err(conflict("Stripe payment reconciliation requires the original payment intent id"))
                }
            },
            None => Err(conflict("Stripe payment reconciliation requires the original payment intent id")),
        }
    } else {
        Ok(candidate.out_trade_no.clone())
    }
}

/// The sandbox (and an attempt without provider) is settled without a
/// query, as succeeded.
pub fn sandbox_provider_payment(candidate: &ReconciliationCandidate) -> (r: Option<VerifiedProviderPayment>)
    ensures
        r.is_some() == (candidate.provider_code@ == "sandbox"@ || candidate.provider_code@.len() == 0),
        r.is_some() ==> r.unwrap().native_id.is_none() && r.unwrap().status@ == "succeeded"@,
{
    let p = chars_of(candidate.provider_code.as_str());
    if chars_eq_str(&p, "sandbox") || p.len() == 0 {
        Some(VerifiedProviderPayment { native_id: None, status: "succeeded".to_owned() })
    } else {
        None
    }
}

/// The payment amount a provider payload must show.
pub fn ensure_minor_amount(actual: Option<i64>, expected: i64) -> (r: Result<(), CommerceError>)
    ensures
        r.is_ok() == (actual == Some(expected)),
        r.is_err() ==> r->Err_0.kind == ErrorKind::Conflict,
{
    match actual {
        Some(a) => {
            if a == expected {
                Ok(())
            } else {
                Err(conflict("provider payment amount does not match"))
            }
        },
        None => Err(conflict("provider payment amount does not match")),
    }
}

/// The currency a provider payload must show (ASCII case ignored).
pub fn ensure_currency(actual: Option<&str>, expected: &str) -> (r: Result<(), CommerceError>)
    ensures
        r.is_ok() == (actual.is_some() && lower_seq(actual.unwrap()@) == lower_seq(expected@)),
        r.is_err() ==> r->Err_0.kind == ErrorKind::Conflict,
{
    match actual {
        Some(a) => {
            if chars_eq(&lower_chars(&chars_of(a)), &lower_chars(&chars_of(expected))) {
                Ok(())
            } else {
                Err(conflict("provider payment currency does not match"))
            }
        },
        None => Err(conflict("provider payment currency does not match")),
    }
}

/// The merchant order number a provider payload must show, given its
/// `out_trade_no` member.
pub fn ensure_out_trade_no(member: &Option<JsonMember>, expected: &str) -> (r: Result<(), CommerceError>)
    ensures
        r.is_ok() == (member_text(*member) == Some(expected@)),
        r.is_err() ==> r->Err_0.kind == ErrorKind::Conflict,
{
    match member {
        Some(JsonMember::Text(actual)) => {
            if chars_eq(&chars_of(actual.as_str()), &chars_of(expected)) {
                Ok(())
            } else {
                Err(conflict("provider merchant order number does not match"))
            }
        },
        _ => Err(conflict("provider merchant order number does not match")),
    }
}

pub open spec fn currency_check(actual: Option<Seq<char>>, expected: Seq<char>) -> Result<(), ErrorKind> {
    if actual.is_some() && lower_seq(actual.unwrap()) == lower_seq(expected) {
        Ok(())
    } else {
        Err(ErrorKind::Conflict)
    }
}

pub open spec fn amount_check(actual: Option<i64>, expected: int) -> Result<(), ErrorKind> {
    if actual.is_some() && actual.unwrap() == expected {
        Ok(())
    } else {
        Err(ErrorKind::Conflict)
    }
}

pub open spec fn first_some<T>(a: Option<T>, b: Option<T>) -> Option<T> {
    if a.is_some() {
        a
    } else {
        b
    }
}

pub open spec fn then_check(a: Result<(), ErrorKind>, b: Result<(), ErrorKind>) -> Result<(), ErrorKind> {
    if a.is_err() {
        a
    } else {
        b
    }
}

/// The members of a provider payment payload that reconciliation reads.
#[derive(Clone, Debug)]
pub struct ProviderPayloadMembers {
    /// `id` (Stripe).
    pub id: Option<JsonMember>,
    /// `amount_received` (Stripe).
    pub amount_received: Option<JsonMember>,
    /// `amount` (Stripe).
    pub amount: Option<JsonMember>,
    /// `currency` (Stripe).
    pub currency: Option<JsonMember>,
    /// `out_trade_no` (Alipay, WeChat Pay).
    pub out_trade_no: Option<JsonMember>,
    /// `total_amount` (Alipay, major units).
    pub total_amount: Option<JsonMember>,
    /// `amount/total` (WeChat Pay).
    pub amount_total: Option<JsonMember>,
    /// `amount/currency` (WeChat Pay).
    pub amount_currency: Option<JsonMember>,
}

/// The members of the payload `text` as JSON reads them.
pub open spec fn payload_members(text: Seq<char>) -> ProviderPayloadMembers {
    ProviderPayloadMembers {
        id: json_pointer_member(text, "/id"@),
        amount_received: json_pointer_member(text, "/amount_received"@),
        amount: json_pointer_member(text, "/amount"@),
        currency: json_pointer_member(text, "/currency"@),
        out_trade_no: json_pointer_member(text, "/out_trade_no"@),
        total_amount: json_pointer_member(text, "/total_amount"@),
        amount_total: json_pointer_member(text, "/amount/total"@),
        amount_currency: json_pointer_member(text, "/amount/currency"@),
    }
}

/// Reads the payload members of a provider payload.
pub fn read_payload_members(text: &str) -> (r: ProviderPayloadMembers)
    ensures
        r == payload_members(text@),
{
    ProviderPayloadMembers {
        id: json_member_at(text, "/id"),
        amount_received: json_member_at(text, "/amount_received"),
        amount: json_member_at(text, "/amount"),
        currency: json_member_at(text, "/currency"),
        out_trade_no: json_member_at(text, "/out_trade_no"),
        total_amount: json_member_at(text, "/total_amount"),
        amount_total: json_member_at(text, "/amount/total"),
        amount_currency: json_member_at(text, "/amount/currency"),
    }
}

/// What a provider's payment payload must show for the candidate: Stripe an
/// intent id, the amount received (or amount) and the currency; Alipay the
/// merchant order number, the major-unit total and CNY; WeChat Pay the
/// merchant order number, the total and its currency. Any other provider is
/// unsupported.
pub open spec fn payment_payload_verdict(
    candidate: ReconciliationCandidate,
    m: ProviderPayloadMembers,
    native_id: Option<Seq<char>>,
) -> Result<(), ErrorKind> {
    match parse_i64(candidate.amount@) {
        None => Err(ErrorKind::Storage),
        Some(expected) => if candidate.provider_code@ == "stripe"@ {
            if first_some(member_text(m.id), native_id).is_none() {
                Err(ErrorKind::Conflict)
            } else {
                then_check(
                    amount_check(first_some(member_integer(m.amount_received), member_integer(m.amount)), expected),
                    currency_check(member_text(m.currency), candidate.currency_code@),
                )
            }
        } else if candidate.provider_code@ == "alipay"@ {
            if member_text(m.out_trade_no) != Some(candidate.out_trade_no@) {
                Err(ErrorKind::Conflict)
            } else {
                let amount = match member_text(m.total_amount) {
                    Some(t) => major_decimal_minor(t),
                    None => None,
                };
                if amount != Some(expected) {
                    Err(ErrorKind::Conflict)
                } else {
                    currency_check(Some("CNY"@), candidate.currency_code@)
                }
            }
        } else if candidate.provider_code@ == "wechat_pay"@ {
            if member_text(m.out_trade_no) != Some(candidate.out_trade_no@) {
                Err(ErrorKind::Conflict)
            } else {
                then_check(
                    amount_check(member_integer(m.amount_total), expected),
                    currency_check(member_text(m.amount_currency), candidate.currency_code@),
                )
            }
        } else {
            Err(ErrorKind::ProviderUnavailable)
        },
    }
}

pub open spec fn verdict_matches(r: Result<(), CommerceError>, v: Result<(), ErrorKind>) -> bool {
    match r {
        Ok(_) => v.is_ok(),
        Err(e) => v == Err::<(), ErrorKind>(e.kind),
    }
}

fn opt_as_str(o: &Option<String>) -> (r: Option<&str>)
    ensures
        opt_view(r) == opt_string_view(*o),
{
    match o {
        Some(s) => Some(s.as_str()),
        None => None,
    }
}

fn member_str(m: &Option<JsonMember>) -> (r: Option<&str>)
    ensures
        opt_view(r) == member_text(*m),
{
    match m {
        Some(JsonMember::Text(s)) => Some(s.as_str()),
        _ => None,
    }
}

fn member_i64(m: &Option<JsonMember>) -> (r: Option<i64>)
    ensures
        r == member_integer(*m),
{
    match m {
        Some(JsonMember::Integer(i)) => Some(*i),
        _ => None,
    }
}

/// Checks the members of a provider's payment payload against the
/// candidate attempt: identity, minor-unit amount and currency.
pub fn check_payment_payload(
    candidate: &ReconciliationCandidate,
    m: &ProviderPayloadMembers,
    native_id: Option<&str>,
) -> (r: Result<(), CommerceError>)
    ensures
        verdict_matches(r, payment_payload_verdict(*candidate, *m, opt_view(native_id))),
{
    let expected = match parse_i64_chars(&chars_of(candidate.amount.as_str())) {
        Some(v) => v,
        None => return Err(storage("payment attempt amount is not a valid minor-unit amount")),
    };
    let p = chars_of(candidate.provider_code.as_str());
    if chars_eq_str(&p, "stripe") {
        if member_str(&m.id).is_none() && native_id.is_none() {
            return Err(conflict("Stripe payment intent id is missing"));
        }
        let amount = match member_i64(&m.amount_received) {
            Some(a) => Some(a),
            None => member_i64(&m.amount),
        };
        ensure_minor_amount(amount, expected)?;
        ensure_currency(member_str(&m.currency), candidate.currency_code.as_str())
    } else if chars_eq_str(&p, "alipay") {
        ensure_out_trade_no(&m.out_trade_no, candidate.out_trade_no.as_str())?;
        let amount = match member_str(&m.total_amount) {
            Some(t) => decimal_major_to_minor(t),
            None => None,
        };
        ensure_minor_amount(amount, expected)?;
        ensure_currency(Some("CNY"), candidate.currency_code.as_str())
    } else if chars_eq_str(&p, "wechat_pay") {
        ensure_out_trade_no(&m.out_trade_no, candidate.out_trade_no.as_str())?;
        ensure_minor_amount(member_i64(&m.amount_total), expected)?;
        ensure_currency(member_str(&m.amount_currency), candidate.currency_code.as_str())
    } else {
        let mut message = chars_of("payment provider ");
        append_str(&mut message, candidate.provider_code.as_str());
        append_str(&mut message, " is unsupported for reconciliation");
        Err(provider_unavailable(string_of(&message).as_str()))
    }
}

/// Checks a provider's payment payload (JSON text) against the candidate
/// attempt (see [`payment_payload_verdict`]).
pub fn validate_provider_identity_and_amount(
    candidate: &ReconciliationCandidate,
    payload_json: &str,
    native_id: Option<&str>,
) -> (r: Result<(), CommerceError>)
    ensures
        verdict_matches(r, payment_payload_verdict(*candidate, payload_members(payload_json@), opt_view(native_id))),
{
    check_payment_payload(candidate, &read_payload_members(payload_json), native_id)
}

/// What reconciliation accepts of a provider's answer: Stripe must echo
/// the queried intent id, the provider identity must match, the raw status
/// must be present and classify as succeeded, and the payload must match
/// the attempt. The accepted status is the trimmed raw status.
pub open spec fn provider_query_verdict(
    candidate: ReconciliationCandidate,
    reference: Seq<char>,
    outcome: ProviderQueryOutcome,
) -> Result<Seq<char>, ErrorKind> {
    if candidate.provider_code@ == "stripe"@ && opt_string_view(outcome.native_id) != Some(reference) {
        Err(ErrorKind::Conflict)
    } else if outcome.provider_code@ != candidate.provider_code@ {
        Err(ErrorKind::Conflict)
    } else {
        match opt_string_view(outcome.raw_status) {
            None => Err(ErrorKind::ProviderUnavailable),
            Some(raw) => if trim(raw).len() == 0 {
                Err(ErrorKind::ProviderUnavailable)
            } else if provider_status_class(candidate.provider_code@, trim(raw)) != Some(
                "succeeded"@,
            ) {
                Err(ErrorKind::Conflict)
            } else {
                match payment_payload_verdict(
                    candidate,
                    payload_members(outcome.payload_json@),
                    opt_string_view(outcome.native_id),
                ) {
                    Err(k) => Err(k),
                    Ok(_) => Ok(trim(raw)),
                }
            },
        }
    }
}

fn clone_opt_text(o: &Option<String>) -> (r: Option<String>)
    ensures
        opt_string_view(r) == opt_string_view(*o),
{
    match o {
        Some(s) => Some(s.clone()),
        None => None,
    }
}

/// Decides on a provider's answer to a payment query (see
/// [`provider_query_verdict`]).
pub fn verify_provider_query(
    candidate: &ReconciliationCandidate,
    reference: &str,
    outcome: &ProviderQueryOutcome,
) -> (r: Result<VerifiedProviderPayment, CommerceError>)
    ensures
        match r {
            Ok(v) => provider_query_verdict(*candidate, reference@, *outcome) == Ok::<
                Seq<char>,
                ErrorKind,
            >(v.status@) && opt_string_view(v.native_id) == opt_string_view(outcome.native_id),
            Err(e) => provider_query_verdict(*candidate, reference@, *outcome) == Err::<
                Seq<char>,
                ErrorKind,
            >(e.kind),
        },
{
    let p = chars_of(candidate.provider_code.as_str());
    if chars_eq_str(&p, "stripe") {
        let echoed = match &outcome.native_id {
            Some(n) => chars_eq(&chars_of(n.as_str()), &chars_of(reference)),
            None => false,
        };
        if !echoed {
            return Err(conflict("Stripe payment query returned a mismatched payment intent id"));
        }
    }
    if !chars_eq(&chars_of(outcome.provider_code.as_str()), &p) {
        return Err(conflict("payment provider query returned a mismatched provider identity"));
    }
    let raw = match &outcome.raw_status {
        Some(raw) => trim_chars(&chars_of(raw.as_str())),
        None => return Err(provider_unavailable("payment provider query returned no payment status")),
    };
    if raw.len() == 0 {
        return Err(provider_unavailable("payment provider query returned no payment status"));
    }
    let raw_text = string_of(&raw);
    let class = normalized_provider_status(candidate.provider_code.as_str(), raw_text.as_str());
    let succeeded = match class {
        Some(c) => chars_eq_str(&chars_of(c), "succeeded"),
        None => false,
    };
    if !succeeded {
        let mut message = chars_of("payment provider has not confirmed success (status: ");
        append_str(&mut message, raw_text.as_str());
        append_str(&mut message, ")");
        return Err(conflict(string_of(&message).as_str()));
    }
    validate_provider_identity_and_amount(candidate, payload_text(outcome), opt_as_str(&outcome.native_id))?;
    Ok(VerifiedProviderPayment { native_id: clone_opt_text(&outcome.native_id), status: raw_text })
}

fn payload_text(outcome: &ProviderQueryOutcome) -> (r: &str)
    ensures
        r@ == outcome.payload_json@,
{
    outcome.payload_json.as_str()
}

/// The provider facts persisted on the attempt, in key order:
/// `providerStatus`, then `providerTransactionId` when the provider gave
/// one.
pub fn provider_enrichment(provider: &VerifiedProviderPayment) -> (r: Vec<(String, String)>)
    ensures
        r@.len() == if provider.native_id.is_some() { 2int } else { 1int },
        r@[0].0@ == "providerStatus"@,
        r@[0].1@ == provider.status@,
        provider.native_id.is_some() ==> r@[1].0@ == "providerTransactionId"@ && r@[1].1@
            == provider.native_id.unwrap()@,
{
    let mut r: Vec<(String, String)> = Vec::new();
    r.push(("providerStatus".to_owned(), provider.status.clone()));
    match &provider.native_id {
        Some(n) => r.push(("providerTransactionId".to_owned(), n.clone())),
        None => {},
    }
    r
}

/// How the provider account of an existing payment is found: by its
/// recorded account; not at all when a channel is bound (the deployment
/// credentials apply); else the tenant's active account for the provider.
#[derive(Clone, Debug, PartialEq, Eq)]
pub enum ProviderAccountLookup {
    ById(String),
    ChannelBound,
    ActiveAccount,
}

pub fn provider_account_lookup(provider_account_id: Option<&str>, channel_id: Option<&str>) -> (r:
    ProviderAccountLookup)
    ensures
        match provider_account_id {
            Some(a) => (r matches ProviderAccountLookup::ById(id) && id@ == a@),
            None => if channel_id.is_some() {
                r == ProviderAccountLookup::ChannelBound
            } else {
                r == ProviderAccountLookup::ActiveAccount
            },
        },
{
    match provider_account_id {
        Some(a) => ProviderAccountLookup::ById(a.to_owned()),
        None => {
            if channel_id.is_some() {
                ProviderAccountLookup::ChannelBound
            } else {
                ProviderAccountLookup::ActiveAccount
            }
        },
    }
}

/// What a webhook's signature check answered.
#[derive(Clone, Copy, Debug, PartialEq, Eq, Structural)]
pub enum WebhookVerification {
    Verified,
    Unverified,
    ProviderError,
}

/// A webhook that is recorded as rejected, with the reason stored and the
/// error answered.
#[derive(Clone, Debug)]
pub struct WebhookRejection {
    pub reason: &'static str,
    pub error: CommerceError,
}

/// A verified webhook proceeds; an unverified one and a provider error are
/// both rejected with the same answer, but recorded with their own reason.
pub fn webhook_verification_rejection(check: WebhookVerification) -> (r: Option<WebhookRejection>)
    ensures
        check == WebhookVerification::Verified ==> r.is_none(),
        check == WebhookVerification::Unverified ==> r.is_some() && r.unwrap().reason@
            == "webhook signature verification failed"@,
        check == WebhookVerification::ProviderError ==> r.is_some() && r.unwrap().reason@
            == "webhook verification provider error"@,
        r.is_some() ==> r.unwrap().error.kind == ErrorKind::Validation && r.unwrap().error.message@
            == "webhook signature verification failed"@,
{
    match check {
        WebhookVerification::Verified => None,
        WebhookVerification::Unverified => Some(
            WebhookRejection {
                reason: "webhook signature verification failed",
                error: validation("webhook signature verification failed"),
            },
        ),
        WebhookVerification::ProviderError => Some(
            WebhookRejection {
                reason: "webhook verification provider error",
                error: validation("webhook signature verification failed"),
            },
        ),
    }
}

/// A webhook the provider could not normalize is rejected as a bad request.
pub fn webhook_normalization_rejection() -> (r: WebhookRejection)
    ensures
        r.reason@ == "webhook normalization provider error"@,
        r.error.kind == ErrorKind::Validation,
        r.error.message@ == "bad request"@,
{
    WebhookRejection { reason: "webhook normalization provider error", error: validation("bad request") }
}

/// A webhook for a provider that has no adapter configured.
pub fn unconfigured_provider_error(provider_code: &str) -> (r: CommerceError)
    ensures
        r.kind == ErrorKind::Validation,
        r.message@ == "payment provider "@ + provider_code@ + " is not configured"@,
{
    let mut message = chars_of("payment provider ");
    append_str(&mut message, provider_code);
    append_str(&mut message, " is not configured");
    validation(string_of(&message).as_str())
}

/// The tenant scope a provider account or payment attempt belongs to.
#[derive(Clone, Debug)]
pub struct ProviderScope {
    pub tenant_id: String,
    pub organization_id: Option<String>,
}

/// The scope a webhook is ingested in: the resolved provider account's,
/// else the matched payment attempt's.
pub fn webhook_provider_scope(account: Option<ProviderScope>, attempt: Option<ProviderScope>) -> (r:
    Option<ProviderScope>)
    ensures
        r == if account.is_some() {
            account
        } else {
            attempt
        },
{
    match account {
        Some(a) => Some(a),
        None => attempt,
    }
}

/// How a webhook's provider account is found.
#[derive(Clone, Debug, PartialEq, Eq)]
pub enum WebhookAccountLookup {
    /// The active account of the matched attempt's tenant and provider.
    ByAttempt,
    /// The active account registered under this merchant id.
    ByMerchant(String),
    /// No account: the deployment credentials apply.
    Deployment,
}

/// A webhook whose merchant order number matched an attempt uses that
/// attempt's account; else one that names a merchant id uses that
/// merchant's account; else the deployment credentials.
pub fn webhook_account_lookup(attempt_matched: bool, merchant_id: Option<&str>) -> (r:
    WebhookAccountLookup)
    ensures
        attempt_matched ==> r == WebhookAccountLookup::ByAttempt,
        !attempt_matched && merchant_id.is_some() ==> (r matches WebhookAccountLookup::ByMerchant(m)
            && m@ == merchant_id.unwrap()@),
        !attempt_matched && merchant_id.is_none() ==> r == WebhookAccountLookup::Deployment,
{
    if attempt_matched {
        WebhookAccountLookup::ByAttempt
    } else {
        match merchant_id {
            Some(m) => WebhookAccountLookup::ByMerchant(m.to_owned()),
            None => WebhookAccountLookup::Deployment,
        }
    }
}

/// The owner order a reconciliation request asks about.
#[derive(Clone, Debug)]
pub struct ReconcileOwnerOrderPaymentRequest {
    pub tenant_id: String,
    pub organization_id: Option<String>,
    pub owner_user_id: String,
    pub order_id: String,
}

/// What reconciliation reports: the attempt to settle, the provider and
/// its status, and whether the attempt had already succeeded.
#[derive(Clone, Debug)]
pub struct ReconcileOwnerOrderPaymentOutcome {
    pub attempt: OrderPaymentSettlementAttempt,
    pub provider_code: String,
    pub provider_status: String,
    pub replayed: bool,
}

/// The reconciliation report for a candidate attempt.
pub fn reconciliation_outcome(
    request: ReconcileOwnerOrderPaymentRequest,
    candidate: ReconciliationCandidate,
    provider_status: &str,
    replayed: bool,
) -> (r: ReconcileOwnerOrderPaymentOutcome)
    ensures
        r.attempt.tenant_id == request.tenant_id,
        r.attempt.organization_id == request.organization_id,
        r.attempt.owner_user_id == request.owner_user_id,
        r.attempt.order_id == request.order_id,
        r.attempt.payment_attempt_id == Some(candidate.attempt_id),
        r.attempt.out_trade_no == Some(candidate.out_trade_no),
        r.provider_code == candidate.provider_code,
        r.provider_status@ == provider_status@,
        r.replayed == replayed,
{
    ReconcileOwnerOrderPaymentOutcome {
        attempt: OrderPaymentSettlementAttempt {
            tenant_id: request.tenant_id,
            organization_id: request.organization_id,
            owner_user_id: request.owner_user_id,
            order_id: request.order_id,
            payment_attempt_id: Some(candidate.attempt_id),
            out_trade_no: Some(candidate.out_trade_no),
        },
        provider_code: candidate.provider_code,
        provider_status: provider_status.to_owned(),
        replayed,
    }
}

} // verus!
