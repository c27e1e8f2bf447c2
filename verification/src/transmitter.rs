//! Interpretation of ingestion-server responses.
//!
//! The surrounding task performs the HTTP POST, reads the status code, the
//! `Retry-After` header and the parsed transmission status body, and hands
//! them to [`interpret_response`], which classifies the response into a typed
//! [`Response`] and reconciles partially accepted batches.

use vstd::prelude::*;

use crate::contracts::{Envelope, Transmission, TransmissionItem};

verus! {

pub const STATUS_OK: u16 = 200;
pub const STATUS_PARTIAL_CONTENT: u16 = 206;
pub const STATUS_REQUEST_TIMEOUT: u16 = 408;
pub const STATUS_TOO_MANY_REQUESTS: u16 = 429;
pub const STATUS_INTERNAL_SERVER_ERROR: u16 = 500;
pub const STATUS_SERVICE_UNAVAILABLE: u16 = 503;

/// The transmitter's classification of a server response.
#[derive(Debug, PartialEq)]
pub enum Response {
    /// The batch was fully accepted.
    Success,
    /// A transient failure; the carried items are the subset to resubmit.
    Retry(Vec<Envelope>),
    /// A transient failure for which the server dictated the earliest next
    /// attempt, as milliseconds since the Unix epoch.
    Throttled(i64, Vec<Envelope>),
    /// A permanent failure, or nothing remaining to retry.
    NoRetry,
}

/// The mathematical value of a [`Response`].
pub enum OutcomeModel {
    Success,
    Retry(Seq<Envelope>),
    Throttled(int, Seq<Envelope>),
    NoRetry,
}

impl View for Response {
    type V = OutcomeModel;

    open spec fn view(&self) -> OutcomeModel {
        match self {
            Response::Success => OutcomeModel::Success,
            Response::Retry(remaining) => OutcomeModel::Retry(remaining@),
            Response::Throttled(until, remaining) => OutcomeModel::Throttled(
                *until as int,
                remaining@,
            ),
            Response::NoRetry => OutcomeModel::NoRetry,
        }
    }
}

/// Whether a per-item status code marks the item as worth re-sending.
pub open spec fn spec_can_retry(status_code: u16) -> bool {
    ||| status_code == STATUS_PARTIAL_CONTENT
    ||| status_code == STATUS_REQUEST_TIMEOUT
    ||| status_code == STATUS_INTERNAL_SERVER_ERROR
    ||| status_code == STATUS_SERVICE_UNAVAILABLE
    ||| status_code == STATUS_TOO_MANY_REQUESTS
}

/// Determines that a telemetry item can be re-sent corresponding to this
/// submission status descriptor.
pub fn can_retry_item(item: &TransmissionItem) -> (r: bool)
    ensures
        r == spec_can_retry(item.status_code),
{
    item.status_code == STATUS_PARTIAL_CONTENT
        || item.status_code == STATUS_REQUEST_TIMEOUT
        || item.status_code == STATUS_INTERNAL_SERVER_ERROR
        || item.status_code == STATUS_SERVICE_UNAVAILABLE
        || item.status_code == STATUS_TOO_MANY_REQUESTS
}

/// A transmission status body is coherent with a batch of `items_len` items
/// when the entries it marks retryable point into the batch, in strictly
/// ascending order. Reconciliation is defined only for such bodies; anything
/// else is treated as a malformed response.
pub open spec fn spec_errors_well_formed(items_len: int, errors: Seq<TransmissionItem>) -> bool {
    &&& forall|i: int|
        0 <= i < errors.len() && spec_can_retry((#[trigger] errors[i]).status_code)
            ==> errors[i].index < items_len
    &&& forall|i: int, j: int|
        0 <= i < j < errors.len() && spec_can_retry((#[trigger] errors[i]).status_code)
            && spec_can_retry((#[trigger] errors[j]).status_code) ==> errors[i].index
            < errors[j].index
}

/// Decides [`spec_errors_well_formed`] by a single scan.
pub fn errors_well_formed(items_len: usize, errors: &Vec<TransmissionItem>) -> (r: bool)
    ensures
        r == spec_errors_well_formed(items_len as int, errors@),
{
    let n = errors.len();
    let mut prev: Option<usize> = None;
    let mut k: usize = 0;
    while k < n
        invariant
            n == errors@.len(),
            0 <= k <= n,
            spec_errors_well_formed(items_len as int, errors@.take(k as int)),
            match prev {
                Some(p) => {
                    &&& exists|i: int|
                        0 <= i < k && spec_can_retry((#[trigger] errors@[i]).status_code)
                            && errors@[i].index == p
                    &&& forall|i: int|
                        0 <= i < k && spec_can_retry((#[trigger] errors@[i]).status_code)
                            ==> errors@[i].index <= p
                },
                None => forall|i: int|
                    0 <= i < k ==> !spec_can_retry((#[trigger] errors@[i]).status_code),
            },
        decreases n - k,
    {
        let e = &errors[k];
        if can_retry_item(e) {
            if e.index >= items_len {
                proof {
                    assert(!spec_errors_well_formed(items_len as int, errors@));
                }
                return false;
            }
            match prev {
                Some(p) => {
                    if e.index <= p {
                        proof {
                            assert(!spec_errors_well_formed(items_len as int, errors@));
                        }
                        return false;
                    }
                },
                None => {},
            }
            prev = Some(e.index);
        }
        proof {
            assert(errors@.take(k + 1).drop_last() =~= errors@.take(k as int));
            assert(forall|i: int|
                0 <= i < k + 1 ==> errors@.take(k + 1)[i] == errors@[i]);
        }
        k += 1;
    }
    proof {
        assert(errors@.take(n as int) =~= errors@);
    }
    true
}

/// The reconciled batch: for each entry the server marked retryable, in
/// order, the item of the original batch standing at that entry's index.
pub open spec fn spec_retained(items: Seq<Envelope>, errors: Seq<TransmissionItem>) -> Seq<
    Envelope,
>
    decreases errors.len(),
{
    if errors.len() == 0 {
        Seq::empty()
    } else {
        let prefix = spec_retained(items, errors.drop_last());
        if spec_can_retry(errors.last().status_code) {
            prefix.push(items[errors.last().index as int])
        } else {
            prefix
        }
    }
}

/// Filters out those telemetry items that cannot be re-sent: after the call,
/// the batch holds exactly the items the status body marked retryable, in
/// their original order.
pub fn retain_retry_items(items: &mut Vec<Envelope>, content: Transmission)
    requires
        spec_errors_well_formed(old(items)@.len() as int, content.errors@),
    ensures
        final(items)@ == spec_retained(old(items)@, content.errors@),
{
    let mut retry_items: Vec<Envelope> = Vec::new();
    let n = content.errors.len();
    let mut k: usize = 0;
    while k < n
        invariant
            n == content.errors@.len(),
            0 <= k <= n,
            items@ == old(items)@,
            spec_errors_well_formed(items@.len() as int, content.errors@),
            retry_items@ == spec_retained(items@, content.errors@.take(k as int)),
        decreases n - k,
    {
        let e = &content.errors[k];
        if can_retry_item(e) {
            retry_items.push(items[e.index].clone());
        }
        proof {
            assert(content.errors@.take(k + 1).drop_last() =~= content.errors@.take(k as int));
            assert(content.errors@.take(k + 1).last() == content.errors@[k as int]);
        }
        k += 1;
    }
    proof {
        assert(content.errors@.take(n as int) =~= content.errors@);
    }
    *items = retry_items;
}

/// The positions, in scan order, of the entries of a status body that are
/// marked retryable.
pub open spec fn spec_retry_positions(errors: Seq<TransmissionItem>) -> Seq<int>
    decreases errors.len(),
{
    if errors.len() == 0 {
        Seq::empty()
    } else {
        let prefix = spec_retry_positions(errors.drop_last());
        if spec_can_retry(errors.last().status_code) {
            prefix.push(errors.len() - 1)
        } else {
            prefix
        }
    }
}

/// The reconciled batch is a subsequence of the original batch: it carries,
/// in their original order and without duplication, exactly the items that
/// the server marked retryable, taken at strictly ascending indices.
pub proof fn lemma_retained_is_ordered_retryable_subsequence(
    items: Seq<Envelope>,
    errors: Seq<TransmissionItem>,
)
    requires
        spec_errors_well_formed(items.len() as int, errors),
    ensures
        spec_retained(items, errors).len() == spec_retry_positions(errors).len(),
        forall|k: int|
            0 <= k < spec_retry_positions(errors).len() ==> {
                &&& 0 <= #[trigger] spec_retry_positions(errors)[k] < errors.len()
                &&& spec_can_retry(errors[spec_retry_positions(errors)[k]].status_code)
                &&& errors[spec_retry_positions(errors)[k]].index < items.len()
                &&& spec_retained(items, errors)[k] == items[errors[spec_retry_positions(
                    errors,
                )[k]].index as int]
            },
        forall|k1: int, k2: int|
            0 <= k1 < k2 < spec_retry_positions(errors).len() ==> #[trigger] spec_retry_positions(
                errors,
            )[k1] < #[trigger] spec_retry_positions(errors)[k2],
        forall|k1: int, k2: int|
            0 <= k1 < k2 < spec_retry_positions(errors).len()
                ==> errors[#[trigger] spec_retry_positions(errors)[k1]].index < errors[
                #[trigger] spec_retry_positions(errors)[k2]].index,
    decreases errors.len(),
{
    if errors.len() == 0 {
    } else {
        let prefix = errors.drop_last();
        assert forall|i: int|
            0 <= i < prefix.len() && spec_can_retry(
                (#[trigger] prefix[i]).status_code,
            ) implies prefix[i].index < items.len() by {
            assert(prefix[i] == errors[i]);
        }
        assert forall|i: int, j: int|
            0 <= i < j < prefix.len() && spec_can_retry((#[trigger] prefix[i]).status_code)
                && spec_can_retry((#[trigger] prefix[j]).status_code) implies prefix[i].index
            < prefix[j].index by {
            assert(prefix[i] == errors[i]);
            assert(prefix[j] == errors[j]);
        }
        lemma_retained_is_ordered_retryable_subsequence(items, prefix);
    }
}

/// Whatever a classification carries for resubmission is either the full
/// submitted batch or the batch reconciled against a coherent status body —
/// so, with [`lemma_retained_is_ordered_retryable_subsequence`], always a
/// subsequence of the submitted batch, in its original order.
pub proof fn lemma_resubmitted_items_come_from_the_batch(
    status: u16,
    body: Option<Transmission>,
    retry_after: Option<String>,
    items: Seq<Envelope>,
)
    ensures
        match spec_interpret(status, body, retry_after, items) {
            OutcomeModel::Retry(kept) => kept == items || (body matches Some(content)
                && spec_errors_well_formed(items.len() as int, content.errors@) && kept
                == spec_retained(items, content.errors@)),
            OutcomeModel::Throttled(until, kept) => kept == items || (body matches Some(content)
                && spec_errors_well_formed(items.len() as int, content.errors@) && kept
                == spec_retained(items, content.errors@)),
            OutcomeModel::Success => true,
            OutcomeModel::NoRetry => true,
        },
{
}

pub uninterp spec fn rfc2822_epoch_millis(s: Seq<char>) -> Option<int>;

/// Relies on chrono's `DateTime::parse_from_rfc2822`: whether a header text
/// is a valid RFC 2822 date, and which instant it denotes, depend on the text
/// alone.
#[verifier::external_body]
fn parse_rfc2822_millis(s: &str) -> (r: Option<i64>)
    ensures
        r matches Some(t) ==> rfc2822_epoch_millis(s@) == Some(t as int),
        r is None ==> rfc2822_epoch_millis(s@) is None,
{
    chrono::DateTime::parse_from_rfc2822(s).ok().map(
        |t| t.with_timezone(&chrono::Utc).timestamp_millis(),
    )
}

/// The batch kept for a 408 or 429 response: reconciled against the status
/// body when one was parsed and is coherent, the full batch otherwise.
pub open spec fn spec_kept_after_filter(items: Seq<Envelope>, body: Option<Transmission>) -> Seq<
    Envelope,
> {
    match body {
        Some(content) => if spec_errors_well_formed(items.len() as int, content.errors@) {
            spec_retained(items, content.errors@)
        } else {
            items
        },
        None => items,
    }
}

/// The classification a response must receive, as a function of the status
/// code, the parsed status body (`None` when the response carried none or it
/// could not be parsed), the raw `Retry-After` header, and the batch that was
/// submitted.
///
/// A body whose retryable entries do not point coherently into the batch is
/// treated like an unparseable one: for a 206 the batch counts as handled (a
/// partial acceptance that cannot be reconciled must not loop), for the
/// transient statuses the full batch is kept.
pub open spec fn spec_interpret(
    status: u16,
    body: Option<Transmission>,
    retry_after: Option<String>,
    items: Seq<Envelope>,
) -> OutcomeModel {
    if status == STATUS_OK {
        OutcomeModel::Success
    } else if status == STATUS_PARTIAL_CONTENT {
        match body {
            None => OutcomeModel::Success,
            Some(content) => if content.items_received == content.items_accepted {
                OutcomeModel::Success
            } else if !spec_errors_well_formed(items.len() as int, content.errors@) {
                OutcomeModel::Success
            } else {
                let kept = spec_retained(items, content.errors@);
                if kept.len() == 0 {
                    OutcomeModel::NoRetry
                } else {
                    OutcomeModel::Retry(kept)
                }
            },
        }
    } else if status == STATUS_REQUEST_TIMEOUT || status == STATUS_TOO_MANY_REQUESTS {
        let kept = spec_kept_after_filter(items, body);
        match retry_after {
            Some(header) => match rfc2822_epoch_millis(header@) {
                Some(until) => OutcomeModel::Throttled(until, kept),
                None => OutcomeModel::Retry(kept),
            },
            None => OutcomeModel::Retry(kept),
        }
    } else if status == STATUS_INTERNAL_SERVER_ERROR {
        match body {
            Some(content) => if spec_errors_well_formed(items.len() as int, content.errors@) {
                let kept = spec_retained(items, content.errors@);
                if kept.len() == 0 {
                    OutcomeModel::NoRetry
                } else {
                    OutcomeModel::Retry(kept)
                }
            } else {
                OutcomeModel::Retry(items)
            },
            None => OutcomeModel::Retry(items),
        }
    } else if status == STATUS_SERVICE_UNAVAILABLE {
        OutcomeModel::Retry(items)
    } else {
        OutcomeModel::NoRetry
    }
}

/// Classifies a server response.
///
/// A 200 is a success whatever the body holds. A 206 follows the accepted
/// count: when it equals the received count the batch counts as handled even
/// if the error list is not empty. 408 and 429 keep the reconciled batch and
/// honour a parseable `Retry-After` header; a malformed header falls back to
/// schedule-driven retry. A 500 retries the reconciled batch, or the full
/// batch when the body cannot be used; a 503 always retries the full batch.
/// Every other status drops the batch.
pub fn interpret_response(
    status: u16,
    body: Option<Transmission>,
    retry_after: Option<String>,
    items: Vec<Envelope>,
) -> (r: Response)
    ensures
        r@ == spec_interpret(status, body, retry_after, items@),
        status == STATUS_OK ==> r is Success,
        ({
            &&& status == STATUS_PARTIAL_CONTENT
            &&& body matches Some(content)
            &&& content.items_accepted == content.items_received
        }) ==> r is Success,
{
    let mut items = items;
    if status == STATUS_OK {
        Response::Success
    } else if status == STATUS_PARTIAL_CONTENT {
        match body {
            None => Response::Success,
            Some(content) => {
                if content.items_received == content.items_accepted {
                    Response::Success
                } else if !errors_well_formed(items.len(), &content.errors) {
                    Response::Success
                } else {
                    retain_retry_items(&mut items, content);
                    if items.len() == 0 {
                        Response::NoRetry
                    } else {
                        Response::Retry(items)
                    }
                }
            },
        }
    } else if status == STATUS_REQUEST_TIMEOUT || status == STATUS_TOO_MANY_REQUESTS {
        match body {
            Some(content) => {
                if errors_well_formed(items.len(), &content.errors) {
                    retain_retry_items(&mut items, content);
                }
            },
            None => {},
        }
        match retry_after {
            Some(header) => {
                match parse_rfc2822_millis(header.as_str()) {
                    Some(until) => Response::Throttled(until, items),
                    None => Response::Retry(items),
                }
            },
            None => Response::Retry(items),
        }
    } else if status == STATUS_INTERNAL_SERVER_ERROR {
        match body {
            Some(content) => {
                if errors_well_formed(items.len(), &content.errors) {
                    retain_retry_items(&mut items, content);
                    if items.len() == 0 {
                        Response::NoRetry
                    } else {
                        Response::Retry(items)
                    }
                } else {
                    Response::Retry(items)
                }
            },
            None => Response::Retry(items),
        }
    } else if status == STATUS_SERVICE_UNAVAILABLE {
        Response::Retry(items)
    } else {
        Response::NoRetry
    }
}

} // verus!
