//! Classification of one bounded wait on a subscription: what the caller
//! saw — a timeout, a closed subscription, a payload, or a payload that
//! would not decode — becomes one result value.  The waiting and the
//! decoding are the caller's work.

use vstd::prelude::*;

verus! {

/// The result of waiting for the next subscription item with a timeout.
pub enum SubscriptionNextResult<T> {
    /// An item arrived and decoded.
    Item(T),
    /// The timeout elapsed first.
    Timeout,
    /// The subscription was cancelled or the connection closed.
    Cancelled,
    /// An item arrived but did not decode; the decoder's message.
    Failed(String),
}

/// Classifies one bounded wait: no answer in time is a timeout, an ended
/// stream is a cancellation, and an arrived payload stands or falls with
/// its decoding.
pub fn classify_next<T>(raced: Option<Option<Result<T, String>>>) -> (r: SubscriptionNextResult<
    T,
>)
    ensures
        raced is None <==> r is Timeout,
        raced matches Some(inner) ==> (inner is None <==> r is Cancelled),
        raced matches Some(inner) ==> (inner matches Some(decoded) ==> ((decoded matches Ok(t) ==> (
        r matches SubscriptionNextResult::Item(x) && x == t)) && (decoded matches Err(e) ==> (r
        matches SubscriptionNextResult::Failed(m) && m@ == e@)))),
{
    match raced {
        None => SubscriptionNextResult::Timeout,
        Some(None) => SubscriptionNextResult::Cancelled,
        Some(Some(Ok(item))) => SubscriptionNextResult::Item(item),
        Some(Some(Err(e))) => SubscriptionNextResult::Failed(e),
    }
}

} // verus!
