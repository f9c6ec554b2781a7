use vstd::prelude::*;

use crate::job::process_batch_group::PayoutQueueTrigger;

verus! {

/// The metadata header that carries a profile's API key.
pub const PROFILE_API_KEY_HEADER: &'static str = "x-bria-api-key";

/// The trigger the command-line flags ask for: manual wins over immediate, which wins over
/// an interval; `None` where no flag is given.
pub fn trigger_from_flags(manual_trigger: bool, immediate_trigger: bool, interval_trigger: Option<u32>) -> (r: Option<
    PayoutQueueTrigger,
>)
    ensures
        manual_trigger ==> r == Some(PayoutQueueTrigger::Manual),
        !manual_trigger && immediate_trigger ==> r == Some(PayoutQueueTrigger::Immediate),
        !manual_trigger && !immediate_trigger ==> r == match interval_trigger {
            Some(secs) => Some(PayoutQueueTrigger::IntervalSecs { secs }),
            None => None,
        },
{
    if manual_trigger {
        Some(PayoutQueueTrigger::Manual)
    } else if immediate_trigger {
        Some(PayoutQueueTrigger::Immediate)
    } else {
        match interval_trigger {
            Some(secs) => Some(PayoutQueueTrigger::IntervalSecs { secs }),
            None => None,
        }
    }
}

/// The API key a request carries: the one configured, unless it is empty; then `None`, and
/// the key saved for the profile is to be used.
pub fn configured_api_key(key: &String) -> (r: Option<String>)
    ensures
        key@.len() == 0 ==> r.is_none(),
        key@.len() > 0 ==> r == Some(*key),
{
    if key.as_str().is_empty() {
        None
    } else {
        Some(key.clone())
    }
}

} // verus!
