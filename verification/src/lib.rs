//! Relay core for forwarding issue-tracker comment webhooks to a chat
//! webhook: payload decoding, event filtering, enrichment-response handling
//! and notification formatting, all verified; network transport stays with
//! the caller.

use vstd::prelude::*;

pub mod json;
pub mod linear;
pub mod relay;

verus! {

/// An upstream HTTP status counts as success exactly when it lies in the
/// 200..=209 range, i.e. `status / 10 == 20`.
pub open spec fn status_success_spec(status: u16) -> bool {
    status / 10 == 20
}

/// Runtime check mirroring `status_success_spec`.
pub fn status_success(status: u16) -> (r: bool)
    ensures
        r == status_success_spec(status),
{
    status / 10 == 20
}

} // verus!
