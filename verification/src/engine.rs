//! Declarations of the accessibility engine's value types. The bridge never
//! looks inside either of them: an action request is packaged into an event
//! and handed to the host, and a tree update is passed through to the
//! platform adapter.

use vstd::prelude::*;

verus! {

/// Declares `accesskit::ActionRequest`, the engine's opaque description of
/// an action (click, focus, set value, ...) requested by assistive
/// technology, so that it can stand in signatures and fields.
#[verifier::external_type_specification]
#[verifier::external_body]
pub struct ExActionRequest(accesskit::ActionRequest);

/// Declares `accesskit::TreeUpdate`, the engine's opaque snapshot or delta
/// of an accessibility tree, so that it can stand in signatures and fields.
#[verifier::external_type_specification]
#[verifier::external_body]
pub struct ExTreeUpdate(accesskit::TreeUpdate);

} // verus!
