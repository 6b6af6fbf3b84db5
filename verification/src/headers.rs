//! Names of the response headers that carry chain metadata.

use vstd::prelude::*;

verus! {

/// Chain ID of the current chain
pub const X_SUI_CHAIN_ID: &'static str = "x-myso-chain-id";

/// Chain name of the current chain
pub const X_SUI_CHAIN: &'static str = "x-myso-chain";

/// Current checkpoint height
pub const X_SUI_CHECKPOINT_HEIGHT: &'static str = "x-myso-checkpoint-height";

/// Lowest available checkpoint for which transaction and checkpoint data can
/// be requested: checkpoints, transactions, effects and events.
pub const X_SUI_LOWEST_AVAILABLE_CHECKPOINT: &'static str = "x-myso-lowest-available-checkpoint";

/// Lowest available checkpoint for which input and output object data can be
/// requested.
pub const X_SUI_LOWEST_AVAILABLE_CHECKPOINT_OBJECTS: &'static str =
    "x-myso-lowest-available-checkpoint-objects";

/// Current epoch of the chain
pub const X_SUI_EPOCH: &'static str = "x-myso-epoch";

/// Current timestamp of the chain, in milliseconds from the Unix epoch
pub const X_SUI_TIMESTAMP_MS: &'static str = "x-myso-timestamp-ms";

/// Current timestamp of the chain, in RFC 3339 format
pub const X_SUI_TIMESTAMP: &'static str = "x-myso-timestamp";

} // verus!
