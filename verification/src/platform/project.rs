//! What the registry sends to a campaign that it creates.
use vstd::prelude::*;

use crate::project::reward::RewardMessage;
use crate::project::state::PayoutScheme;

verus! {

/// What creates a campaign. The creator's and the token's address are
/// canonical.
#[derive(Debug)]
pub struct ProjectInstantiateMsg {
    pub creator: Vec<u8>,
    pub title: String,
    pub subtitle: Option<String>,
    pub description: String,
    /// Shown to those who have pledged, while the campaign runs.
    pub pledged_message: Option<String>,
    /// Shown to contributors once the campaign is paid out.
    pub funded_message: Option<String>,
    /// Shown to contributors who gave at least a threshold.
    pub reward_messages: Vec<RewardMessage>,
    pub goal: u128,
    pub deadline: u64,
    pub deadman: u64,
    pub categories: Vec<u16>,
    pub entropy: String,
    /// The registry's own address, as the host prints it.
    pub source_contract: String,
    pub source_hash: String,
    pub snip20_contract: Vec<u8>,
    pub snip20_hash: String,
    pub scheme: PayoutScheme,
}

} // verus!
