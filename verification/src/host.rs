//! What the host tells a contract about the call it delivers.
use vstd::prelude::*;

verus! {

/// The block in which a call runs, and the contract that runs it.
#[derive(Debug)]
pub struct Env {
    /// The height of the block: the contract's clock.
    pub block_height: u64,
    /// The time of the block, as the host prints it.
    pub block_time: String,
    /// The contract's own address, as the host prints it.
    pub contract_address: String,
    /// The hash of the contract's code.
    pub contract_code_hash: String,
}

/// Who sent a call. The address is canonical.
#[derive(Debug)]
pub struct MessageInfo {
    pub sender: Vec<u8>,
}

} // verus!
