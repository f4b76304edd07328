//! The static data needed to start mining a new block. These values would
//! normally come from a node's block-template call; the defaults stand in
//! for demonstration until they are refreshed.

use crate::clock::unix_time_now;
use vstd::prelude::*;
use vstd::string::*;

verus! {

/// One mining attempt's immutable inputs, plus the node connection details
/// that the external fetch and submission collaborators use.
pub struct MinerSettings {
    /// Protocol version signalled in the header.
    pub version: u32,
    /// Hash of the previous block header, as 64 display-order hex digits.
    pub prev_block_hash: String,
    /// The compact difficulty target the header must beat.
    pub nbits: u32,
    /// The address the block reward is paid to.
    pub reward_address: String,
    /// The block reward in the smallest currency unit.
    pub block_reward_sats: u64,
    /// Starting Unix timestamp; the search rereads the clock each iteration.
    pub timestamp: u32,
    /// The node's RPC endpoint.
    pub rpc_url: String,
    /// The RPC user name.
    pub rpc_user: String,
    /// The RPC password; never persisted.
    pub rpc_pass: String,
}

impl MinerSettings {
    /// A demonstration default for the current main network. To actually
    /// mine, every field should be refreshed from the live network state.
    pub fn default() -> (s: MinerSettings)
        ensures
            s.version == 0x20000000,
            s.prev_block_hash@ == "000000000000000000021a8c91d4e78f9f23b123456789abcdef0123456789"@,
            s.nbits == 0x1800ffff,
            s.reward_address@ == "bc1q..."@,
            s.block_reward_sats == 625000000,
            s.rpc_url@ == "http://127.0.0.1:8332"@,
            s.rpc_user@ == "your_rpc_user"@,
            s.rpc_pass@ == "your_rpc_password"@,
    {
        MinerSettings {
            version: 0x20000000,
            prev_block_hash: String::from_str(
                "000000000000000000021a8c91d4e78f9f23b123456789abcdef0123456789",
            ),
            nbits: 0x1800ffff,
            reward_address: String::from_str("bc1q..."),
            block_reward_sats: 625000000,
            timestamp: unix_time_now(),
            rpc_url: String::from_str("http://127.0.0.1:8332"),
            rpc_user: String::from_str("your_rpc_user"),
            rpc_pass: String::from_str("your_rpc_password"),
        }
    }
}

} // verus!
