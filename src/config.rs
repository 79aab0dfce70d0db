//! The command-line surface of the monitor, as plain data.
use vstd::prelude::*;

verus! {

/// Options common to every command.
#[derive(Debug)]
pub struct Opts {
    /// WebSocket address of the node to read from.
    pub ws: String,
    /// First port tried for the health-check endpoint.
    pub health_port: u16,
    pub command: Command,
}

/// What the program is asked to do.
#[derive(Debug)]
pub enum Command {
    /// Walk from `start_block` back to `end_block`, recording each block's slot.
    Traverse { start_block: u32, end_block: u32 },
    /// Count the blocks of each of the last `epochs` epochs.
    EpochBlocks { epochs: u32 },
    /// Name the secondary slot authors of the epoch that starts at `block_id`.
    SecondaryAuthors { block_id: u32 },
    /// Follow finalized blocks and report short epochs and eras and
    /// validator-set changes, to `channel_id` if one is given.
    ChainMonitor { channel_id: Option<String> },
}

/// The chain configuration the monitor reads with: 32-byte account ids,
/// BLAKE2-256 block hashes and 32-bit block numbers.
#[derive(Clone, Copy, Debug)]
pub struct AvailConfig;

} // verus!
