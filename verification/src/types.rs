//! Passive value types shared by the store and the header preload.

use vstd::prelude::*;

verus! {

/// Digest of a locking script; the key of the history index.
pub type ScriptHash = u64;

/// Position of a block in the chain.
pub type Height = u32;

/// Block time in seconds, as carried by a block header.
pub type Timestamp = u32;

/// A 256-bit identifier, held as four 64-bit words.
#[derive(Clone, Copy, Debug, PartialEq, Eq, Structural, Hash)]
pub struct Hash256 {
    pub w0: u64,
    pub w1: u64,
    pub w2: u64,
    pub w3: u64,
}

/// Identifier of a transaction.
pub type Txid = Hash256;

/// Identifier of a block.
pub type BlockHash = Hash256;

impl Hash256 {
    /// The identifier whose words are all zero.
    pub fn all_zeros() -> (r: Self)
        ensures
            r == (Hash256 { w0: 0, w1: 0, w2: 0, w3: 0 }),
    {
        Hash256 { w0: 0, w1: 0, w2: 0, w3: 0 }
    }
}

/// A transaction output: the transaction that holds it and its index there.
#[derive(Clone, Copy, Debug, PartialEq, Eq, Structural, Hash)]
pub struct OutPoint {
    pub txid: Txid,
    pub vout: u32,
}

/// Where in a transaction a script appears.
#[derive(Clone, Copy, Debug, PartialEq, Eq, Structural, Hash)]
pub enum V {
    /// As the output with this index.
    Vout(u32),
    /// As the script spent by the input with this index.
    Vin(u32),
}

/// One appearance of a script in the chain.
#[derive(Clone, Copy, Debug, PartialEq, Eq, Structural, Hash)]
pub struct TxSeen {
    pub txid: Txid,
    pub height: Height,
    pub v: V,
}

impl TxSeen {
    pub fn new(txid: Txid, height: Height, v: V) -> (r: Self)
        ensures
            r == (TxSeen { txid, height, v }),
    {
        TxSeen { txid, height, v }
    }
}

/// One output consumed by a block: the output, the script that owned it, and
/// the transaction and input that spend it.
#[derive(Clone, Copy, Debug, PartialEq, Eq, Structural, Hash)]
pub struct SpentUtxo {
    pub outpoint: OutPoint,
    pub script_hash: ScriptHash,
    pub txid: Txid,
    pub vin: u32,
}

/// Identity of one block of the chain.
#[derive(Clone, Copy, Debug, PartialEq, Eq, Structural, Hash)]
pub struct BlockMeta {
    pub height: Height,
    pub hash: BlockHash,
    pub timestamp: Timestamp,
}

impl BlockMeta {
    pub fn new(height: Height, hash: BlockHash, timestamp: Timestamp) -> (r: Self)
        ensures
            r == (BlockMeta { height, hash, timestamp }),
    {
        BlockMeta { height, hash, timestamp }
    }

    pub fn height(&self) -> (r: Height)
        ensures
            r == self.height,
    {
        self.height
    }

    pub fn hash(&self) -> (r: BlockHash)
        ensures
            r == self.hash,
    {
        self.hash
    }

    pub fn timestamp(&self) -> (r: Timestamp)
        ensures
            r == self.timestamp,
    {
        self.timestamp
    }
}

/// An output with the script that owns it.
pub type Utxo = (OutPoint, ScriptHash);

/// A history entry with the script it belongs to.
pub type Posting = (ScriptHash, TxSeen);

} // verus!
