use vstd::prelude::*;

verus! {

/// Where a transaction stands relative to the best chain.
#[derive(Debug, Clone, Copy, PartialEq, Eq, Structural)]
pub enum ChainPlace {
    /// Confirmed in the block at this height.
    Confirmed { height: u32 },
    /// Not confirmed; possibly seen in the mempool at this Unix time.
    Unconfirmed { last_seen: Option<u64> },
}

/// A wallet-relevant transaction, flattened for the host.
#[derive(Debug, Clone)]
pub struct WalletTransaction {
    pub txid: String,
    pub sent: u64,
    pub received: u64,
    pub fee: Option<u64>,
    pub is_confirmed: bool,
    pub confirmation_height: Option<u32>,
    pub timestamp: Option<u64>,
}

/// The same record in the shape handed across the host boundary.
#[derive(Debug, Clone)]
pub struct WalletTransactionInfo {
    pub txid: String,
    pub sent: u64,
    pub received: u64,
    pub fee: Option<u64>,
    pub is_confirmed: bool,
    pub confirmation_height: Option<u32>,
    pub timestamp: Option<u64>,
}

impl WalletTransaction {
    /// Flattens a transaction: confirmed entries carry their height and no
    /// timestamp, unconfirmed ones their last-seen time and no height.
    pub fn from_parts(txid: String, sent: u64, received: u64, fee: Option<u64>, place: ChainPlace) -> (r:
        WalletTransaction)
        ensures
            r.txid@ == txid@,
            r.sent == sent,
            r.received == received,
            r.fee == fee,
            r.is_confirmed == (place is Confirmed),
            place matches ChainPlace::Confirmed { height } ==> r.confirmation_height == Some(height)
                && r.timestamp is None,
            place matches ChainPlace::Unconfirmed { last_seen } ==> r.confirmation_height is None
                && r.timestamp == last_seen,
    {
        let (is_confirmed, confirmation_height, timestamp) = match place {
            ChainPlace::Confirmed { height } => (true, Some(height), None),
            ChainPlace::Unconfirmed { last_seen } => (false, None, last_seen),
        };
        WalletTransaction { txid, sent, received, fee, is_confirmed, confirmation_height, timestamp }
    }

    pub fn to_info(self) -> (r: WalletTransactionInfo)
        ensures
            r.txid@ == self.txid@,
            r.sent == self.sent,
            r.received == self.received,
            r.fee == self.fee,
            r.is_confirmed == self.is_confirmed,
            r.confirmation_height == self.confirmation_height,
            r.timestamp == self.timestamp,
    {
        WalletTransactionInfo {
            txid: self.txid,
            sent: self.sent,
            received: self.received,
            fee: self.fee,
            is_confirmed: self.is_confirmed,
            confirmation_height: self.confirmation_height,
            timestamp: self.timestamp,
        }
    }
}

} // verus!
