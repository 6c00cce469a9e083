use vstd::prelude::*;

use crate::exchange::ExchangeId;

verus! {

/// How the open interest of a reading is written.
#[derive(Debug)]
pub enum OpenInterestText {
    /// The open interest itself, as a numeric string.
    Direct(String),
    /// Lighter's open-interest-limit figure: the open interest is this number
    /// divided by the price, times two.
    LimitOverPrice(String),
}

/// A canonical per-asset record, with each numeric field in the decimal text
/// that the exchange sent. A field that does not read as a number counts as
/// 0.0 where the record is turned into numbers; the record is emitted all the
/// same.
#[derive(Debug)]
pub struct AssetReading {
    pub symbol: String,
    pub funding_rate: String,
    pub open_interest: OpenInterestText,
    pub price: String,
    pub exchange: ExchangeId,
}

} // verus!
