use vstd::prelude::*;
use std::collections::HashMap;
use crate::msg::Empty;

verus! {

/// The single persistent record of the contract. The host loads it at the
/// start of each call and commits the saved value atomically when the call
/// succeeds.
#[derive(Debug)]
pub struct Config {
    /// The commitments: each minted token id mapped to the digest of its
    /// secret lyrics. A solved commitment stays recorded; the transfer of
    /// the token, not the map, marks it redeemed.
    pub nft_ids: HashMap<u32, u64>,
    /// The only account allowed to mint commitments.
    pub owner: String,
    /// The companion NFT contract, once its creation callback has arrived;
    /// set at most once.
    pub cw721_address: Option<String>,
    /// The least payment a guess must attach.
    pub guessing_fee: u128,
    pub name: String,
    pub symbol: String,
    pub token_uri: String,
    pub extension: Option<Empty>,
    /// The id the next mint will take; strictly above every minted id.
    pub next_available_token_id: u32,
}

impl Config {
    /// Well-formedness: token ids are assigned monotonically from 0 and
    /// never reused, so every key of the commitment map lies strictly below
    /// the counter.
    pub open spec fn wf(self) -> bool {
        forall|k: u32| self.nft_ids@.dom().contains(k) ==> k < self.next_available_token_id
    }
}

} // verus!
