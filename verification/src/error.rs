use vstd::prelude::*;

verus! {

/// The failures a handler can report. The host treats any of them as
/// "abort and roll back every state change of the call".
#[derive(Debug, Clone, PartialEq, Eq)]
pub enum ContractError {
    /// A wrapped host-level failure: a storage record or a reply payload
    /// that does not decode.
    Std {},
    /// The caller of a mint is not the configured owner.
    Unauthorized {},
    /// A guess names a token id with no stored commitment.
    NFTNotFound {},
    /// The digest of the guessed lyrics differs from the stored commitment.
    IncorrectLyrics {},
    /// A guess carries no payment, the wrong denomination, or too small an
    /// amount.
    InvalidFunds {},
    /// A second creation callback arrived after the companion contract's
    /// address was already recorded.
    NFTContractALreadyLinked {},
    /// A callback carried a reply identifier this contract never issued.
    UnknownReplyId { reply_id: u64 },
}

} // verus!
