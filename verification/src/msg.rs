use vstd::prelude::*;

verus! {

/// The extension payload the companion NFT collection is created and minted
/// with. It carries no data; only its presence is recorded.
#[derive(Debug, Clone, Copy, PartialEq, Eq, Structural)]
pub struct Empty {}

/// One attached payment: a denomination and an amount of it.
#[derive(Debug, Clone)]
pub struct Coin {
    pub denom: String,
    pub amount: u128,
}

/// The message that creates the contract: the fee a guess must pay and the
/// descriptive fields of the companion NFT collection.
#[derive(Debug, Clone)]
pub struct InstantiateMsg {
    pub owner: String,
    pub guessing_fee: u128,
    pub name: String,
    pub symbol: String,
    pub token_uri: String,
    pub extension: Option<Empty>,
    pub token_code_id: u64,
}

/// The two state-changing calls: the owner mints a commitment, or anyone
/// pays the fee and attempts to reveal one.
#[derive(Debug, Clone)]
pub enum ExecuteMsg {
    CreateNFT { hash: u64, url: String },
    Guess { nft_id: u32, lyrics: String },
}

/// The read-only calls.
#[derive(Debug, Clone, PartialEq, Eq, Structural)]
pub enum QueryMsg {
    GetCount {},
}

/// Answer to [`QueryMsg::GetCount`]: how many token ids have been minted.
#[derive(Debug, Clone, Copy, PartialEq, Eq, Structural)]
pub struct GetCountResponse {
    pub count: u32,
}

/// An outbound request directed at the companion NFT contract. The host
/// executes these after the handler returns; the handler only describes
/// them.
#[derive(Debug, Clone)]
pub enum NftMsg {
    /// Stand up the companion collection, naming this contract as minter.
    InstantiateNft { code_id: u64, name: String, symbol: String, minter: String },
    /// Mint a fresh token for `owner`, pointing at `token_uri`.
    MintNft { token_id: u32, owner: String, token_uri: Option<String>, extension: Option<Empty> },
    /// Move `token_id` to `recipient`.
    TransferNft { recipient: String, token_id: u32 },
}

/// One deferred sub-request handed back to the host, tagged with a reply
/// identifier; when `reply_on_success` is set the host delivers the
/// sub-request's outcome to the reply handler under that identifier.
#[derive(Debug, Clone)]
pub struct SubMsg {
    pub id: u64,
    pub reply_on_success: bool,
    pub msg: NftMsg,
}

/// An observability attribute a handler emits alongside its requests.
#[derive(Debug, Clone)]
pub struct Attribute {
    pub key: String,
    pub value: String,
}

/// What a successful handler hands back to the host: the sub-requests to
/// execute, in order, and the attributes to record.
#[derive(Debug, Clone)]
pub struct Response {
    pub messages: Vec<SubMsg>,
    pub attributes: Vec<Attribute>,
}

impl Response {
    /// A response with no requests and no attributes.
    pub fn empty() -> (r: Response)
        ensures
            r.messages@.len() == 0,
            r.attributes@.len() == 0,
    {
        Response { messages: Vec::new(), attributes: Vec::new() }
    }
}

} // verus!
