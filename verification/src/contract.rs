use vstd::prelude::*;
use crate::error::ContractError;
use crate::hash::{hash_lyrics, lyrics_digest};
use crate::msg::{
    Attribute, Coin, ExecuteMsg, GetCountResponse, InstantiateMsg, NftMsg, QueryMsg, Response,
    SubMsg,
};
use crate::state::Config;

verus! {

broadcast use vstd::std_specs::hash::group_hash_axioms;

/// The reply identifier under which the host delivers the outcome of the
/// companion contract's creation; the only identifier this contract issues.
pub const INSTANTIATE_TOKEN_REPLY_ID: u64 = 1;

/// The required denomination, as a character sequence.
pub open spec fn spec_denom() -> Seq<char> {
    "udenom"@
}

/// Creates the configuration record and describes the one deferred request
/// that stands up the companion NFT contract, with this contract
/// (`contract_address`) as its sole minter. The caller (`sender`) becomes
/// the owner; no commitment exists yet and no companion address is recorded
/// until the creation callback arrives.
pub fn instantiate(contract_address: String, sender: String, msg: InstantiateMsg) -> (r: (
    Config,
    Response,
))
    ensures
        r.0.owner == sender,
        r.0.cw721_address is None,
        r.0.nft_ids@ == Map::<u32, u64>::empty(),
        r.0.guessing_fee == msg.guessing_fee,
        r.0.name == msg.name,
        r.0.symbol == msg.symbol,
        r.0.token_uri == msg.token_uri,
        r.0.extension == msg.extension,
        r.0.next_available_token_id == 0,
        r.0.wf(),
        r.1.messages@.len() == 1,
        r.1.messages@[0].id == INSTANTIATE_TOKEN_REPLY_ID,
        r.1.messages@[0].reply_on_success,
        r.1.messages@[0].msg == (NftMsg::InstantiateNft {
            code_id: msg.token_code_id,
            name: msg.name,
            symbol: msg.symbol,
            minter: contract_address,
        }),
        r.1.attributes@.len() == 0,
{
    let config = Config {
        cw721_address: None,
        owner: sender,
        nft_ids: std::collections::HashMap::new(),
        guessing_fee: msg.guessing_fee,
        name: msg.name.clone(),
        symbol: msg.symbol.clone(),
        token_uri: msg.token_uri,
        extension: msg.extension,
        next_available_token_id: 0,
    };
    let sub = SubMsg {
        id: INSTANTIATE_TOKEN_REPLY_ID,
        reply_on_success: true,
        msg: NftMsg::InstantiateNft {
            code_id: msg.token_code_id,
            name: msg.name,
            symbol: msg.symbol,
            minter: contract_address,
        },
    };
    let mut messages: Vec<SubMsg> = Vec::new();
    messages.push(sub);
    (config, Response { messages, attributes: Vec::new() })
}

/// What `cw_utils::parse_instantiate_response_data` extracts from a
/// protobuf-encoded instantiation response: the new contract's address, or
/// nothing when the bytes do not decode.
pub uninterp spec fn parsed_instantiate_address(data: Seq<u8>) -> Option<Seq<char>>;

/// Relies on `cw_utils::parse_instantiate_response_data`: the decode is a
/// pure function of the bytes, and the address field of a decoded response
/// is the created contract's address.
#[verifier::external_body]
fn parse_instantiate_address(data: &[u8]) -> (r: Option<String>)
    ensures
        match r {
            Some(addr) => parsed_instantiate_address(data@) == Some(addr@),
            None => parsed_instantiate_address(data@) is None,
        },
{
    match cw_utils::parse_instantiate_response_data(data) {
        Ok(resp) => Some(resp.contract_address),
        Err(_) => None,
    }
}

/// The immutable part of the record: everything a creation callback leaves
/// alone.
pub open spec fn same_but_linked(pre: Config, post: Config) -> bool {
    &&& post.nft_ids@ == pre.nft_ids@
    &&& post.owner == pre.owner
    &&& post.guessing_fee == pre.guessing_fee
    &&& post.name == pre.name
    &&& post.symbol == pre.symbol
    &&& post.token_uri == pre.token_uri
    &&& post.extension == pre.extension
    &&& post.next_available_token_id == pre.next_available_token_id
}

/// The outcome of a creation callback: a callback under any identifier this
/// contract never issued is refused; the expected identifier is accepted
/// only while no companion address is recorded yet, and then only when its
/// payload decodes to an address.
pub open spec fn reply_outcome(linked: bool, id: u64, data: Seq<u8>) -> Result<
    Seq<char>,
    ContractError,
> {
    if id != INSTANTIATE_TOKEN_REPLY_ID {
        Err(ContractError::UnknownReplyId { reply_id: id })
    } else if linked {
        Err(ContractError::NFTContractALreadyLinked {})
    } else {
        match parsed_instantiate_address(data) {
            Some(addr) => Ok(addr),
            None => Err(ContractError::Std {}),
        }
    }
}

/// Receives the host's callback for a deferred sub-request: `id` is the
/// reply identifier, `data` the sub-response payload. On the one expected
/// identifier, records the created companion contract's address, exactly
/// once; every failure leaves the record untouched, and the host then rolls
/// the whole instantiation back.
pub fn reply(config: &mut Config, id: u64, data: &[u8]) -> (r: Result<Response, ContractError>)
    ensures
        match reply_outcome(old(config).cw721_address is Some, id, data@) {
            Ok(addr) => {
                &&& r matches Ok(resp)
                &&& resp.messages@.len() == 0
                &&& resp.attributes@.len() == 0
                &&& final(config).cw721_address matches Some(a) && a@ == addr
                &&& same_but_linked(*old(config), *final(config))
            },
            Err(e) => r == Err::<Response, ContractError>(e) && *final(config) == *old(config),
        },
        old(config).wf() ==> final(config).wf(),
{
    if id != INSTANTIATE_TOKEN_REPLY_ID {
        return Err(ContractError::UnknownReplyId { reply_id: id });
    }
    if config.cw721_address.is_some() {
        return Err(ContractError::NFTContractALreadyLinked {});
    }
    match parse_instantiate_address(data) {
        Some(addr) => {
            config.cw721_address = Some(addr);
            Ok(Response::empty())
        },
        None => Err(ContractError::Std {}),
    }
}

/// The reply handler accepts the expected identifier exactly once: while no
/// companion address is recorded it accepts the expected identifier whenever
/// the payload decodes; once an address is recorded, a second delivery under
/// the same identifier is refused as already linked; a delivery under any
/// other identifier is refused as unknown, whatever the state.
pub proof fn lemma_reply_exactly_once(linked: bool, id: u64, data: Seq<u8>, data2: Seq<u8>)
    ensures
        reply_outcome(false, INSTANTIATE_TOKEN_REPLY_ID, data) is Ok <==> parsed_instantiate_address(
            data,
        ) is Some,
        reply_outcome(true, INSTANTIATE_TOKEN_REPLY_ID, data2) == Err::<Seq<char>, ContractError>(
            ContractError::NFTContractALreadyLinked {},
        ),
        id != INSTANTIATE_TOKEN_REPLY_ID ==> reply_outcome(linked, id, data) == Err::<
            Seq<char>,
            ContractError,
        >(ContractError::UnknownReplyId { reply_id: id }),
{
}

/// Everything a mint leaves alone.
pub open spec fn same_but_minted(pre: Config, post: Config) -> bool {
    &&& post.owner == pre.owner
    &&& post.cw721_address == pre.cw721_address
    &&& post.guessing_fee == pre.guessing_fee
    &&& post.name == pre.name
    &&& post.symbol == pre.symbol
    &&& post.token_uri == pre.token_uri
    &&& post.extension == pre.extension
}

/// How a mint changes the record: the digest is stored under the id the
/// counter held before the call, the counter advances by exactly one, and
/// nothing else moves.
pub open spec fn minted(pre: Config, post: Config, hash: u64) -> bool {
    &&& post.nft_ids@ == pre.nft_ids@.insert(pre.next_available_token_id, hash)
    &&& post.next_available_token_id == pre.next_available_token_id + 1
    &&& same_but_minted(pre, post)
}

/// The response of a successful mint: one mint request for the id the
/// counter held before the call — the same id the commitment was stored
/// under — naming the caller as the token's owner, and the action attribute.
pub open spec fn mint_response(resp: Response, pre: Config, sender: String, url: String) -> bool {
    &&& resp.messages@.len() == 1
    &&& !resp.messages@[0].reply_on_success
    &&& resp.messages@[0].msg == (NftMsg::MintNft {
        token_id: pre.next_available_token_id,
        owner: sender,
        token_uri: Some(url),
        extension: pre.extension,
    })
    &&& resp.attributes@.len() == 1
    &&& resp.attributes@[0].key@ == "action"@
    &&& resp.attributes@[0].value@ == "create_nft"@
}

/// A mint on a well-formed record adds exactly one new commitment: the id
/// the counter held before the call is fresh, every other entry is kept
/// unchanged, and the count grows by one.
pub proof fn lemma_mint_adds_one(pre: Config, post: Config, hash: u64)
    requires
        pre.wf(),
        minted(pre, post, hash),
    ensures
        !pre.nft_ids@.dom().contains(pre.next_available_token_id),
        post.nft_ids@.len() == pre.nft_ids@.len() + 1,
        post.nft_ids@[pre.next_available_token_id] == hash,
        forall|k: u32|
            k != pre.next_available_token_id ==> post.nft_ids@.dom().contains(k)
                == pre.nft_ids@.dom().contains(k),
        forall|k: u32|
            pre.nft_ids@.dom().contains(k) ==> post.nft_ids@[k] == pre.nft_ids@[k],
{
    broadcast use vstd::std_specs::hash::axiom_hashmap_view_finite_dom;

    assert(post.nft_ids@.dom() =~= pre.nft_ids@.dom().insert(pre.next_available_token_id));
}

/// Mints a commitment: only the owner may call; the commitment digest
/// `hash` is stored under the id the counter held before the call, the
/// counter advances by exactly one, and a mint request for that same id is
/// handed back, naming the caller as the token's owner and `url` as its
/// metadata pointer.
pub fn create_nft(config: &mut Config, sender: String, hash: u64, url: String) -> (r: Result<
    Response,
    ContractError,
>)
    requires
        old(config).next_available_token_id < u32::MAX,
    ensures
        r is Err <==> old(config).owner@ != sender@,
        r is Err ==> r == Err::<Response, ContractError>(ContractError::Unauthorized {})
            && *final(config) == *old(config),
        r matches Ok(resp) ==> minted(*old(config), *final(config), hash) && mint_response(
            resp,
            *old(config),
            sender,
            url,
        ),
        old(config).wf() ==> final(config).wf(),
{
    if config.owner != sender {
        return Err(ContractError::Unauthorized {});
    }
    let token_id = config.next_available_token_id;
    config.nft_ids.insert(token_id, hash);
    config.next_available_token_id = token_id + 1;

    let mint = SubMsg {
        id: 0,
        reply_on_success: false,
        msg: NftMsg::MintNft {
            token_id,
            owner: sender,
            token_uri: Some(url),
            extension: config.extension,
        },
    };
    let mut messages: Vec<SubMsg> = Vec::new();
    messages.push(mint);
    let mut attributes: Vec<Attribute> = Vec::new();
    attributes.push(
        Attribute { key: "action".to_owned(), value: "create_nft".to_owned() },
    );
    Ok(Response { messages, attributes })
}

/// Whether an attached payment satisfies the fee: exactly one entry, in the
/// required denomination, of at least `fee`.
pub open spec fn valid_funds(fee: u128, funds: Seq<Coin>) -> bool {
    &&& funds.len() == 1
    &&& funds[0].denom@ == spec_denom()
    &&& funds[0].amount >= fee
}

/// The outcome of a guess, checked in order: the payment first, then the
/// existence of the commitment, then the digest of the guessed lyrics
/// against the stored one.
pub open spec fn guess_outcome(
    c: Config,
    funds: Seq<Coin>,
    nft_id: u32,
    lyrics: Seq<char>,
) -> Result<(), ContractError> {
    if !valid_funds(c.guessing_fee, funds) {
        Err(ContractError::InvalidFunds {})
    } else if !c.nft_ids@.dom().contains(nft_id) {
        Err(ContractError::NFTNotFound {})
    } else if c.nft_ids@[nft_id] != lyrics_digest(lyrics) {
        Err(ContractError::IncorrectLyrics {})
    } else {
        Ok(())
    }
}

/// The response of a successful guess: one transfer request moving the
/// guessed token to the caller, and the action attribute.
pub open spec fn transfer_response(resp: Response, sender: String, nft_id: u32) -> bool {
    &&& resp.messages@.len() == 1
    &&& !resp.messages@[0].reply_on_success
    &&& resp.messages@[0].msg == (NftMsg::TransferNft { recipient: sender, token_id: nft_id })
    &&& resp.attributes@.len() == 1
    &&& resp.attributes@[0].key@ == "action"@
    &&& resp.attributes@[0].value@ == "guess"@
}

/// Attempts to reveal the commitment of `nft_id`: the caller pays the fee
/// and submits candidate lyrics. The record is never changed; on the one
/// successful outcome — valid payment, existing id, matching digest — a
/// transfer request naming the caller as recipient is handed back.
pub fn guess(config: &Config, sender: String, funds: Vec<Coin>, nft_id: u32, lyrics: String) -> (r:
    Result<Response, ContractError>)
    ensures
        match r {
            Ok(resp) => guess_outcome(*config, funds@, nft_id, lyrics@) is Ok
                && transfer_response(resp, sender, nft_id),
            Err(e) => guess_outcome(*config, funds@, nft_id, lyrics@) == Err::<(), ContractError>(
                e,
            ),
        },
{
    if funds.len() != 1 {
        return Err(ContractError::InvalidFunds {});
    }
    if funds[0].denom != "udenom".to_owned() {
        return Err(ContractError::InvalidFunds {});
    }
    if funds[0].amount < config.guessing_fee {
        return Err(ContractError::InvalidFunds {});
    }

    let stored: u64 = match config.nft_ids.get(&nft_id) {
        Some(h) => *h,
        None => {
            return Err(ContractError::NFTNotFound {});
        },
    };

    let candidate = hash_lyrics(lyrics.as_str());
    if stored != candidate {
        return Err(ContractError::IncorrectLyrics {});
    }

    let transfer = SubMsg {
        id: 0,
        reply_on_success: false,
        msg: NftMsg::TransferNft { recipient: sender, token_id: nft_id },
    };
    let mut messages: Vec<SubMsg> = Vec::new();
    messages.push(transfer);
    let mut attributes: Vec<Attribute> = Vec::new();
    attributes.push(Attribute { key: "action".to_owned(), value: "guess".to_owned() });
    Ok(Response { messages, attributes })
}

/// Routes a state-changing call to its handler: a mint to [`create_nft`],
/// a reveal attempt to [`guess`].
pub fn execute(config: &mut Config, sender: String, funds: Vec<Coin>, msg: ExecuteMsg) -> (r:
    Result<Response, ContractError>)
    requires
        msg matches ExecuteMsg::CreateNFT { .. } ==> old(config).next_available_token_id
            < u32::MAX,
    ensures
        old(config).wf() ==> final(config).wf(),
        match msg {
            ExecuteMsg::CreateNFT { hash, url } => {
                &&& r is Err <==> old(config).owner@ != sender@
                &&& r is Err ==> r == Err::<Response, ContractError>(ContractError::Unauthorized {})
                    && *final(config) == *old(config)
                &&& r matches Ok(resp) ==> minted(*old(config), *final(config), hash)
                    && mint_response(resp, *old(config), sender, url)
            },
            ExecuteMsg::Guess { nft_id, lyrics } => {
                &&& *final(config) == *old(config)
                &&& match r {
                    Ok(resp) => guess_outcome(*old(config), funds@, nft_id, lyrics@) is Ok
                        && transfer_response(resp, sender, nft_id),
                    Err(e) => guess_outcome(*old(config), funds@, nft_id, lyrics@) == Err::<
                        (),
                        ContractError,
                    >(e),
                }
            },
        },
{
    match msg {
        ExecuteMsg::CreateNFT { hash, url } => create_nft(config, sender, hash, url),
        ExecuteMsg::Guess { nft_id, lyrics } => guess(config, sender, funds, nft_id, lyrics),
    }
}

/// Reports how many token ids have been minted: the counter's current
/// value, which every minted id lies strictly below.
pub fn count(config: &Config) -> (r: GetCountResponse)
    ensures
        r.count == config.next_available_token_id,
{
    GetCountResponse { count: config.next_available_token_id }
}

/// Answers a read-only call; never touches the record.
pub fn query(config: &Config, msg: QueryMsg) -> (r: GetCountResponse)
    ensures
        r.count == config.next_available_token_id,
{
    match msg {
        QueryMsg::GetCount {} => count(config),
    }
}

} // verus!
