use vstd::prelude::*;
use vstd::string::StringExecFns;

use crate::error::{ContractError, PaymentError};
use crate::msg::{
    BalanceOfResponse, ConfigResponse, ExecuteMsg, InstantiateMsg, QueryAnswer, QueryMsg,
};
use crate::numfmt::{bool_str, bool_to_string, dec_str, u128_to_dec_string, u32_to_dec_string};
use crate::payment::{must_pay, pay_ok, Coin};
use crate::reply_data::{parse_instantiate_addr, parsed_instantiate_addr};
use crate::response::{Attribute, Instruction, Response};
use crate::state::{
    bal_bump, bal_lookup, bal_sum, bal_view, bump_balance, clone_extension, ext_eq,
    lemma_bal_bump_lookup, lemma_bal_bump_sum, lemma_bal_bump_wf, lemma_bal_lookup_le_sum,
    lookup_balance, Config, ContractState,
};

verus! {

/// The completion identifier reserved for the token-contract deployment.
pub const INSTANTIATE_TOKEN_REPLY_ID: u64 = 1;

/// The bound address as a mathematical value.
pub open spec fn addr_view(a: Option<String>) -> Option<Seq<char>> {
    match a {
        Option::Some(s) => Option::Some(s@),
        Option::None => Option::None,
    }
}

/// The price at which `denom` is accepted, if either configured pair matches;
/// the first pair takes precedence.
pub open spec fn denom_price(c: Config, denom: Seq<char>) -> Option<u128> {
    if denom == c.denom1@ {
        Option::Some(c.unit_price1)
    } else if denom == c.denom2@ {
        Option::Some(c.unit_price2)
    } else {
        Option::None
    }
}

/// Whether a mint call is accepted: sales active, the denomination
/// configured, the attached payment exactly one coin of it at the configured
/// price, and the token contract linked.
pub open spec fn mint_accepted(s: ContractState, denom: Seq<char>, funds: Seq<Coin>) -> bool {
    &&& !s.mint_pause
    &&& match denom_price(s.config, denom) {
        Option::Some(p) => pay_ok(funds, denom) && funds[0].amount == p,
        Option::None => false,
    }
    &&& s.config.cw721_address is Some
}

/// What the two outbound instructions and four attributes of one successful
/// mint hold: a mint of the current next token to the payer, addressed to the
/// bound token contract, then the payment forwarded to the owner; the
/// token-id attribute shows the counter after it advanced.
pub open spec fn mint_response(c: Config, sender: String, denom: String, price: u128, r: Response) -> bool {
    &&& r.messages@.len() == 2
    &&& (r.messages@[0] matches Instruction::MintToken {
        contract,
        token_id,
        owner,
        token_uri,
        extension,
    } && {
        &&& Option::Some(contract@) == addr_view(c.cw721_address)
        &&& token_id@ == dec_str(c.unused_token_id as nat)
        &&& owner@ == sender@
        &&& token_uri == Option::Some(c.token_uri)
        &&& ext_eq(extension, c.extension)
    })
    &&& (r.messages@[1] matches Instruction::SendFunds { to_address, amount, denom: d } && {
        &&& to_address == c.owner
        &&& amount == price
        &&& d == denom
    })
    &&& r.attributes@.len() == 4
    &&& r.attributes@[0].key@ == "action"@ && r.attributes@[0].value@ == "mint_nft"@
    &&& r.attributes@[1].key@ == "token_id"@ && r.attributes@[1].value@ == dec_str(
        (c.unused_token_id + 1) as nat,
    )
    &&& r.attributes@[2].key@ == "amount"@ && r.attributes@[2].value@ == dec_str(price as nat)
    &&& r.attributes@[3].key@ == "denom"@ && r.attributes@[3].value == denom
}

/// What one accepted mint changes: the payer's balance and the total each
/// rise by one, the token counter advances, nothing else of the state moves,
/// and the response is as `mint_response` says, at the price the payment met.
pub open spec fn mint_success(
    pre: ContractState,
    post: ContractState,
    sender: String,
    denom: String,
    funds: Seq<Coin>,
    res: Result<Response, ContractError>,
) -> bool {
    let c = pre.config;
    &&& post.config.unused_token_id == c.unused_token_id + 1
    &&& post.total_mint == pre.total_mint + 1
    &&& post.config == (Config { unused_token_id: post.config.unused_token_id, ..c })
    &&& post.mint_pause == pre.mint_pause
    &&& bal_view(post.balances@) == bal_bump(bal_view(pre.balances@), sender@)
    &&& (res matches Ok(r) && mint_response(c, sender, denom, funds[0].amount, r))
}

/// Everything one mint call does: which error each rejected call surfaces,
/// that a rejected call changes nothing, and what an accepted call records
/// and instructs.
pub open spec fn mint_post(
    pre: ContractState,
    post: ContractState,
    sender: String,
    denom: String,
    funds: Seq<Coin>,
    res: Result<Response, ContractError>,
) -> bool {
    let c = pre.config;
    &&& (res is Ok <==> mint_accepted(pre, denom@, funds))
    &&& res is Err ==> post == pre
    &&& pre.mint_pause ==> (res matches Err(ContractError::MintPaused))
    &&& !pre.mint_pause && denom_price(c, denom@) is None ==> (res matches Err(
        ContractError::WrongDenom,
    ))
    &&& !pre.mint_pause && denom_price(c, denom@) is Some ==> {
        &&& funds.len() == 0 ==> (res matches Err(
            ContractError::PaymentError(PaymentError::NoFunds),
        ))
        &&& funds.len() == 1 && funds[0].amount == 0 ==> (res matches Err(
            ContractError::PaymentError(PaymentError::NoFunds),
        ))
        &&& funds.len() > 1 ==> (res matches Err(
            ContractError::PaymentError(PaymentError::MultipleDenoms),
        ))
        &&& funds.len() == 1 && funds[0].amount != 0 && funds[0].denom@ != denom@ ==> (res matches
        Err(ContractError::PaymentError(PaymentError::MissingDenom(d))) && d@ == denom@)
        &&& pay_ok(funds, denom@) && Option::Some(funds[0].amount) != denom_price(c, denom@)
            ==> (res matches Err(ContractError::WrongPaymentAmount))
        &&& pay_ok(funds, denom@) && Option::Some(funds[0].amount) == denom_price(c, denom@)
            && c.cw721_address is None ==> (res matches Err(ContractError::Uninitialized))
    }
    &&& mint_accepted(pre, denom@, funds) ==> mint_success(pre, post, sender, denom, funds, res)
}

/// What one pause or resume call does: only the owner may call, the flag is
/// set to the requested value, and the response records it.
pub open spec fn change_status_post(
    pre: ContractState,
    post: ContractState,
    sender: String,
    mint_pause: bool,
    res: Result<Response, ContractError>,
) -> bool {
    &&& (res is Ok <==> sender@ == pre.config.owner@)
    &&& sender@ != pre.config.owner@ ==> (res matches Err(ContractError::NotOwner)) && post == pre
    &&& sender@ == pre.config.owner@ ==> {
        &&& post.mint_pause == mint_pause
        &&& post.config == pre.config
        &&& post.balances == pre.balances
        &&& post.total_mint == pre.total_mint
        &&& (res matches Ok(r) && {
            &&& r.messages@.len() == 0
            &&& r.attributes@.len() == 1
            &&& r.attributes@[0].key@ == "ChangeStatus"@
            &&& r.attributes@[0].value@ == bool_str(mint_pause)
        })
    }
}

/// What one price change does: only the owner may call, and each price is
/// overwritten exactly where a new one was supplied.
pub open spec fn change_price_post(
    pre: ContractState,
    post: ContractState,
    sender: String,
    new_price1: Option<u128>,
    new_price2: Option<u128>,
    res: Result<Response, ContractError>,
) -> bool {
    &&& (res is Ok <==> sender@ == pre.config.owner@)
    &&& sender@ != pre.config.owner@ ==> (res matches Err(ContractError::NotOwner)) && post == pre
    &&& sender@ == pre.config.owner@ ==> {
        &&& post.config.unit_price1 == (match new_price1 {
            Option::Some(p) => p,
            Option::None => pre.config.unit_price1,
        })
        &&& post.config.unit_price2 == (match new_price2 {
            Option::Some(p) => p,
            Option::None => pre.config.unit_price2,
        })
        &&& post.config == (Config {
            unit_price1: post.config.unit_price1,
            unit_price2: post.config.unit_price2,
            ..pre.config
        })
        &&& post.mint_pause == pre.mint_pause
        &&& post.balances == pre.balances
        &&& post.total_mint == pre.total_mint
        &&& (res matches Ok(r) && r.messages@.len() == 0 && r.attributes@.len() == 0)
    }
}

/// What the deployment instruction of a new instance holds.
pub open spec fn deploy_instruction(msg: InstantiateMsg, inst: Instruction) -> bool {
    inst matches Instruction::InstantiateToken {
        code_id,
        name,
        symbol,
        minter,
        withdraw_address,
        label,
        reply_id,
    } && {
        &&& code_id == msg.token_code_id
        &&& name == msg.name
        &&& symbol == msg.symbol
        &&& minter is None
        &&& withdraw_address == msg.withdraw_address
        &&& label@ == "Instantiate fixed price NFT contract"@
        &&& reply_id == INSTANTIATE_TOKEN_REPLY_ID
    }
}

/// What contract creation does: both prices must be positive, the caller
/// becomes the owner, the state starts unlinked with all counters at zero,
/// and one deployment instruction is issued under the reserved completion
/// identifier.
pub open spec fn instantiate_post(
    sender: String,
    msg: InstantiateMsg,
    res: Result<(ContractState, Response), ContractError>,
) -> bool {
    &&& (res is Ok <==> msg.unit_price1 != 0 && msg.unit_price2 != 0)
    &&& (msg.unit_price1 == 0 || msg.unit_price2 == 0) ==> (res matches Err(
        ContractError::InvalidUnitPrice,
    ))
    &&& res is Ok ==> {
        let s = res->Ok_0.0;
        let r = res->Ok_0.1;
        &&& s.wf()
        &&& s.config.owner == sender
        &&& s.config.denom1 == msg.denom1
        &&& s.config.denom2 == msg.denom2
        &&& s.config.unit_price1 == msg.unit_price1
        &&& s.config.unit_price2 == msg.unit_price2
        &&& s.config.unit_price1 > 0
        &&& s.config.unit_price2 > 0
        &&& s.config.cw721_address is None
        &&& s.config.name == msg.name
        &&& s.config.symbol == msg.symbol
        &&& s.config.token_uri == msg.token_uri
        &&& s.config.extension == msg.extension
        &&& s.config.unused_token_id == 0
        &&& !s.mint_pause
        &&& s.balances@.len() == 0
        &&& s.total_mint == 0
        &&& r.messages@.len() == 1
        &&& deploy_instruction(msg, r.messages@[0])
        &&& r.attributes@.len() == 0
    }
}

/// Creates a contract instance: validates the configured prices, lays down
/// the configuration with no token contract bound yet, and issues the
/// deployment instruction whose completion signal will bind one.
pub fn instantiate(sender: String, msg: InstantiateMsg) -> (res: Result<
    (ContractState, Response),
    ContractError,
>)
    ensures
        instantiate_post(sender, msg, res),
{
    if msg.unit_price1 == 0 {
        return Err(ContractError::InvalidUnitPrice);
    }
    if msg.unit_price2 == 0 {
        return Err(ContractError::InvalidUnitPrice);
    }
    let config = Config {
        owner: sender,
        denom1: msg.denom1,
        denom2: msg.denom2,
        cw721_address: Option::None,
        unit_price1: msg.unit_price1,
        unit_price2: msg.unit_price2,
        name: msg.name.clone(),
        symbol: msg.symbol.clone(),
        token_uri: msg.token_uri,
        extension: msg.extension,
        unused_token_id: 0,
    };
    let state = ContractState { config, mint_pause: false, balances: Vec::new(), total_mint: 0 };
    proof {
        assert(bal_view(state.balances@) =~= Seq::<(Seq<char>, u128)>::empty());
    }
    let deploy = Instruction::InstantiateToken {
        code_id: msg.token_code_id,
        name: msg.name,
        symbol: msg.symbol,
        minter: Option::None,
        withdraw_address: msg.withdraw_address,
        label: String::from_str("Instantiate fixed price NFT contract"),
        reply_id: INSTANTIATE_TOKEN_REPLY_ID,
    };
    let mut messages: Vec<Instruction> = Vec::new();
    messages.push(deploy);
    Ok((state, Response { messages, attributes: Vec::new() }))
}

/// The bound address after one completion signal: an already bound address
/// stands; an unexpected identifier or a malformed payload binds nothing.
pub open spec fn linkage_after(linked: Option<Seq<char>>, id: u64, payload: Seq<u8>) -> Option<
    Seq<char>,
> {
    if linked is Some {
        linked
    } else if id != INSTANTIATE_TOKEN_REPLY_ID {
        Option::None
    } else {
        parsed_instantiate_addr(payload)
    }
}

/// Whether one completion signal is accepted: nothing bound yet, the reserved
/// identifier, and a payload that decodes to an address.
pub open spec fn linkage_accepted(linked: Option<Seq<char>>, id: u64, payload: Seq<u8>) -> bool {
    &&& linked is None
    &&& id == INSTANTIATE_TOKEN_REPLY_ID
    &&& parsed_instantiate_addr(payload) is Some
}

/// What one completion signal does: a second completion is rejected with the
/// address unchanged, a wrong identifier or malformed payload is rejected,
/// and an accepted signal binds the decoded address and nothing else.
pub open spec fn reply_post(
    pre: ContractState,
    post: ContractState,
    id: u64,
    payload: Seq<u8>,
    res: Result<Response, ContractError>,
) -> bool {
    let linked = addr_view(pre.config.cw721_address);
    &&& (res is Ok <==> linkage_accepted(linked, id, payload))
    &&& res is Err ==> post == pre
    &&& pre.config.cw721_address is Some ==> (res matches Err(ContractError::Cw721AlreadyLinked))
    &&& pre.config.cw721_address is None && id != INSTANTIATE_TOKEN_REPLY_ID ==> (res matches Err(
        ContractError::InvalidTokenReplyId,
    ))
    &&& pre.config.cw721_address is None && id == INSTANTIATE_TOKEN_REPLY_ID
        && parsed_instantiate_addr(payload) is None ==> (res matches Err(
        ContractError::InvalidReplyData,
    ))
    &&& addr_view(post.config.cw721_address) == linkage_after(linked, id, payload)
    &&& res is Ok ==> {
        &&& post.config == (Config { cw721_address: post.config.cw721_address, ..pre.config })
        &&& post.mint_pause == pre.mint_pause
        &&& post.balances == pre.balances
        &&& post.total_mint == pre.total_mint
        &&& (res matches Ok(r) && r.messages@.len() == 0 && r.attributes@.len() == 0)
    }
}

/// Records the deployed token contract's address: the linkage step proper.
/// Callers must have checked that no address is bound yet.
pub fn bind_token_address(state: &mut ContractState, addr: String)
    requires
        old(state).config.cw721_address is None,
    ensures
        final(state).config == (Config {
            cw721_address: Option::Some(addr),
            ..old(state).config
        }),
        final(state).mint_pause == old(state).mint_pause,
        final(state).balances == old(state).balances,
        final(state).total_mint == old(state).total_mint,
{
    state.config.cw721_address = Option::Some(addr);
}

/// Handles the deployment-completion signal: decodes the deployed address
/// from the payload and binds it, exactly once per instance.
pub fn reply(state: &mut ContractState, id: u64, payload: &Vec<u8>) -> (res: Result<
    Response,
    ContractError,
>)
    ensures
        reply_post(*old(state), *final(state), id, payload@, res),
        old(state).wf() ==> final(state).wf(),
{
    if state.config.cw721_address.is_some() {
        return Err(ContractError::Cw721AlreadyLinked);
    }
    if id != INSTANTIATE_TOKEN_REPLY_ID {
        return Err(ContractError::InvalidTokenReplyId);
    }
    match parse_instantiate_addr(payload) {
        Option::Some(addr) => {
            bind_token_address(state, addr);
            Ok(Response::new())
        },
        Option::None => Err(ContractError::InvalidReplyData),
    }
}

/// Sells one mint: validates pause state, denomination, payment and linkage,
/// then records the mint and instructs the token contract and the transfer of
/// the proceeds to the owner.
pub fn execute_mint(
    state: &mut ContractState,
    sender: String,
    funds: &Vec<Coin>,
    denom: String,
) -> (res: Result<Response, ContractError>)
    requires
        old(state).wf(),
        old(state).config.unused_token_id < u32::MAX,
    ensures
        mint_post(*old(state), *final(state), sender, denom, funds@, res),
        final(state).wf(),
{
    if state.mint_pause {
        return Err(ContractError::MintPaused);
    }
    let price: u128;
    if denom == state.config.denom1 {
        price = state.config.unit_price1;
    } else if denom == state.config.denom2 {
        price = state.config.unit_price2;
    } else {
        return Err(ContractError::WrongDenom);
    }
    proof {
        assert(denom_price(state.config, denom@) == Option::Some(price));
    }
    let amount: u128 = match must_pay(funds, &denom) {
        Ok(a) => a,
        Err(e) => {
            return Err(ContractError::PaymentError(e));
        },
    };
    if amount != price {
        return Err(ContractError::WrongPaymentAmount);
    }
    let cw721: String = match &state.config.cw721_address {
        Option::Some(a) => a.clone(),
        Option::None => {
            return Err(ContractError::Uninitialized);
        },
    };
    let ghost pre_bal = bal_view(state.balances@);
    proof {
        lemma_bal_lookup_le_sum(pre_bal, sender@);
        lemma_bal_bump_sum(pre_bal, sender@);
        lemma_bal_bump_wf(pre_bal, sender@);
    }
    bump_balance(&mut state.balances, &sender);
    let token_id = u32_to_dec_string(state.config.unused_token_id);
    let owner = sender.clone();
    let token_uri = Option::Some(state.config.token_uri.clone());
    let extension = clone_extension(&state.config.extension);
    let mint_inst = Instruction::MintToken { contract: cw721, token_id, owner, token_uri, extension };
    let send_inst = Instruction::SendFunds {
        to_address: state.config.owner.clone(),
        amount,
        denom: denom.clone(),
    };
    state.config.unused_token_id = state.config.unused_token_id + 1;
    state.total_mint = state.total_mint + 1;
    let attr_token_id = u32_to_dec_string(state.config.unused_token_id);
    let attr_amount = u128_to_dec_string(amount);
    let mut messages: Vec<Instruction> = Vec::new();
    messages.push(mint_inst);
    messages.push(send_inst);
    let mut attributes: Vec<Attribute> = Vec::new();
    attributes.push(Attribute { key: String::from_str("action"), value: String::from_str("mint_nft") });
    attributes.push(Attribute { key: String::from_str("token_id"), value: attr_token_id });
    attributes.push(Attribute { key: String::from_str("amount"), value: attr_amount });
    attributes.push(Attribute { key: String::from_str("denom"), value: denom });
    Ok(Response { messages, attributes })
}

/// Pauses or resumes sales; only the owner may call.
pub fn execute_change_status(state: &mut ContractState, sender: String, mint_pause: bool) -> (res:
    Result<Response, ContractError>)
    ensures
        change_status_post(*old(state), *final(state), sender, mint_pause, res),
        old(state).wf() ==> final(state).wf(),
{
    if !(sender == state.config.owner) {
        return Err(ContractError::NotOwner);
    }
    state.mint_pause = mint_pause;
    let mut attributes: Vec<Attribute> = Vec::new();
    attributes.push(Attribute {
        key: String::from_str("ChangeStatus"),
        value: bool_to_string(mint_pause),
    });
    Ok(Response { messages: Vec::new(), attributes })
}

/// Overwrites either configured price where a new one is supplied; only the
/// owner may call.
pub fn execute_change_price(
    state: &mut ContractState,
    sender: String,
    new_price1: Option<u128>,
    new_price2: Option<u128>,
) -> (res: Result<Response, ContractError>)
    ensures
        change_price_post(*old(state), *final(state), sender, new_price1, new_price2, res),
        old(state).wf() ==> final(state).wf(),
{
    if !(sender == state.config.owner) {
        return Err(ContractError::NotOwner);
    }
    match new_price1 {
        Option::Some(p) => {
            state.config.unit_price1 = p;
        },
        Option::None => {},
    }
    match new_price2 {
        Option::Some(p) => {
            state.config.unit_price2 = p;
        },
        Option::None => {},
    }
    Ok(Response::new())
}

/// Dispatches one execute call to the operation it requests.
pub fn execute(
    state: &mut ContractState,
    sender: String,
    funds: &Vec<Coin>,
    msg: ExecuteMsg,
) -> (res: Result<Response, ContractError>)
    requires
        old(state).wf(),
        (msg matches ExecuteMsg::Mint { .. }) ==> old(state).config.unused_token_id < u32::MAX,
    ensures
        final(state).wf(),
        (match msg {
            ExecuteMsg::Mint { denom } => mint_post(
                *old(state),
                *final(state),
                sender,
                denom,
                funds@,
                res,
            ),
            ExecuteMsg::ChangeStatus { mint_pause } => change_status_post(
                *old(state),
                *final(state),
                sender,
                mint_pause,
                res,
            ),
            ExecuteMsg::ChangePrice { new_price1, new_price2 } => change_price_post(
                *old(state),
                *final(state),
                sender,
                new_price1,
                new_price2,
                res,
            ),
        }),
{
    match msg {
        ExecuteMsg::Mint { denom } => execute_mint(state, sender, funds, denom),
        ExecuteMsg::ChangeStatus { mint_pause } => execute_change_status(state, sender, mint_pause),
        ExecuteMsg::ChangePrice { new_price1, new_price2 } => execute_change_price(
            state,
            sender,
            new_price1,
            new_price2,
        ),
    }
}

/// What the configuration report contains, field for field.
pub open spec fn config_reported(s: ContractState, r: ConfigResponse) -> bool {
    &&& r.owner == s.config.owner
    &&& r.cw721_address == s.config.cw721_address
    &&& r.denom1 == s.config.denom1
    &&& r.denom2 == s.config.denom2
    &&& r.unit_price1 == s.config.unit_price1
    &&& r.uint_price2 == s.config.unit_price2
    &&& r.name == s.config.name
    &&& r.symbol == s.config.symbol
    &&& r.token_uri == s.config.token_uri
    &&& r.total_mint == s.total_mint
    &&& ext_eq(r.extension, s.config.extension)
    &&& r.unused_token_id == s.config.unused_token_id
}

fn clone_opt_string(o: &Option<String>) -> (r: Option<String>)
    ensures
        r == *o,
{
    match o {
        Option::Some(s) => Option::Some(s.clone()),
        Option::None => Option::None,
    }
}

/// Reports the whole configuration, the total mint count included.
pub fn query_config(state: &ContractState) -> (r: ConfigResponse)
    ensures
        config_reported(*state, r),
{
    ConfigResponse {
        owner: state.config.owner.clone(),
        cw721_address: clone_opt_string(&state.config.cw721_address),
        denom1: state.config.denom1.clone(),
        denom2: state.config.denom2.clone(),
        unit_price1: state.config.unit_price1,
        uint_price2: state.config.unit_price2,
        name: state.config.name.clone(),
        symbol: state.config.symbol.clone(),
        token_uri: state.config.token_uri.clone(),
        total_mint: state.total_mint,
        extension: clone_extension(&state.config.extension),
        unused_token_id: state.config.unused_token_id,
    }
}

/// Reports one buyer's mint count, zero if the buyer never minted.
pub fn quere_balance(state: &ContractState, user: &String) -> (r: BalanceOfResponse)
    ensures
        r.balance == bal_lookup(bal_view(state.balances@), user@),
{
    BalanceOfResponse { balance: lookup_balance(&state.balances, user) }
}

/// Answers one read-only query.
pub fn query(state: &ContractState, msg: QueryMsg) -> (r: QueryAnswer)
    ensures
        (msg matches QueryMsg::GetConfig {}) ==> (r matches QueryAnswer::Config(c)
            && config_reported(*state, c)),
        (msg matches QueryMsg::BalanceOf { user } ==> (r matches QueryAnswer::Balance(b)
            && b.balance == bal_lookup(bal_view(state.balances@), user@))),
{
    match msg {
        QueryMsg::GetConfig {} => QueryAnswer::Config(query_config(state)),
        QueryMsg::BalanceOf { user } => QueryAnswer::Balance(quere_balance(state, &user)),
    }
}

/// Law: a completion signal is accepted at most once per instance. After one
/// is accepted, every further signal is rejected, whatever its identifier and
/// payload, and the bound address stands unchanged.
pub proof fn lemma_linkage_exactly_once(
    linked: Option<Seq<char>>,
    id1: u64,
    p1: Seq<u8>,
    id2: u64,
    p2: Seq<u8>,
)
    requires
        linkage_accepted(linked, id1, p1),
    ensures
        linkage_after(linked, id1, p1) is Some,
        !linkage_accepted(linkage_after(linked, id1, p1), id2, p2),
        linkage_after(linkage_after(linked, id1, p1), id2, p2) == linkage_after(linked, id1, p1),
{
}

/// Law: one accepted mint raises the payer's balance and the total mint count
/// by exactly one, leaves every other balance alone, and keeps the total
/// equal to the sum of all balances.
pub proof fn lemma_mint_accounting(
    pre: ContractState,
    post: ContractState,
    sender: String,
    denom: String,
    funds: Seq<Coin>,
    res: Result<Response, ContractError>,
)
    requires
        pre.wf(),
        mint_post(pre, post, sender, denom, funds, res),
        res is Ok,
    ensures
        post.total_mint == pre.total_mint + 1,
        bal_sum(bal_view(post.balances@)) == bal_sum(bal_view(pre.balances@)) + 1,
        bal_sum(bal_view(post.balances@)) == post.total_mint as int,
        bal_lookup(bal_view(post.balances@), sender@) == bal_lookup(bal_view(pre.balances@), sender@) + 1,
        forall|v: Seq<char>| v != sender@ ==> bal_lookup(bal_view(post.balances@), v) == bal_lookup(
            bal_view(pre.balances@),
            v,
        ),
{
    lemma_bal_lookup_le_sum(bal_view(pre.balances@), sender@);
    lemma_bal_bump_sum(bal_view(pre.balances@), sender@);
    lemma_bal_bump_lookup(bal_view(pre.balances@), sender@);
}

} // verus!
