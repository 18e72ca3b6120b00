//! The transition engine: one constructor-like operation, four mutating
//! operations and three read-only queries against the single agreement
//! record. Each operation's full behaviour — when it succeeds, what it
//! persists, what it emits — is stated by an outcome predicate.

use vstd::prelude::*;
use vstd::string::StringExecFns;
use crate::error::{ContractError, StdError};
use crate::msg::{
    AddressResponse,
    CostResponse,
    Env,
    ExecuteMsg,
    InstantiateMsg,
    MessageInfo,
    OwnerResponse,
    QueryAnswer,
    QueryMsg,
};
use crate::response::{AttributeView, BankMsg, BankMsgView, Response, ResponseView};
use crate::state::{Coin, CoinView, State, StateView, coins_view};
use crate::store::Store;

verus! {

/// Does some attached coin meet `required`: same denomination, and at least
/// the required amount?
pub open spec fn spec_has_coin(funds: Seq<CoinView>, required: CoinView) -> bool {
    exists|j: int|
        0 <= j < funds.len() && funds[j].denom == required.denom && funds[j].amount
            >= required.amount
}

/// The covering check of a payment: every (denomination, amount) pair of the
/// price is met by some attached coin. A superset is accepted; an exact match
/// is not demanded.
pub open spec fn spec_covers(funds: Seq<CoinView>, required: Seq<CoinView>) -> bool {
    forall|i: int| 0 <= i < required.len() ==> spec_has_coin(funds, required[i])
}

/// Whether `funds` holds a coin of the same denomination as `required` with
/// at least its amount.
pub fn has_coins(funds: &Vec<Coin>, required: &Coin) -> (r: bool)
    ensures
        r == spec_has_coin(coins_view(funds@), required@),
{
    let mut i: usize = 0;
    while i < funds.len()
        invariant
            i <= funds.len(),
            forall|j: int|
                0 <= j < i ==> !(coins_view(funds@)[j].denom == required@.denom && coins_view(
                    funds@,
                )[j].amount >= required@.amount),
        decreases funds.len() - i,
    {
        if funds[i].denom == required.denom && funds[i].amount >= required.amount {
            assert(coins_view(funds@)[i as int].denom == required@.denom && coins_view(
                funds@,
            )[i as int].amount >= required@.amount);
            return true;
        }
        assert(coins_view(funds@)[i as int] == funds@[i as int]@);
        i = i + 1;
    }
    false
}

/// Whether `funds` covers every coin of `required`.
pub fn covers(funds: &Vec<Coin>, required: &Vec<Coin>) -> (r: bool)
    ensures
        r == spec_covers(coins_view(funds@), coins_view(required@)),
{
    let mut i: usize = 0;
    while i < required.len()
        invariant
            i <= required.len(),
            forall|k: int|
                0 <= k < i ==> spec_has_coin(coins_view(funds@), coins_view(required@)[k]),
        decreases required.len() - i,
    {
        if !has_coins(funds, &required[i]) {
            assert(!spec_has_coin(coins_view(funds@), coins_view(required@)[i as int]));
            return false;
        }
        assert(spec_has_coin(coins_view(funds@), coins_view(required@)[i as int]));
        i = i + 1;
    }
    true
}

/// The one metadata pair every mutating operation but `ChangeRent` emits.
pub open spec fn method_attr(m: Seq<char>) -> AttributeView {
    AttributeView { key: "method"@, value: m }
}

/// The failure of any transition attempted before instantiation.
pub open spec fn not_instantiated(r: Result<Response, ContractError>) -> bool {
    r == Err::<Response, ContractError>(ContractError::Std(StdError::NotFound {  }))
}

/// Everything `instantiate` does: the record persisted afterwards holds
/// exactly the requested address, price and display name, the caller as
/// owner, and an empty roster — whatever roster the request supplied — and
/// the call succeeds with three metadata pairs and no effect.
pub open spec fn instantiate_outcome(
    post: Option<StateView>,
    sender: Seq<char>,
    msg: InstantiateMsg,
    r: Result<Response, ContractError>,
) -> bool {
    &&& post == Some(
        StateView {
            address: msg.address@,
            rentcost: coins_view(msg.rentcost@),
            renters: Seq::<Seq<char>>::empty(),
            ownername: msg.ownername@,
            owner: sender,
        },
    )
    &&& r matches Ok(resp) && resp@ == (ResponseView {
        attributes: seq![
            method_attr("instantiate"@),
            AttributeView { key: "owner"@, value: sender },
            AttributeView { key: "address"@, value: msg.address@ },
        ],
        messages: Seq::<BankMsgView>::empty(),
    })
}

/// Everything `try_add` does: on a live record it appends the contract's own
/// address — not the sender — to the roster, leaves every other field alone,
/// and succeeds for any caller; before instantiation it fails.
pub open spec fn add_outcome(
    pre: Option<StateView>,
    post: Option<StateView>,
    contract: Seq<char>,
    r: Result<Response, ContractError>,
) -> bool {
    match pre {
        None => post == pre && not_instantiated(r),
        Some(s) => {
            &&& post == Some(StateView { renters: s.renters.push(contract), ..s })
            &&& r matches Ok(resp) && resp@ == (ResponseView {
                attributes: seq![method_attr("try_add"@)],
                messages: Seq::<BankMsgView>::empty(),
            })
        },
    }
}

/// Everything `try_pay` does: it never alters the record and never rejects a
/// live contract; when the attached funds cover the whole price it emits one
/// transfer of the entire attached funds to the owner, otherwise no effect at
/// all; before instantiation it fails.
pub open spec fn pay_outcome(
    pre: Option<StateView>,
    post: Option<StateView>,
    funds: Seq<CoinView>,
    r: Result<Response, ContractError>,
) -> bool {
    match pre {
        None => post == pre && not_instantiated(r),
        Some(s) => {
            &&& post == pre
            &&& r matches Ok(resp) && resp@ == (ResponseView {
                attributes: seq![method_attr("try_pay"@)],
                messages: if spec_covers(funds, s.rentcost) {
                    seq![BankMsgView::Send { to_address: s.owner, amount: funds }]
                } else {
                    Seq::<BankMsgView>::empty()
                },
            })
        },
    }
}

/// Everything `try_boot` does: only the owner may call it; it removes exactly
/// the most recently added roster entry, and is a no-op on an empty roster;
/// any other caller is turned away unchanged; before instantiation it fails.
pub open spec fn boot_outcome(
    pre: Option<StateView>,
    post: Option<StateView>,
    sender: Seq<char>,
    r: Result<Response, ContractError>,
) -> bool {
    match pre {
        None => post == pre && not_instantiated(r),
        Some(s) => if sender != s.owner {
            post == pre && r == Err::<Response, ContractError>(ContractError::Unauthorized {  })
        } else {
            &&& post == Some(
                StateView {
                    renters: if s.renters.len() == 0 {
                        s.renters
                    } else {
                        s.renters.drop_last()
                    },
                    ..s
                },
            )
            &&& r matches Ok(resp) && resp@ == (ResponseView {
                attributes: seq![method_attr("try_boot"@)],
                messages: Seq::<BankMsgView>::empty(),
            })
        },
    }
}

/// Everything `try_ChangeRent` does: only the owner may call it; it replaces
/// the price wholesale with `newprice`, unvalidated — no deduplication, no
/// emptiness check — and emits nothing; any other caller is turned away
/// unchanged; before instantiation it fails.
pub open spec fn change_rent_outcome(
    pre: Option<StateView>,
    post: Option<StateView>,
    sender: Seq<char>,
    newprice: Seq<CoinView>,
    r: Result<Response, ContractError>,
) -> bool {
    match pre {
        None => post == pre && not_instantiated(r),
        Some(s) => if sender != s.owner {
            post == pre && r == Err::<Response, ContractError>(ContractError::Unauthorized {  })
        } else {
            &&& post == Some(StateView { rentcost: newprice, ..s })
            &&& r matches Ok(resp) && resp@ == (ResponseView {
                attributes: Seq::<AttributeView>::empty(),
                messages: Seq::<BankMsgView>::empty(),
            })
        },
    }
}

/// Creates the one agreement record. Anyone may instantiate; the caller
/// becomes the owner for good, and the roster starts empty whatever
/// `msg.renters` holds.
pub fn instantiate(store: &mut Store, _env: Env, info: MessageInfo, msg: InstantiateMsg) -> (r:
    Result<Response, ContractError>)
    ensures
        instantiate_outcome(final(store)@, info.sender@, msg, r),
{
    let sender_attr = info.sender.clone();
    let address_attr = msg.address.clone();
    let state = State {
        address: msg.address,
        rentcost: msg.rentcost,
        renters: Vec::new(),
        owner: info.sender,
        ownername: msg.ownername,
    };
    store.save(&state);
    let resp = Response::new().add_attribute("method", String::from_str("instantiate"))
        .add_attribute("owner", sender_attr.into_string()).add_attribute("address", address_attr);
    proof {
        assert(state@ =~= (StateView {
            address: msg.address@,
            rentcost: coins_view(msg.rentcost@),
            renters: Seq::<Seq<char>>::empty(),
            ownername: msg.ownername@,
            owner: info.sender@,
        }));
        assert(resp@ =~= (ResponseView {
            attributes: seq![
                method_attr("instantiate"@),
                AttributeView { key: "owner"@, value: info.sender@ },
                AttributeView { key: "address"@, value: msg.address@ },
            ],
            messages: Seq::<BankMsgView>::empty(),
        }));
    }
    Ok(resp)
}

/// Dispatches one mutating request to its transition.
pub fn execute(store: &mut Store, env: Env, info: MessageInfo, msg: ExecuteMsg) -> (r: Result<
    Response,
    ContractError,
>)
    ensures
        match msg {
            ExecuteMsg::RenterAdd {  } => add_outcome(
                old(store)@,
                final(store)@,
                env.contract.address@,
                r,
            ),
            ExecuteMsg::RenterPay {  } => pay_outcome(
                old(store)@,
                final(store)@,
                coins_view(info.funds@),
                r,
            ),
            ExecuteMsg::RenterBoot {  } => boot_outcome(old(store)@, final(store)@, info.sender@, r),
            ExecuteMsg::ChangeRent { newprice } => change_rent_outcome(
                old(store)@,
                final(store)@,
                info.sender@,
                coins_view(newprice@),
                r,
            ),
        },
{
    match msg {
        ExecuteMsg::RenterAdd {  } => try_add(store, env, info),
        ExecuteMsg::RenterPay {  } => try_pay(store, env, info),
        ExecuteMsg::RenterBoot {  } => try_boot(store, info),
        ExecuteMsg::ChangeRent { newprice } => try_ChangeRent(store, info, newprice),
    }
}

/// Registers on the roster. Open to any caller; what is appended is the
/// contract's own address, not the sender — kept exactly as the contract
/// behaves — and duplicates are not rejected.
pub fn try_add(store: &mut Store, env: Env, _info: MessageInfo) -> (r: Result<
    Response,
    ContractError,
>)
    ensures
        add_outcome(old(store)@, final(store)@, env.contract.address@, r),
{
    let mut state = match store.load() {
        Ok(s) => s,
        Err(e) => {
            return Err(ContractError::from(e));
        },
    };
    let ghost pre = state@;
    state.renters.push(env.contract.address);
    store.save(&state);
    proof {
        assert(state@ =~= (StateView { renters: pre.renters.push(env.contract.address@), ..pre }));
    }
    let resp = Response::new().add_attribute("method", String::from_str("try_add"));
    proof {
        assert(resp@ =~= (ResponseView {
            attributes: seq![method_attr("try_add"@)],
            messages: Seq::<BankMsgView>::empty(),
        }));
    }
    Ok(resp)
}

/// Accepts a rent payment. Never rejects a live contract: when the attached
/// funds cover the whole price, the entire attached funds are forwarded to
/// the owner in one transfer; a shortfall is silently ignored, with no
/// transfer and no error. The record itself is never altered.
pub fn try_pay(store: &mut Store, _env: Env, info: MessageInfo) -> (r: Result<
    Response,
    ContractError,
>)
    ensures
        pay_outcome(old(store)@, final(store)@, coins_view(info.funds@), r),
{
    let state = match store.load() {
        Ok(s) => s,
        Err(e) => {
            return Err(ContractError::from(e));
        },
    };
    let ghost st = state@;
    let resp = Response::new().add_attribute("method", String::from_str("try_pay"));
    proof {
        assert(resp@ =~= (ResponseView {
            attributes: seq![method_attr("try_pay"@)],
            messages: Seq::<BankMsgView>::empty(),
        }));
    }
    if covers(&info.funds, &state.rentcost) {
        let send = BankMsg::Send { to_address: state.owner.into_string(), amount: info.funds };
        let ghost sv = send@;
        let resp = resp.add_message(send);
        proof {
            assert(sv =~= (BankMsgView::Send {
                to_address: st.owner,
                amount: coins_view(info.funds@),
            }));
            assert(resp@.messages =~= seq![
                BankMsgView::Send { to_address: st.owner, amount: coins_view(info.funds@) },
            ]);
        }
        Ok(resp)
    } else {
        Ok(resp)
    }
}

/// Evicts from the roster. Owner-only: any other caller gets `Unauthorized`
/// and the record stays as it was. The last roster entry is removed —
/// stack-pop semantics, no renter is named in the request — and an empty
/// roster is left alone without error.
pub fn try_boot(store: &mut Store, info: MessageInfo) -> (r: Result<Response, ContractError>)
    ensures
        boot_outcome(old(store)@, final(store)@, info.sender@, r),
{
    let mut state = match store.load() {
        Ok(s) => s,
        Err(e) => {
            return Err(ContractError::from(e));
        },
    };
    if !(info.sender == state.owner) {
        return Err(ContractError::Unauthorized {  });
    }
    let ghost pre = state@;
    let _ = state.renters.pop();
    store.save(&state);
    proof {
        if pre.renters.len() == 0 {
            assert(state@ =~= (StateView { renters: pre.renters, ..pre }));
        } else {
            assert(state@.renters =~= pre.renters.drop_last());
            assert(state@ =~= (StateView { renters: pre.renters.drop_last(), ..pre }));
        }
    }
    let resp = Response::new().add_attribute("method", String::from_str("try_boot"));
    proof {
        assert(resp@ =~= (ResponseView {
            attributes: seq![method_attr("try_boot"@)],
            messages: Seq::<BankMsgView>::empty(),
        }));
    }
    Ok(resp)
}

/// Replaces the rent price. Owner-only: any other caller gets `Unauthorized`
/// and the record stays as it was. The new price is taken wholesale, with no
/// validation of any kind.
#[allow(non_snake_case)]
pub fn try_ChangeRent(store: &mut Store, info: MessageInfo, newprice: Vec<Coin>) -> (r: Result<
    Response,
    ContractError,
>)
    ensures
        change_rent_outcome(old(store)@, final(store)@, info.sender@, coins_view(newprice@), r),
{
    let mut state = match store.load() {
        Ok(s) => s,
        Err(e) => {
            return Err(ContractError::from(e));
        },
    };
    if !(info.sender == state.owner) {
        return Err(ContractError::Unauthorized {  });
    }
    let ghost pre = state@;
    state.rentcost = newprice;
    store.save(&state);
    proof {
        assert(state@ =~= (StateView { rentcost: coins_view(newprice@), ..pre }));
    }
    let resp = Response::new();
    proof {
        assert(resp@ =~= (ResponseView {
            attributes: Seq::<AttributeView>::empty(),
            messages: Seq::<BankMsgView>::empty(),
        }));
    }
    Ok(resp)
}

/// Dispatches one read-only request; never mutates, fails only before
/// instantiation.
pub fn query(store: &Store, _env: Env, msg: QueryMsg) -> (r: Result<QueryAnswer, StdError>)
    ensures
        store@ is None ==> r == Err::<QueryAnswer, StdError>(StdError::NotFound {  }),
        store@ matches Some(s) ==> match msg {
            QueryMsg::GetAddress {  } => r matches Ok(a) && a matches QueryAnswer::Address(p)
                && p.address@ == s.address,
            QueryMsg::GetRentCost {  } => r matches Ok(a) && a matches QueryAnswer::Cost(p)
                && coins_view(p.rentcost@) == s.rentcost,
            QueryMsg::GetOwner {  } => r matches Ok(a) && a matches QueryAnswer::Owner(p)
                && p.ownername@ == s.ownername,
        },
{
    match msg {
        QueryMsg::GetAddress {  } => match query_address(store) {
            Ok(p) => Ok(QueryAnswer::Address(p)),
            Err(e) => Err(e),
        },
        QueryMsg::GetRentCost {  } => match query_rent(store) {
            Ok(p) => Ok(QueryAnswer::Cost(p)),
            Err(e) => Err(e),
        },
        QueryMsg::GetOwner {  } => match query_owner(store) {
            Ok(p) => Ok(QueryAnswer::Owner(p)),
            Err(e) => Err(e),
        },
    }
}

/// Projects the property address out of the record.
pub fn query_address(store: &Store) -> (r: Result<AddressResponse, StdError>)
    ensures
        store@ is None ==> r == Err::<AddressResponse, StdError>(StdError::NotFound {  }),
        store@ matches Some(s) ==> r matches Ok(p) && p.address@ == s.address,
{
    let state = store.load()?;
    Ok(AddressResponse { address: state.address })
}

/// Projects the rent price out of the record.
pub fn query_rent(store: &Store) -> (r: Result<CostResponse, StdError>)
    ensures
        store@ is None ==> r == Err::<CostResponse, StdError>(StdError::NotFound {  }),
        store@ matches Some(s) ==> r matches Ok(p) && coins_view(p.rentcost@) == s.rentcost,
{
    let state = store.load()?;
    Ok(CostResponse { rentcost: state.rentcost })
}

/// Projects the owner's display name out of the record.
pub fn query_owner(store: &Store) -> (r: Result<OwnerResponse, StdError>)
    ensures
        store@ is None ==> r == Err::<OwnerResponse, StdError>(StdError::NotFound {  }),
        store@ matches Some(s) ==> r matches Ok(p) && p.ownername@ == s.ownername,
{
    let state = store.load()?;
    Ok(OwnerResponse { ownername: state.ownername })
}

} // verus!
