//! The guarantees of the transition engine, each proved from the outcome
//! predicates that the operations' own `ensures` establish.

use vstd::prelude::*;
use crate::contract::{
    add_outcome,
    boot_outcome,
    change_rent_outcome,
    instantiate_outcome,
    pay_outcome,
    spec_covers,
};
use crate::error::ContractError;
use crate::msg::InstantiateMsg;
use crate::response::{BankMsgView, Response};
use crate::state::{CoinView, State, StateView, coins_view};
use crate::store::Store;

verus! {

/// Instantiation is always permitted, whoever calls: the record it leaves
/// holds the caller as owner, an empty roster whatever roster the request
/// carried, and exactly the requested address, price and display name.
pub proof fn lemma_instantiate_always_permitted(
    post: Option<StateView>,
    sender: Seq<char>,
    msg: InstantiateMsg,
    r: Result<Response, ContractError>,
)
    requires
        instantiate_outcome(post, sender, msg, r),
    ensures
        r is Ok,
        post matches Some(s) && {
            &&& s.owner == sender
            &&& s.renters.len() == 0
            &&& s.address == msg.address@
            &&& s.rentcost == coins_view(msg.rentcost@)
            &&& s.ownername == msg.ownername@
        },
{
}

/// Registering always succeeds, for every caller, and grows the roster by
/// exactly one entry; it never raises `Unauthorized`, even before
/// instantiation.
pub proof fn lemma_add_grows_roster_by_one(
    pre: StateView,
    post: Option<StateView>,
    contract: Seq<char>,
    r: Result<Response, ContractError>,
)
    requires
        add_outcome(Some(pre), post, contract, r),
    ensures
        r is Ok,
        post matches Some(t) && t.renters.len() == pre.renters.len() + 1,
{
}

/// No outcome of registering, on any store contents, is `Unauthorized`.
pub proof fn lemma_add_never_unauthorized(
    pre: Option<StateView>,
    post: Option<StateView>,
    contract: Seq<char>,
    r: Result<Response, ContractError>,
)
    requires
        add_outcome(pre, post, contract, r),
    ensures
        r != Err::<Response, ContractError>(ContractError::Unauthorized {  }),
{
}

/// Eviction turns every caller but the owner away with `Unauthorized` and
/// leaves the record untouched.
pub proof fn lemma_boot_guards_owner(
    pre: StateView,
    post: Option<StateView>,
    sender: Seq<char>,
    r: Result<Response, ContractError>,
)
    requires
        boot_outcome(Some(pre), post, sender, r),
        sender != pre.owner,
    ensures
        r == Err::<Response, ContractError>(ContractError::Unauthorized {  }),
        post == Some(pre),
{
}

/// Eviction by the owner removes exactly the most recently added roster
/// entry: a registration followed by an owner's eviction returns the record
/// to precisely what it was, and evicting over an empty roster is a no-op.
pub proof fn lemma_boot_removes_last_added(
    pre: StateView,
    mid: Option<StateView>,
    post: Option<StateView>,
    contract: Seq<char>,
    r1: Result<Response, ContractError>,
    r2: Result<Response, ContractError>,
)
    requires
        add_outcome(Some(pre), mid, contract, r1),
        boot_outcome(mid, post, pre.owner, r2),
    ensures
        r2 is Ok,
        post == Some(pre),
{
    let s = mid->Some_0;
    assert(s.renters =~= pre.renters.push(contract));
    assert(s.renters.drop_last() =~= pre.renters);
    assert(post->Some_0 =~= pre);
}

/// An owner's eviction over an empty roster succeeds and changes nothing.
pub proof fn lemma_boot_empty_roster_is_noop(
    pre: StateView,
    post: Option<StateView>,
    r: Result<Response, ContractError>,
)
    requires
        boot_outcome(Some(pre), post, pre.owner, r),
        pre.renters.len() == 0,
    ensures
        r is Ok,
        post == Some(pre),
{
    assert(post->Some_0 =~= pre);
}

/// A rent change turns every caller but the owner away with `Unauthorized`;
/// for the owner it installs exactly the requested price, unvalidated, and
/// touches nothing else.
pub proof fn lemma_change_rent_exact(
    pre: StateView,
    post: Option<StateView>,
    sender: Seq<char>,
    newprice: Seq<CoinView>,
    r: Result<Response, ContractError>,
)
    requires
        change_rent_outcome(Some(pre), post, sender, newprice, r),
    ensures
        sender != pre.owner ==> r == Err::<Response, ContractError>(
            ContractError::Unauthorized {  },
        ) && post == Some(pre),
        sender == pre.owner ==> r is Ok && (post matches Some(t) && {
            &&& t.rentcost == newprice
            &&& t == (StateView { rentcost: newprice, ..pre })
        }),
{
}

/// Payment never fails on a live contract, whatever funds arrive, and never
/// alters the record: when the funds cover every denomination and amount of
/// the price, the one emitted effect transfers the entire attached funds to
/// the owner; otherwise there is no effect at all.
pub proof fn lemma_pay_all_or_nothing(
    pre: StateView,
    post: Option<StateView>,
    funds: Seq<CoinView>,
    r: Result<Response, ContractError>,
)
    requires
        pay_outcome(Some(pre), post, funds, r),
    ensures
        r is Ok,
        post == Some(pre),
        spec_covers(funds, pre.rentcost) ==> r->Ok_0@.messages == seq![
            BankMsgView::Send { to_address: pre.owner, amount: funds },
        ],
        !spec_covers(funds, pre.rentcost) ==> r->Ok_0@.messages == Seq::<BankMsgView>::empty(),
{
}

/// Persisting a record and reloading it yields identical field values: a
/// store holding what `saved` was saved as answers every load with a state
/// whose value is exactly that of `saved`.
pub proof fn lemma_persist_reload_identity(store: Store, saved: State, loaded: State)
    requires
        store@ == Some(saved@),
        store@ == Some(loaded@),
    ensures
        loaded@ == saved@,
{
}

} // verus!
